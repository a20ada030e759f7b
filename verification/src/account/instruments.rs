use vstd::prelude::*;

use crate::account::detail::account_path;
use crate::client::OandaClient;
use crate::error::APIError;

verus! {

/// One weekday's financing charge days.
#[derive(Debug)]
#[allow(non_snake_case)]
pub struct FinaningDay {
    pub dayOfWeek: String,
    pub daysCharged: u32,
}

/// An instrument's financing terms.
#[derive(Debug)]
#[allow(non_snake_case)]
pub struct Financing {
    pub financingDaysOfWeek: Vec<FinaningDay>,
    pub longRate: String,
    pub shortRate: String,
}

/// A label the API attaches to an instrument.
#[derive(Debug)]
pub struct Tag {
    pub name: String,
    pub type_type: String,
}

/// One tradeable instrument's terms.
#[derive(Debug)]
#[allow(non_snake_case)]
pub struct Instrument {
    pub displayName: String,
    pub displayPrecision: u32,
    pub financing: Financing,
    pub guaranteedStopLossOrderMode: String,
    pub marginRate: String,
    pub maximumOrderUnits: String,
    pub maximumPositionSize: String,
    pub maximumTrailingStopDistance: String,
    pub minimumTradeSize: String,
    pub minimumTrailingStopDistance: String,
    pub name: String,
    pub pipLocation: i32,
    pub tags: Vec<Tag>,
    pub tradeUnitsPrecision: u32,
    pub instrument_type: String,
}

/// The instruments endpoint's payload.
#[derive(Debug)]
#[allow(non_snake_case)]
pub struct InstrumentsResponse {
    pub instruments: Vec<Instrument>,
    pub lastTransactionID: String,
}

/// The path of the client's tradeable instruments, under the client's base
/// URL, or the account-not-set error.
pub fn account_instruments_path(client: &OandaClient) -> (r: Result<String, APIError>)
    ensures
        r is Ok <==> client.spec_account_id() is Some,
        r matches Ok(p) ==> (client.spec_account_id() matches Some(id) && p@ == "/v3/accounts/"@
            + id + "/instruments"@),
        r matches Err(e) ==> (e matches APIError::Other(m) && m@ == "Account ID Not Set"@),
{
    match account_path(client) {
        Ok(mut path) => {
            path.append("/instruments");
            Ok(path)
        },
        Err(e) => Err(e),
    }
}

} // verus!
