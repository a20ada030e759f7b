pub mod accounts;
pub mod changes;
pub mod configuration;
pub mod detail;
pub mod instruments;
pub mod summary;

use vstd::prelude::*;

use crate::client::OandaClient;
use crate::errors::{Errors, OandaError};

verus! {

/// One account's identity and tags, as listed by the accounts endpoint.
#[derive(Debug)]
pub struct AccountSummary {
    pub id: String,
    pub tags: Vec<String>,
}

/// The accounts endpoint's payload.
#[derive(Debug)]
pub struct AccountsResponse {
    pub accounts: Vec<AccountSummary>,
}

/// The full state of one account.
#[derive(Debug)]
#[allow(non_snake_case)]
pub struct AccountDetail {
    pub NAV: String,
    pub alias: String,
    pub balance: String,
    pub commission: String,
    pub createdByUserID: u64,
    pub createdTime: String,
    pub currency: String,
    pub dividendAdjustment: String,
    pub financing: String,
    pub guaranteedExecutionFees: String,
    pub guaranteedStopLossOrderMode: String,
    pub hedgingEnabled: bool,
    pub id: String,
    pub lastTransactionID: String,
    pub marginAvailable: String,
    pub marginCallMarginUsed: String,
    pub marginCallPercent: String,
    pub marginCloseoutMarginUsed: String,
    pub marginCloseoutNAV: String,
    pub marginCloseoutPercent: String,
    pub marginCloseoutPositionValue: String,
    pub marginCloseoutUnrealizedPL: String,
    pub marginRate: String,
    pub marginUsed: String,
    pub openPositionCount: u64,
    pub openTradeCount: u64,
    pub orders: Vec<String>,
    pub pendingOrderCount: u64,
    pub pl: String,
    pub positionValue: String,
    pub positions: Vec<String>,
    pub resettablePL: String,
    pub resettablePLTime: String,
    pub trades: Vec<String>,
    pub unrealizedPL: String,
    pub withdrawalLimit: String,
}

/// The account endpoint's payload.
#[derive(Debug)]
#[allow(non_snake_case)]
pub struct AccountResponse {
    pub account: AccountDetail,
    pub lastTransactionID: String,
}

/// The account summary endpoint's payload.
#[derive(Debug)]
#[allow(non_snake_case)]
pub struct AccountSummaryResponse {
    pub account: AccountSummaryDetail,
    pub lastTransactionID: String,
}

/// The summarized state of one account.
#[derive(Debug)]
#[allow(non_snake_case)]
pub struct AccountSummaryDetail {
    pub NAV: String,
    pub alias: String,
    pub balance: String,
    pub commission: String,
    pub createdByUserID: u32,
    pub createdTime: String,
    pub currency: String,
    pub dividendAdjustment: String,
    pub financing: String,
    pub guaranteedExecutionFees: String,
    pub guaranteedStopLossOrderMode: String,
    pub hedgingEnabled: bool,
    pub id: String,
    pub lastTransactionID: String,
    pub marginAvailable: String,
    pub marginCallMarginUsed: String,
    pub marginCallPercent: String,
    pub marginCloseoutMarginUsed: String,
    pub marginCloseoutNAV: String,
    pub marginCloseoutPercent: String,
    pub marginCloseoutPositionValue: String,
    pub marginCloseoutUnrealizedPL: String,
    pub marginRate: String,
    pub marginUsed: String,
    pub openPositionCount: u32,
    pub openTradeCount: u32,
    pub pendingOrderCount: u32,
    pub pl: String,
    pub positionValue: String,
    pub resettablePL: String,
    pub resettablePLTime: String,
    pub unrealizedPL: String,
    pub withdrawalLimit: String,
}

/// One weekday's financing charge days.
#[derive(Debug)]
#[allow(non_snake_case)]
pub struct FinaningDay {
    pub dayOfWeek: String,
    pub daysCharged: u32,
}

/// An instrument's financing terms.
#[derive(Debug)]
#[allow(non_snake_case)]
pub struct Financing {
    pub financingDaysOfWeek: Vec<FinaningDay>,
    pub longRate: String,
    pub shortRate: String,
}

/// A label the API attaches to an instrument.
#[derive(Debug)]
pub struct Tag {
    pub name: String,
    pub type_type: String,
}

/// One tradeable instrument's terms.
#[derive(Debug)]
#[allow(non_snake_case)]
pub struct Instrument {
    pub displayName: String,
    pub displayPrecision: u32,
    pub financing: Financing,
    pub guaranteedStopLossOrderMode: String,
    pub marginRate: String,
    pub maximumOrderUnits: String,
    pub maximumPositionSize: String,
    pub maximumTrailingStopDistance: String,
    pub minimumTradeSize: String,
    pub minimumTrailingStopDistance: String,
    pub name: String,
    pub pipLocation: i32,
    pub tags: Vec<Tag>,
    pub tradeUnitsPrecision: u32,
    pub instrument_type: String,
}

/// The instruments endpoint's payload.
#[derive(Debug)]
#[allow(non_snake_case)]
pub struct InstrumentsResponse {
    pub instruments: Vec<Instrument>,
    pub lastTransactionID: String,
}

/// The error every account-scoped endpoint returns when the client has no
/// account set.
fn account_id_not_set() -> (r: Errors)
    ensures
        r matches Errors::OandaError(e) && e.spec_message() == "Account ID not set"@,
{
    Errors::OandaError(OandaError::new("Account ID not set"))
}

/// The URL listing all accounts the token may use.
pub fn accounts_url() -> (r: String)
    ensures
        r@ == "https://api-fxpractice.oanda.com/v3/accounts"@,
{
    "https://api-fxpractice.oanda.com/v3/accounts".to_owned()
}

/// The URL of the client's account, or the account-not-set error.
pub fn account_url(client: &OandaClient) -> (r: Result<String, Errors>)
    ensures
        r is Ok <==> client.spec_account_id() is Some,
        r matches Ok(u) ==> (client.spec_account_id() matches Some(id) && u@
            == "https://api-fxpractice.oanda.com/v3/accounts/"@ + id),
        r matches Err(e) ==> (e matches Errors::OandaError(oe) && oe.spec_message()
            == "Account ID not set"@),
{
    match client.get_account_id() {
        Some(account_id) => {
            let mut url = String::from_str("https://api-fxpractice.oanda.com/v3/accounts/");
            url.append(account_id.as_str());
            Ok(url)
        },
        None => Err(account_id_not_set()),
    }
}

/// The URL of the client's account summary, or the account-not-set error.
pub fn account_summary_url(client: &OandaClient) -> (r: Result<String, Errors>)
    ensures
        r is Ok <==> client.spec_account_id() is Some,
        r matches Ok(u) ==> (client.spec_account_id() matches Some(id) && u@
            == "https://api-fxpractice.oanda.com/v3/accounts/"@ + id + "/summary"@),
        r matches Err(e) ==> (e matches Errors::OandaError(oe) && oe.spec_message()
            == "Account ID not set"@),
{
    match account_url(client) {
        Ok(mut url) => {
            url.append("/summary");
            Ok(url)
        },
        Err(e) => Err(e),
    }
}

/// The URL of the client's tradeable instruments, or the account-not-set
/// error.
pub fn account_instruments_url(client: &OandaClient) -> (r: Result<String, Errors>)
    ensures
        r is Ok <==> client.spec_account_id() is Some,
        r matches Ok(u) ==> (client.spec_account_id() matches Some(id) && u@
            == "https://api-fxpractice.oanda.com/v3/accounts/"@ + id + "/instruments"@),
        r matches Err(e) ==> (e matches Errors::OandaError(oe) && oe.spec_message()
            == "Account ID not set"@),
{
    match account_url(client) {
        Ok(mut url) => {
            url.append("/instruments");
            Ok(url)
        },
        Err(e) => Err(e),
    }
}

/// The URL for configuring the client's account, or the account-not-set
/// error.
pub fn account_configuration_url(client: &OandaClient) -> (r: Result<String, Errors>)
    ensures
        r is Ok <==> client.spec_account_id() is Some,
        r matches Ok(u) ==> (client.spec_account_id() matches Some(id) && u@
            == "https://api-fxpractice.oanda.com/v3/accounts/"@ + id + "/configuration"@),
        r matches Err(e) ==> (e matches Errors::OandaError(oe) && oe.spec_message()
            == "Account ID not set"@),
{
    match account_url(client) {
        Ok(mut url) => {
            url.append("/configuration");
            Ok(url)
        },
        Err(e) => Err(e),
    }
}

/// The URL polling the client's account for changes, since the given
/// transaction when one is named, or the account-not-set error.
pub fn account_changes_url(client: &OandaClient, transaction_id: Option<&str>) -> (r: Result<
    String,
    Errors,
>)
    ensures
        r is Ok <==> client.spec_account_id() is Some,
        r matches Ok(u) ==> (client.spec_account_id() matches Some(id) && u@ == (match (
        transaction_id) {
            Some(tx) => "https://api-fxpractice.oanda.com/v3/accounts/"@ + id + "/changes"@
                + "?sinceTransactionID="@ + tx@,
            None => "https://api-fxpractice.oanda.com/v3/accounts/"@ + id + "/changes"@,
        })),
        r matches Err(e) ==> (e matches Errors::OandaError(oe) && oe.spec_message()
            == "Account ID not set"@),
{
    match account_url(client) {
        Ok(mut url) => {
            url.append("/changes");
            match transaction_id {
                Some(tx) => {
                    url.append("?sinceTransactionID=");
                    url.append(tx);
                    Ok(url)
                },
                None => Ok(url),
            }
        },
        Err(e) => Err(e),
    }
}

/// Sort the status of a configuration patch: the one success code passes,
/// and the codes the API documents map to their own messages.
pub fn classify_patch_status(status: u16) -> (r: Result<(), Errors>)
    ensures
        status == 200 ==> r is Ok,
        status == 400 ==> (r matches Err(Errors::OandaError(e)) && e.spec_message()
            == "The configuration specification was invalid"@),
        status == 403 ==> (r matches Err(Errors::OandaError(e)) && e.spec_message()
            == "The configuration operation was forbidden on the Account"@),
        status != 200 && status != 400 && status != 403 ==> (r matches Err(
            Errors::OandaError(e),
        ) && e.spec_message() == "Unknown error"@),
{
    if status == 200 {
        Ok(())
    } else if status == 400 {
        Err(Errors::OandaError(OandaError::new("The configuration specification was invalid")))
    } else if status == 403 {
        Err(
            Errors::OandaError(
                OandaError::new("The configuration operation was forbidden on the Account"),
            ),
        )
    } else {
        Err(Errors::OandaError(OandaError::new("Unknown error")))
    }
}

} // verus!
