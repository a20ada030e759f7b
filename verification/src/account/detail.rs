use vstd::prelude::*;

use crate::client::OandaClient;
use crate::error::APIError;

verus! {

/// The full state of one account.
#[derive(Debug)]
#[allow(non_snake_case)]
pub struct AccountDetail {
    pub NAV: String,
    pub alias: String,
    pub balance: String,
    pub commission: String,
    pub createdByUserID: u64,
    pub createdTime: String,
    pub currency: String,
    pub dividendAdjustment: String,
    pub financing: String,
    pub guaranteedExecutionFees: String,
    pub guaranteedStopLossOrderMode: String,
    pub hedgingEnabled: bool,
    pub id: String,
    pub lastTransactionID: String,
    pub marginAvailable: String,
    pub marginCallMarginUsed: String,
    pub marginCallPercent: String,
    pub marginCloseoutMarginUsed: String,
    pub marginCloseoutNAV: String,
    pub marginCloseoutPercent: String,
    pub marginCloseoutPositionValue: String,
    pub marginCloseoutUnrealizedPL: String,
    pub marginRate: String,
    pub marginUsed: String,
    pub openPositionCount: u64,
    pub openTradeCount: u64,
    pub orders: Vec<String>,
    pub pendingOrderCount: u64,
    pub pl: String,
    pub positionValue: String,
    pub positions: Vec<String>,
    pub resettablePL: String,
    pub resettablePLTime: String,
    pub trades: Vec<String>,
    pub unrealizedPL: String,
    pub withdrawalLimit: String,
}

/// The account endpoint's payload.
#[derive(Debug)]
#[allow(non_snake_case)]
pub struct AccountResponse {
    pub account: AccountDetail,
    pub lastTransactionID: String,
}

/// The error the client-scoped endpoints return when no account is set.
fn account_id_not_set() -> (r: APIError)
    ensures
        r matches APIError::Other(m) && m@ == "Account ID Not Set"@,
{
    APIError::Other("Account ID Not Set".to_owned())
}

/// The path of the client's account, under the client's base URL, or the
/// account-not-set error.
pub fn account_path(client: &OandaClient) -> (r: Result<String, APIError>)
    ensures
        r is Ok <==> client.spec_account_id() is Some,
        r matches Ok(p) ==> (client.spec_account_id() matches Some(id) && p@ == "/v3/accounts/"@
            + id),
        r matches Err(e) ==> (e matches APIError::Other(m) && m@ == "Account ID Not Set"@),
{
    match client.get_account_id() {
        Some(account_id) => {
            let mut path = String::from_str("/v3/accounts/");
            path.append(account_id.as_str());
            Ok(path)
        },
        None => Err(account_id_not_set()),
    }
}

} // verus!
