use vstd::prelude::*;

use crate::account::detail::account_path;
use crate::client::OandaClient;
use crate::error::APIError;

verus! {

/// The account summary endpoint's payload.
#[derive(Debug)]
#[allow(non_snake_case)]
pub struct AccountSummaryResponse {
    pub account: AccountSummaryDetail,
    pub lastTransactionID: String,
}

/// The summarized state of one account.
#[derive(Debug)]
#[allow(non_snake_case)]
pub struct AccountSummaryDetail {
    pub NAV: String,
    pub alias: String,
    pub balance: String,
    pub commission: String,
    pub createdByUserID: u32,
    pub createdTime: String,
    pub currency: String,
    pub dividendAdjustment: String,
    pub financing: String,
    pub guaranteedExecutionFees: String,
    pub guaranteedStopLossOrderMode: String,
    pub hedgingEnabled: bool,
    pub id: String,
    pub lastTransactionID: String,
    pub marginAvailable: String,
    pub marginCallMarginUsed: String,
    pub marginCallPercent: String,
    pub marginCloseoutMarginUsed: String,
    pub marginCloseoutNAV: String,
    pub marginCloseoutPercent: String,
    pub marginCloseoutPositionValue: String,
    pub marginCloseoutUnrealizedPL: String,
    pub marginRate: String,
    pub marginUsed: String,
    pub openPositionCount: u32,
    pub openTradeCount: u32,
    pub pendingOrderCount: u32,
    pub pl: String,
    pub positionValue: String,
    pub resettablePL: String,
    pub resettablePLTime: String,
    pub unrealizedPL: String,
    pub withdrawalLimit: String,
}

/// The path of the client's account summary, under the client's base URL, or
/// the account-not-set error.
pub fn account_summary_path(client: &OandaClient) -> (r: Result<String, APIError>)
    ensures
        r is Ok <==> client.spec_account_id() is Some,
        r matches Ok(p) ==> (client.spec_account_id() matches Some(id) && p@ == "/v3/accounts/"@
            + id + "/summary"@),
        r matches Err(e) ==> (e matches APIError::Other(m) && m@ == "Account ID Not Set"@),
{
    match account_path(client) {
        Ok(mut path) => {
            path.append("/summary");
            Ok(path)
        },
        Err(e) => Err(e),
    }
}

} // verus!
