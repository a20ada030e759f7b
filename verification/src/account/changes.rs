use vstd::prelude::*;

use crate::account::detail::account_path;
use crate::client::OandaClient;
use crate::error::APIError;

verus! {

/// The changes endpoint's payload.
#[derive(Debug)]
#[allow(non_snake_case)]
pub struct ChangesResponse {
    pub changes: Changes,
    pub lastTransactionID: String,
    pub state: State,
}

/// What changed on the account since the named transaction.
#[derive(Debug)]
#[allow(non_snake_case)]
pub struct Changes {
    pub ordersCancelled: Vec<Order>,
    pub ordersCreated: Vec<Order>,
    pub ordersFilled: Vec<Order>,
    pub ordersTriggered: Vec<Order>,
    pub positions: Vec<Position>,
    pub tradesClosed: Vec<Trade>,
    pub tradesOpened: Vec<Trade>,
    pub tradesReduced: Vec<Trade>,
    pub trasactions: Vec<Transaction>,
}

/// One order's state.
#[derive(Debug)]
#[allow(non_snake_case)]
pub struct Order {
    pub createTime: String,
    pub filledTime: String,
    pub fillingTransactionID: String,
    pub id: String,
    pub instrument: String,
    pub positionFill: String,
    pub state: String,
    pub timeInForce: String,
    pub tradeOpenedID: String,
    pub type_: String,
    pub units: String,
}

/// One position, long and short sides.
#[derive(Debug)]
#[allow(non_snake_case)]
pub struct Position {
    pub instrument: String,
    pub long: PositionDetails,
    pub pl: String,
    pub resettablePL: String,
    pub short: PositionDetails,
}

/// One side of a position.
#[derive(Debug)]
#[allow(non_snake_case)]
pub struct PositionDetails {
    pub averagePrice: String,
    pub pl: String,
    pub resettablePL: String,
    pub tradeIDs: Vec<String>,
    pub units: String,
}

/// One trade's state.
#[derive(Debug)]
#[allow(non_snake_case)]
pub struct Trade {
    pub currentUnits: String,
    pub financing: String,
    pub id: String,
    pub initialUnits: String,
    pub instrument: String,
    pub openTime: String,
    pub price: String,
    pub realizedPL: String,
    pub state: String,
}

/// A transaction the changes endpoint reports.
#[derive(Debug)]
pub enum Transaction {
    MarketOrder(MarketOrderTransaction),
    OrderFill(OrderFillTransaction),
}

/// A market order's transaction record.
#[derive(Debug)]
#[allow(non_snake_case)]
pub struct MarketOrderTransaction {
    pub accountID: String,
    pub batchID: String,
    pub id: String,
    pub instrument: String,
    pub positionFill: String,
    pub reason: String,
    pub time: String,
    pub timeInForce: String,
    pub type_: String,
    pub units: String,
    pub userID: u32,
}

/// An order fill's transaction record.
#[derive(Debug)]
#[allow(non_snake_case)]
pub struct OrderFillTransaction {
    pub accountBalance: String,
    pub accountID: String,
    pub batchID: String,
    pub financing: String,
    pub id: String,
    pub instrument: String,
    pub orderID: String,
    pub pl: String,
    pub price: String,
    pub reason: String,
    pub time: String,
    pub tradeOpened: TradeOpened,
    pub type_: String,
    pub units: String,
    pub userID: u32,
}

/// The trade an order fill opened.
#[derive(Debug)]
#[allow(non_snake_case)]
pub struct TradeOpened {
    pub tradeID: String,
    pub units: String,
}

/// The account's state alongside the reported changes.
#[derive(Debug)]
#[allow(non_snake_case)]
pub struct State {
    pub NAV: String,
    pub marginAvailable: String,
    pub marginCloseoutMarginUsed: String,
    pub marginCloseoutNAV: String,
    pub marginCloseoutPercent: String,
    pub marginCloseoutUnrealizedPL: String,
    pub marginUsed: String,
    pub orders: Vec<String>,
    pub positionValue: String,
    pub positions: Vec<StatePosition>,
    pub trades: Vec<StateTrade>,
    pub unrealizedPL: String,
    pub withdrawalLimit: String,
}

/// One position's unrealized profit and loss.
#[derive(Debug)]
#[allow(non_snake_case)]
pub struct StatePosition {
    pub instrument: String,
    pub longUnrealizedPL: String,
    pub netUnrealizedPL: String,
    pub shortUnrealizedPL: String,
}

/// One trade's unrealized profit and loss.
#[derive(Debug)]
#[allow(non_snake_case)]
pub struct StateTrade {
    pub id: String,
    pub unrealizedPL: String,
}

/// The path polling the client's account for changes since the named
/// transaction, under the client's base URL, or the account-not-set error.
pub fn account_changes_path(client: &OandaClient, transaction_id: &String) -> (r: Result<
    String,
    APIError,
>)
    ensures
        r is Ok <==> client.spec_account_id() is Some,
        r matches Ok(p) ==> (client.spec_account_id() matches Some(id) && p@ == "/v3/accounts/"@
            + id + "/changes?sinceTransactionID="@ + transaction_id@),
        r matches Err(e) ==> (e matches APIError::Other(m) && m@ == "Account ID Not Set"@),
{
    match account_path(client) {
        Ok(mut path) => {
            path.append("/changes?sinceTransactionID=");
            path.append(transaction_id.as_str());
            Ok(path)
        },
        Err(e) => Err(e),
    }
}

} // verus!
