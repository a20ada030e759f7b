use vstd::prelude::*;

use crate::account::detail::account_path;
use crate::client::OandaClient;
use crate::error::APIError;

verus! {

/// The transaction the API records for a configuration change.
#[derive(Debug)]
#[allow(non_snake_case)]
pub struct ClientConfigureTransaction {
    pub accountID: String,
    pub batchID: String,
    pub id: String,
    pub marginRate: Option<String>,
    pub alias: Option<String>,
    pub time: String,
    pub type_: String,
    pub userID: u64,
}

/// The configuration endpoint's payload.
#[derive(Debug)]
#[allow(non_snake_case)]
pub struct ConfigurationResponse {
    pub clientConfigureTransaction: ClientConfigureTransaction,
    pub lastTransactionID: String,
}

/// The path for configuring the client's account, under the client's base
/// URL, or the account-not-set error.
pub fn account_configuration_path(client: &OandaClient) -> (r: Result<String, APIError>)
    ensures
        r is Ok <==> client.spec_account_id() is Some,
        r matches Ok(p) ==> (client.spec_account_id() matches Some(id) && p@ == "/v3/accounts/"@
            + id + "/configuration"@),
        r matches Err(e) ==> (e matches APIError::Other(m) && m@ == "Account ID Not Set"@),
{
    match account_path(client) {
        Ok(mut path) => {
            path.append("/configuration");
            Ok(path)
        },
        Err(e) => Err(e),
    }
}

/// Sort the `status` member of a configuration patch's payload: the one
/// success code passes, the codes the API documents map to their own
/// messages, and anything else is unknown.
pub fn classify_configuration_status(status: Option<u64>) -> (r: Result<(), APIError>)
    ensures
        status == Some(200u64) ==> r is Ok,
        status == Some(400u64) ==> (r matches Err(APIError::Other(m)) && m@
            == "The configuration specification was invalid"@),
        status == Some(403u64) ==> (r matches Err(APIError::Other(m)) && m@
            == "The configuration operation was forbidden on the Account"@),
        (status != Some(200u64) && status != Some(400u64) && status != Some(403u64)) ==> (
        r matches Err(APIError::Other(m)) && m@ == "Unknown error"@),
{
    match status {
        Some(200u64) => Ok(()),
        Some(400u64) => Err(
            APIError::Other("The configuration specification was invalid".to_owned()),
        ),
        Some(403u64) => Err(
            APIError::Other("The configuration operation was forbidden on the Account".to_owned()),
        ),
        _ => Err(APIError::Other("Unknown error".to_owned())),
    }
}

/// Pass a configuration patch's payload through when its `status` member is
/// the success code, and map the documented failure codes to their errors.
pub fn check_configuration_response(value: serde_json::Value) -> (r: Result<
    serde_json::Value,
    APIError,
>)
    ensures
        r matches Ok(v) ==> v == value,
{
    let status = crate::json::status_of(&value);
    match classify_configuration_status(status) {
        Ok(()) => Ok(value),
        Err(e) => Err(e),
    }
}

} // verus!
