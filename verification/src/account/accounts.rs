use vstd::prelude::*;

verus! {

/// One account's identity and tags, as listed by the accounts endpoint.
#[derive(Debug)]
pub struct AccountSummary {
    pub id: String,
    pub tags: Vec<String>,
}

/// The accounts endpoint's payload.
#[derive(Debug)]
pub struct AccountsResponse {
    pub accounts: Vec<AccountSummary>,
}

/// The path listing all accounts the token may use, under the client's base
/// URL.
pub fn accounts_path() -> (r: String)
    ensures
        r@ == "/v3/accounts"@,
{
    "/v3/accounts".to_owned()
}

} // verus!
