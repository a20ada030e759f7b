use vstd::prelude::*;

use crate::error::APIError;
use crate::governor::{Governor, GovernorConfig};
use crate::json::error_message_of;
use crate::utils::clonable_request::{HttpMethod, RequestBody, RequestEnvelope};

verus! {

/// The verified core of the API client: it owns the governor that paces and
/// bounds outbound calls, and it builds the request envelopes that the
/// transport executes.
pub struct OandaClient {
    governor: Governor,
    account_id: Option<String>,
    api_key: String,
    base_url: String,
}

impl OandaClient {
    /// The account the client addresses, if one is set.
    pub closed spec fn spec_account_id(&self) -> Option<Seq<char>> {
        match self.account_id {
            Some(ref id) => Some(id@),
            None => None,
        }
    }

    /// The bearer token presented on every request.
    pub closed spec fn spec_api_key(&self) -> Seq<char> {
        self.api_key@
    }

    /// The base of every request URL.
    pub closed spec fn spec_base_url(&self) -> Seq<char> {
        self.base_url@
    }

    /// The governor's configuration.
    pub closed spec fn spec_config(&self) -> GovernorConfig {
        self.governor.spec_config()
    }

    /// The client's invariant: a well-formed governor behind the fixed
    /// practice-environment base URL.
    pub closed spec fn wf(&self) -> bool {
        &&& self.governor.wf()
        &&& self.base_url@ == "https://api-fxpractice.oanda.com"@
    }

    /// A client whose calls are paced by a governor built from the given
    /// limits; a zero rate, buffer or concurrency limit fails construction.
    pub fn new(
        account_id: Option<&str>,
        api_key: &str,
        buffer_size: usize,
        concurrency_limit: usize,
        rate_limit: usize,
        retry_attempts: usize,
    ) -> (r: Result<OandaClient, APIError>)
        ensures
            r is Ok <==> (rate_limit >= 1 && buffer_size >= 1 && concurrency_limit >= 1),
            r matches Ok(c) ==> {
                &&& c.wf()
                &&& c.governor_view().wf()
                &&& c.governor_view().spec_config() == c.spec_config()
                &&& c.governor_view().queued() == Seq::<
                    crate::utils::clonable_request::ClonableRequest,
                >::empty()
                &&& c.governor_view().starts() == Seq::<u64>::empty()
                &&& c.governor_view().spec_in_flight() == 0
                &&& c.governor_view().spec_last_ms() == 0
                &&& c.spec_api_key() == api_key@
                &&& (match (c.spec_account_id(), account_id) {
                    (Some(got), Some(given)) => got == given@,
                    (None, None) => true,
                    _ => false,
                })
                &&& c.spec_config().rate_limit_per_second == rate_limit as u64
                &&& c.spec_config().buffer_capacity == buffer_size
                &&& c.spec_config().concurrency_limit == concurrency_limit as u64
                &&& c.spec_config().max_retry_attempts == retry_attempts
            },
            r matches Err(e) ==> e matches APIError::Other(m) && (m@ == "Invalid rate limit value"@
                || m@ == "Invalid governor configuration"@),
    {
        if rate_limit < 1 {
            return Err(APIError::Other("Invalid rate limit value".to_owned()));
        }
        let config = GovernorConfig {
            rate_limit_per_second: rate_limit as u64,
            buffer_capacity: buffer_size,
            concurrency_limit: concurrency_limit as u64,
            max_retry_attempts: retry_attempts,
            backoff_base_ms: 1000,
        };
        let governor = match Governor::new(config) {
            Ok(g) => g,
            Err(_) => {
                return Err(APIError::Other("Invalid governor configuration".to_owned()));
            },
        };
        let account_id = match account_id {
            Some(id) => Some(id.to_owned()),
            None => None,
        };
        Ok(
            OandaClient {
                governor,
                account_id,
                api_key: api_key.to_owned(),
                base_url: "https://api-fxpractice.oanda.com".to_owned(),
            },
        )
    }

    /// Address the client to one account.
    pub fn set_account_id(&mut self, account_id: &str)
        ensures
            final(self).spec_account_id() == Some(account_id@),
            final(self).spec_api_key() == old(self).spec_api_key(),
            final(self).spec_base_url() == old(self).spec_base_url(),
            final(self).wf() == old(self).wf(),
    {
        self.account_id = Some(account_id.to_owned());
    }

    /// The account the client addresses, if one is set.
    pub fn get_account_id(&self) -> (r: Option<&String>)
        ensures
            (match r {
                Some(id) => self.spec_account_id() == Some(id@),
                None => self.spec_account_id() is None,
            }),
    {
        self.account_id.as_ref()
    }

    /// The governor pacing this client's calls.
    pub fn governor(&mut self) -> (r: &mut Governor)
        ensures
            *r == old(self).governor_view(),
            final(self).governor_view() == *final(r),
            final(self).spec_account_id() == old(self).spec_account_id(),
            final(self).spec_api_key() == old(self).spec_api_key(),
            final(self).spec_base_url() == old(self).spec_base_url(),
    {
        &mut self.governor
    }

    /// The governor itself, for contracts about the borrow handed out by
    /// [`Self::governor`].
    pub closed spec fn governor_view(&self) -> Governor {
        self.governor
    }

    /// The compute stage of issuing a request: the envelope carrying the full
    /// URL under the client's base, the bearer token header, and the given
    /// body. Such an envelope is replayable unless the body streams.
    pub fn prepare_request(&self, method: HttpMethod, path: &str, body: RequestBody) -> (r:
        RequestEnvelope)
        ensures
            r.method == method,
            r.url@ == self.spec_base_url() + path@,
            r.headers.deep_view() == seq![("Authorization"@, "Bearer "@ + self.spec_api_key())],
            r.body == body,
    {
        let mut url = self.base_url.clone();
        url.append(path);
        let mut auth = String::from_str("Bearer ");
        auth.append(self.api_key.as_str());
        let mut headers: Vec<(String, String)> = Vec::new();
        headers.push(("Authorization".to_owned(), auth));
        let r = RequestEnvelope { method, url, headers, body };
        proof {
            assert(r.headers.deep_view() =~= seq![
                ("Authorization"@, "Bearer "@ + self.spec_api_key()),
            ]);
        }
        r
    }

    /// The compute stage of `get`: a replayable GET envelope for `path`.
    pub fn prepare_get(&self, path: &str) -> (r: RequestEnvelope)
        ensures
            r.method == HttpMethod::Get,
            r.url@ == self.spec_base_url() + path@,
            r.headers.deep_view() == seq![("Authorization"@, "Bearer "@ + self.spec_api_key())],
            r.body is Empty,
            r.cloneable(),
    {
        self.prepare_request(HttpMethod::Get, path, RequestBody::Empty)
    }

    /// The compute stage of `patch`: a replayable PATCH envelope for `path`
    /// carrying the serialized body.
    pub fn prepare_patch(&self, path: &str, body: Vec<u8>) -> (r: RequestEnvelope)
        ensures
            r.method == HttpMethod::Patch,
            r.url@ == self.spec_base_url() + path@,
            r.headers.deep_view() == seq![("Authorization"@, "Bearer "@ + self.spec_api_key())],
            r.body matches RequestBody::Buffered(b) && b@ == body@,
            r.cloneable(),
    {
        let ghost bytes = body@;
        let r = self.prepare_request(HttpMethod::Patch, path, RequestBody::Buffered(body));
        r
    }

    /// Sort a decoded payload by what its `errorMessage` member says: a
    /// payload carrying one is the API refusing the call.
    pub fn classify_payload(value: serde_json::Value, error_message: Option<String>) -> (r: Result<
        serde_json::Value,
        APIError,
    >)
        ensures
            error_message matches Some(m) ==> (r matches Err(e) && e matches APIError::Other(m2)
                && m2@ == m@),
            error_message is None ==> (r matches Ok(v) && v == value),
    {
        match error_message {
            Some(m) => Err(APIError::Other(m)),
            None => Ok(value),
        }
    }

    /// Pass a transport result through, turning a structurally successful
    /// payload that carries an `errorMessage` member into the error it
    /// reports. An incoming error is returned unchanged.
    pub fn check_response(response: Result<serde_json::Value, APIError>) -> (r: Result<
        serde_json::Value,
        APIError,
    >)
        ensures
            response matches Err(e) ==> (r matches Err(e2) && e2 == e),
            r matches Ok(v) ==> (response matches Ok(v0) && v == v0),
    {
        match response {
            Ok(value) => {
                let message = error_message_of(&value);
                OandaClient::classify_payload(value, message)
            },
            Err(err) => Err(err),
        }
    }
}

} // verus!
