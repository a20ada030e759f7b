use vstd::prelude::*;

use crate::error::APIError;
use crate::utils::try_clone::TryClone;

verus! {

/// The verb of one outbound call.
#[derive(Clone, Copy, PartialEq, Eq, Structural, Debug)]
pub enum HttpMethod {
    Get,
    Patch,
}

/// The payload of one outbound call. A buffered body can be duplicated for a
/// retried attempt; a streaming body is consumed when sent and cannot be.
#[derive(Debug)]
pub enum RequestBody {
    Empty,
    Buffered(Vec<u8>),
    Streaming,
}

impl RequestBody {
    /// What the body carries, for contracts: `None` stands for a streaming
    /// body, whose bytes are not available for replay.
    pub open spec fn spec_bytes(&self) -> Option<Seq<u8>> {
        match *self {
            RequestBody::Empty => Some(Seq::empty()),
            RequestBody::Buffered(ref b) => Some(b@),
            RequestBody::Streaming => None,
        }
    }
}

/// An immutable, explicitly replayable description of one outbound call.
#[derive(Debug)]
pub struct RequestEnvelope {
    pub method: HttpMethod,
    pub url: String,
    pub headers: Vec<(String, String)>,
    pub body: RequestBody,
}

impl RequestEnvelope {
    /// Whether the envelope can be duplicated for a retried attempt.
    pub open spec fn cloneable(&self) -> bool {
        !(self.body is Streaming)
    }

    /// Two envelopes describe the same call.
    pub open spec fn equivalent(&self, other: &RequestEnvelope) -> bool {
        &&& self.method == other.method
        &&& self.url@ == other.url@
        &&& self.headers.deep_view() == other.headers.deep_view()
        &&& self.body.spec_bytes() == other.body.spec_bytes()
    }

    /// An equivalent, structurally independent copy, or an explicit failure
    /// exactly when the body is backed by a one-shot stream.
    pub fn try_clone(&self) -> (r: Result<RequestEnvelope, APIError>)
        ensures
            r is Ok <==> self.cloneable(),
            r matches Ok(c) ==> c.equivalent(self),
            r matches Err(e) ==> e matches APIError::Other(m) && m@ == "Failed to clone request"@,
    {
        match &self.body {
            RequestBody::Streaming => Err(
                APIError::Other("Failed to clone request".to_owned()),
            ),
            RequestBody::Empty => Ok(
                RequestEnvelope {
                    method: self.method,
                    url: self.url.clone(),
                    headers: clone_headers(&self.headers),
                    body: RequestBody::Empty,
                },
            ),
            RequestBody::Buffered(bytes) => Ok(
                RequestEnvelope {
                    method: self.method,
                    url: self.url.clone(),
                    headers: clone_headers(&self.headers),
                    body: RequestBody::Buffered(clone_bytes(bytes)),
                },
            ),
        }
    }
}

impl TryClone for RequestEnvelope {
    fn try_clone(&self) -> Result<Self, APIError> {
        self.try_clone()
    }
}

pub(crate) fn clone_headers(headers: &Vec<(String, String)>) -> (r: Vec<(String, String)>)
    ensures
        r.deep_view() == headers.deep_view(),
{
    let mut r: Vec<(String, String)> = Vec::new();
    let mut i: usize = 0;
    while i < headers.len()
        invariant
            i <= headers.len(),
            r@.len() == i as int,
            forall|j: int|
                #![trigger r@[j]]
                0 <= j < i ==> r@[j].0@ == headers@[j].0@ && r@[j].1@ == headers@[j].1@,
        decreases headers.len() - i,
    {
        let (k, v) = &headers[i];
        r.push((k.clone(), v.clone()));
        i = i + 1;
    }
    proof {
        assert forall|j: int| 0 <= j < headers@.len() implies r.deep_view()[j]
            == headers.deep_view()[j] by {
            assert(r@[j].0@ == headers@[j].0@ && r@[j].1@ == headers@[j].1@);
        }
        assert(r.deep_view() =~= headers.deep_view());
    }
    r
}

fn clone_bytes(bytes: &Vec<u8>) -> (r: Vec<u8>)
    ensures
        r@ == bytes@,
{
    let mut r: Vec<u8> = Vec::new();
    let mut i: usize = 0;
    while i < bytes.len()
        invariant
            i <= bytes.len(),
            r@ =~= bytes@.take(i as int),
        decreases bytes.len() - i,
    {
        r.push(bytes[i]);
        i = i + 1;
    }
    proof {
        assert(r@ =~= bytes@);
    }
    r
}

/// A request envelope wrapped for the governor's execution stage.
#[derive(Debug)]
pub struct ClonableRequest(pub RequestEnvelope);

impl ClonableRequest {
    pub fn new(request: RequestEnvelope) -> (r: Self)
        ensures
            r.0 == request,
    {
        ClonableRequest(request)
    }

    pub fn into_inner(self) -> (r: RequestEnvelope)
        ensures
            r == self.0,
    {
        self.0
    }

    /// Whether the wrapped envelope can be duplicated for a retried attempt.
    pub open spec fn cloneable(&self) -> bool {
        self.0.cloneable()
    }

    /// An equivalent, structurally independent copy, or an explicit failure
    /// exactly when the wrapped envelope is not replayable.
    pub fn try_clone(&self) -> (r: Result<ClonableRequest, APIError>)
        ensures
            r is Ok <==> self.cloneable(),
            r matches Ok(c) ==> c.0.equivalent(&self.0),
    {
        match self.0.try_clone() {
            Ok(env) => Ok(ClonableRequest(env)),
            Err(e) => Err(e),
        }
    }
}

impl TryClone for ClonableRequest {
    fn try_clone(&self) -> (r: Result<Self, APIError>) {
        self.try_clone()
    }
}

} // verus!
