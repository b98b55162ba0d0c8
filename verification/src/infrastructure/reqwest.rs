//! The HTTP requester backed by a `reqwest` client. Sending requests is I/O
//! and happens in the application binary; the library holds the client.
use std::sync::Arc;
use vstd::prelude::*;

verus! {

#[verifier::external_type_specification]
#[verifier::external_body]
pub struct ExClient(::reqwest::Client);

/// An HTTP requester over a shared `reqwest` client.
pub struct HttpReqwest {
    http_client: Arc<::reqwest::Client>,
}

impl HttpReqwest {
    /// The client that requests go through.
    pub closed spec fn spec_client(&self) -> Arc<::reqwest::Client> {
        self.http_client
    }

    pub fn new(http_client: Arc<::reqwest::Client>) -> (requester: Self)
        ensures
            requester.spec_client() == http_client,
    {
        HttpReqwest { http_client }
    }

    /// The client that requests go through.
    pub fn client(&self) -> (client: &Arc<::reqwest::Client>)
        ensures
            *client == self.spec_client(),
    {
        &self.http_client
    }
}

} // verus!
