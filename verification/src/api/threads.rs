//! Threads API client

use vstd::prelude::*;
use crate::api::base::{HttpClient, EMPTY_API_KEY};
use crate::api::common::ApiClientConstructors;
use crate::error::Result;
use crate::text::is_blank_seq;

verus! {

/// `OpenAI` Threads API client for managing conversation threads and messages
#[derive(Debug, Clone)]
pub struct ThreadsApi {
    http_client: HttpClient,
}

impl ApiClientConstructors for ThreadsApi {
    closed spec fn settings(&self) -> HttpClient {
        self.http_client
    }

    fn from_http_client(http_client: HttpClient) -> (r: Self) {
        ThreadsApi { http_client }
    }
}

impl ThreadsApi {
    /// Creates a new Threads API client with a custom base URL
    pub fn with_base_url(api_key: &str, base_url: &str) -> (r: Result<Self>)
        ensures
            match r {
                Ok(c) => !is_blank_seq(api_key@) && c.settings().key() == api_key@
                    && c.settings().origin() == base_url@,
                Err(e) => is_blank_seq(api_key@) && e is Authentication && e->Authentication_0@
                    == EMPTY_API_KEY@,
            },
    {
        Ok(ThreadsApi { http_client: HttpClient::new_with_base_url(api_key, base_url)? })
    }

    /// The connection settings of this client
    pub fn http_client(&self) -> (r: &HttpClient)
        ensures
            *r == self.settings(),
    {
        &self.http_client
    }
}

} // verus!
