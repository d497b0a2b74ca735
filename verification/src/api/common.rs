//! Constructors shared by the API clients

use vstd::prelude::*;
use crate::api::base::{HttpClient, EMPTY_API_KEY};
use crate::constants::OPENAI_API_BASE_URL;
use crate::error::Result;
use crate::text::is_blank_seq;

verus! {

/// Construction of an API client from its connection settings
pub trait ApiClientConstructors: Sized {
    /// The connection settings the client holds
    spec fn settings(&self) -> HttpClient;

    /// Create the client from connection settings
    fn from_http_client(http_client: HttpClient) -> (r: Self)
        ensures
            r.settings() == http_client,
    ;

    /// Create a client for the default API origin; a blank API key is refused
    fn new(api_key: &str) -> (r: Result<Self>)
        ensures
            match r {
                Ok(c) => !is_blank_seq(api_key@) && c.settings().key() == api_key@
                    && c.settings().origin() == OPENAI_API_BASE_URL@,
                Err(e) => is_blank_seq(api_key@) && e is Authentication && e->Authentication_0@
                    == EMPTY_API_KEY@,
            },
    {
        let client = HttpClient::new(api_key)?;
        Ok(Self::from_http_client(client))
    }

    /// Create a client for a custom API origin; a blank API key is refused
    fn new_with_base_url(api_key: &str, base_url: &str) -> (r: Result<Self>)
        ensures
            match r {
                Ok(c) => !is_blank_seq(api_key@) && c.settings().key() == api_key@
                    && c.settings().origin() == base_url@,
                Err(e) => is_blank_seq(api_key@) && e is Authentication && e->Authentication_0@
                    == EMPTY_API_KEY@,
            },
    {
        let client = HttpClient::new_with_base_url(api_key, base_url)?;
        Ok(Self::from_http_client(client))
    }
}

} // verus!
