//! Uploads API client for managing multipart file uploads

use vstd::prelude::*;
use crate::api::base::HttpClient;
use crate::api::common::ApiClientConstructors;

verus! {

/// Uploads API client for managing multipart file uploads
#[derive(Debug, Clone)]
pub struct UploadsApi {
    client: HttpClient,
}

impl ApiClientConstructors for UploadsApi {
    closed spec fn settings(&self) -> HttpClient {
        self.client
    }

    fn from_http_client(http_client: HttpClient) -> (r: Self) {
        UploadsApi { client: http_client }
    }
}

impl UploadsApi {
    /// The connection settings of this client
    pub fn client(&self) -> (r: &HttpClient)
        ensures
            *r == self.settings(),
    {
        &self.client
    }
}

} // verus!
