//! Videos (Sora) API client

use vstd::prelude::*;
use crate::api::base::HttpClient;
use crate::api::common::ApiClientConstructors;
use crate::models::videos::ListVideosParams;
use crate::text::{decimal, opt_chars, pairs_view, push_opt, u64_to_string};

verus! {

broadcast use vstd::string::group_string_axioms;

/// The query of a video listing: limit, order, after and before, each only when set,
/// in that order
pub open spec fn videos_query(p: ListVideosParams) -> Seq<(Seq<char>, Seq<char>)> {
    let q1 = push_opt(
        Seq::empty(),
        "limit"@,
        match p.limit {
            Some(l) => Some(decimal(l as nat)),
            None => None,
        },
    );
    let q2 = push_opt(q1, "order"@, opt_chars(p.order));
    let q3 = push_opt(q2, "after"@, opt_chars(p.after));
    push_opt(q3, "before"@, opt_chars(p.before))
}

/// Videos (Sora) API client
#[derive(Debug, Clone)]
pub struct VideosApi {
    client: HttpClient,
}

impl ApiClientConstructors for VideosApi {
    closed spec fn settings(&self) -> HttpClient {
        self.client
    }

    fn from_http_client(http_client: HttpClient) -> (r: Self) {
        VideosApi { client: http_client }
    }
}

impl VideosApi {
    /// The connection settings of this client
    pub fn client(&self) -> (r: &HttpClient)
        ensures
            *r == self.settings(),
    {
        &self.client
    }

    /// The query parameters of a video listing
    pub fn list_videos_query(params: &ListVideosParams) -> (r: Vec<(String, String)>)
        ensures
            pairs_view(r@) == videos_query(*params),
    {
        let mut query: Vec<(String, String)> = Vec::new();
        if let Some(l) = params.limit {
            query.push((String::from_str("limit"), u64_to_string(l as u64)));
        }
        if let Some(o) = &params.order {
            query.push((String::from_str("order"), o.clone()));
        }
        if let Some(a) = &params.after {
            query.push((String::from_str("after"), a.clone()));
        }
        if let Some(b) = &params.before {
            query.push((String::from_str("before"), b.clone()));
        }
        proof {
            assert(pairs_view(query@) =~= videos_query(*params));
        }
        query
    }
}

} // verus!
