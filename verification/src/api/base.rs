//! Connection settings of an API client and the headers of its requests

use vstd::prelude::*;
use crate::constants::{headers, sdk, CONTENT_TYPE_JSON, OPENAI_API_BASE_URL, OPENAI_BETA_ASSISTANTS};
use crate::constants::error_messages::INVALID_API_KEY;
use crate::error::{OpenAIError, Result};
use crate::text::{is_blank, is_blank_seq, str_eq};

verus! {

broadcast use vstd::string::group_string_axioms;

/// The message of the error for a blank API key
pub const EMPTY_API_KEY: &'static str = "API key cannot be empty";

/// Connection settings of an API client: the key it sends and the origin it
/// sends requests to
#[derive(Debug, Clone)]
pub struct HttpClient {
    api_key: String,
    base_url: String,
}

/// Whether `c` may stand in an HTTP header value
pub open spec fn header_value_char(c: char) -> bool {
    c == '\t' || (' ' <= c && c != '\x7f')
}

/// Whether every character of `s` may stand in an HTTP header value
pub open spec fn valid_header_value(s: Seq<char>) -> bool {
    forall|i: int| 0 <= i < s.len() ==> header_value_char(#[trigger] s[i])
}

/// Whether `c` is a character of an HTTP header value
fn is_header_value_char(c: char) -> (r: bool)
    ensures
        r == header_value_char(c),
{
    c == '\t' || (' ' <= c && c != '\x7f')
}

/// Whether every character of `s` may stand in an HTTP header value
fn is_valid_header_value(s: &str) -> (r: bool)
    ensures
        r == valid_header_value(s@),
{
    let mut i: usize = 0;
    let n = s.unicode_len();
    while i < n
        invariant
            i <= n,
            n == s@.len(),
            forall|j: int| 0 <= j < i ==> header_value_char(#[trigger] s@[j]),
        decreases n - i,
    {
        if !is_header_value_char(s.get_char(i)) {
            return false;
        }
        i += 1;
    }
    true
}

/// Request headers, in the order in which they were added
#[derive(Debug, Clone)]
pub struct Headers {
    /// The (name, value) pairs
    pub entries: Vec<(String, String)>,
}

/// The headers of a request with the given API key
pub open spec fn standard_headers(api_key: Seq<char>) -> Seq<(Seq<char>, Seq<char>)> {
    seq![
        (headers::AUTHORIZATION@, "Bearer "@ + api_key),
        (headers::CONTENT_TYPE@, CONTENT_TYPE_JSON@),
        (headers::USER_AGENT@, sdk::USER_AGENT@),
    ]
}

impl Headers {
    /// The headers as (name, value) pairs of character sequences
    pub open spec fn pairs(&self) -> Seq<(Seq<char>, Seq<char>)> {
        self.entries@.map_values(|p: (String, String)| (p.0@, p.1@))
    }

    /// Whether a header of this name is present
    pub fn contains_key(&self, name: &str) -> (r: bool)
        ensures
            r == exists|i: int| 0 <= i < self.pairs().len() && (#[trigger] self.pairs()[i]).0 == name@,
    {
        let mut i: usize = 0;
        while i < self.entries.len()
            invariant
                i <= self.entries@.len(),
                forall|j: int| 0 <= j < i ==> (#[trigger] self.pairs()[j]).0 != name@,
            decreases self.entries.len() - i,
        {
            if str_eq(self.entries[i].0.as_str(), name) {
                assert(self.pairs()[i as int].0 == name@);
                return true;
            }
            i += 1;
        }
        false
    }

    /// The value of the first header of this name
    pub fn get(&self, name: &str) -> (r: Option<&str>)
        ensures
            match r {
                Some(v) => exists|i: int|
                    0 <= i < self.pairs().len() && (#[trigger] self.pairs()[i]) == (name@, v@) && forall|j: int|
                        0 <= j < i ==> self.pairs()[j].0 != name@,
                None => forall|i: int| 0 <= i < self.pairs().len() ==> (#[trigger] self.pairs()[i]).0 != name@,
            },
    {
        let mut i: usize = 0;
        while i < self.entries.len()
            invariant
                i <= self.entries@.len(),
                forall|j: int| 0 <= j < i ==> (#[trigger] self.pairs()[j]).0 != name@,
            decreases self.entries.len() - i,
        {
            if str_eq(self.entries[i].0.as_str(), name) {
                assert(self.pairs()[i as int] == (name@, self.entries@[i as int].1@));
                return Some(self.entries[i].1.as_str());
            }
            i += 1;
        }
        None
    }
}

/// A header pair from two string slices
fn header(name: &str, value: &str) -> (r: (String, String))
    ensures
        r.0@ == name@,
        r.1@ == value@,
{
    (String::from_str(name), String::from_str(value))
}

impl HttpClient {
    /// The API key sent with each request
    pub closed spec fn key(&self) -> Seq<char> {
        self.api_key@
    }

    /// The origin requests are sent to
    pub closed spec fn origin(&self) -> Seq<char> {
        self.base_url@
    }

    /// Create a client for the default API origin; a blank API key is refused
    pub fn new(api_key: &str) -> (r: Result<Self>)
        ensures
            match r {
                Ok(c) => !is_blank_seq(api_key@) && c.key() == api_key@ && c.origin()
                    == OPENAI_API_BASE_URL@,
                Err(e) => is_blank_seq(api_key@) && e is Authentication && e->Authentication_0@
                    == EMPTY_API_KEY@,
            },
    {
        Self::new_with_base_url(api_key, OPENAI_API_BASE_URL)
    }

    /// Create a client for the given API origin; a blank API key is refused
    pub fn new_with_base_url(api_key: &str, base_url: &str) -> (r: Result<Self>)
        ensures
            match r {
                Ok(c) => !is_blank_seq(api_key@) && c.key() == api_key@ && c.origin()
                    == base_url@,
                Err(e) => is_blank_seq(api_key@) && e is Authentication && e->Authentication_0@
                    == EMPTY_API_KEY@,
            },
    {
        if is_blank(api_key) {
            return Err(OpenAIError::authentication(EMPTY_API_KEY));
        }
        Ok(HttpClient { api_key: String::from_str(api_key), base_url: String::from_str(base_url) })
    }

    /// The API key
    pub fn api_key(&self) -> (r: &str)
        ensures
            r@ == self.key(),
    {
        self.api_key.as_str()
    }

    /// The base URL
    pub fn base_url(&self) -> (r: &str)
        ensures
            r@ == self.origin(),
    {
        self.base_url.as_str()
    }

    /// The full URL of an API path
    pub fn url(&self, path: &str) -> (r: String)
        ensures
            r@ == self.origin() + path@,
    {
        let mut r = self.base_url.clone();
        r.append(path);
        r
    }

    /// The headers of a request: authorization, content type and user agent. An API
    /// key that cannot stand in a header is refused.
    pub fn build_headers(&self) -> (r: Result<Headers>)
        ensures
            match r {
                Ok(h) => valid_header_value(self.key()) && h.pairs() == standard_headers(
                    self.key(),
                ),
                Err(e) => !valid_header_value(self.key()) && e is InvalidRequest
                    && e->InvalidRequest_0@ == INVALID_API_KEY@,
            },
    {
        if !is_valid_header_value(self.api_key.as_str()) {
            return Err(OpenAIError::invalid_request(INVALID_API_KEY));
        }
        let mut bearer = String::from_str("Bearer ");
        bearer.append(self.api_key.as_str());
        let mut entries: Vec<(String, String)> = Vec::new();
        entries.push((String::from_str(headers::AUTHORIZATION), bearer));
        entries.push(header(headers::CONTENT_TYPE, CONTENT_TYPE_JSON));
        entries.push(header(headers::USER_AGENT, sdk::USER_AGENT));
        let h = Headers { entries };
        assert(h.pairs() =~= standard_headers(self.key()));
        Ok(h)
    }

    /// The headers of a request to a beta API: the standard headers and the beta header
    pub fn build_headers_with_beta(&self) -> (r: Result<Headers>)
        ensures
            match r {
                Ok(h) => valid_header_value(self.key()) && h.pairs() == standard_headers(
                    self.key(),
                ).push((headers::OPENAI_BETA@, OPENAI_BETA_ASSISTANTS@)),
                Err(e) => !valid_header_value(self.key()) && e is InvalidRequest
                    && e->InvalidRequest_0@ == INVALID_API_KEY@,
            },
    {
        let mut h = self.build_headers()?;
        let ghost before = h.pairs();
        h.entries.push(header(headers::OPENAI_BETA, OPENAI_BETA_ASSISTANTS));
        assert(h.pairs() =~= before.push((headers::OPENAI_BETA@, OPENAI_BETA_ASSISTANTS@)));
        Ok(h)
    }
}

} // verus!
