//! The high-level client, the conversation builder, and the choices made while
//! running a function-calling conversation.

use vstd::prelude::*;
use crate::api::base::{HttpClient, EMPTY_API_KEY};
use crate::constants::OPENAI_API_BASE_URL;
use crate::error::{OpenAIError, Result};
use crate::models::responses::{Message, MessageContentInput, MessageRole};
use crate::text::{is_blank_seq, trim, trim_seq};

verus! {

broadcast use vstd::string::group_string_axioms;

/// Main client for the `OpenAI` API
#[derive(Debug, Clone)]
pub struct OpenAIClient {
    http_client: HttpClient,
}

/// The message when the API key variable is absent
pub const API_KEY_NOT_SET: &'static str = "OPENAI_API_KEY environment variable not set";

/// The message when the base URL variable is blank
pub const BASE_URL_EMPTY: &'static str = "OPENAI_BASE_URL cannot be empty";

/// The message when the base URL variable is not valid Unicode
pub const BASE_URL_NOT_UNICODE: &'static str = "OPENAI_BASE_URL contains invalid unicode characters";

/// The value of an environment variable, as the process environment reports it
#[derive(Debug, Clone)]
pub enum EnvVar {
    /// The variable is not set
    NotPresent,
    /// The variable is set but is not valid Unicode
    NotUnicode,
    /// The variable's value
    Present(String),
}

impl OpenAIClient {
    /// The connection settings of the client
    pub closed spec fn settings(&self) -> HttpClient {
        self.http_client
    }

    /// Create a client for the default API origin; a blank API key is refused
    pub fn new(api_key: &str) -> (r: Result<Self>)
        ensures
            match r {
                Ok(c) => !is_blank_seq(api_key@) && c.settings().key() == api_key@
                    && c.settings().origin() == OPENAI_API_BASE_URL@,
                Err(e) => is_blank_seq(api_key@) && e is Authentication && e->Authentication_0@
                    == EMPTY_API_KEY@,
            },
    {
        Ok(OpenAIClient { http_client: HttpClient::new(api_key)? })
    }

    /// Create a client for a custom API origin; a blank API key is refused
    pub fn with_base_url(api_key: &str, base_url: &str) -> (r: Result<Self>)
        ensures
            match r {
                Ok(c) => !is_blank_seq(api_key@) && c.settings().key() == api_key@
                    && c.settings().origin() == base_url@,
                Err(e) => is_blank_seq(api_key@) && e is Authentication && e->Authentication_0@
                    == EMPTY_API_KEY@,
            },
    {
        Ok(OpenAIClient { http_client: HttpClient::new_with_base_url(api_key, base_url)? })
    }

    /// The settings the Responses API is reached with
    pub fn responses(&self) -> (r: &HttpClient)
        ensures
            *r == self.settings(),
    {
        &self.http_client
    }

    /// The settings the Responses API (version 2) is reached with
    pub fn responses_v2(&self) -> (r: &HttpClient)
        ensures
            *r == self.settings(),
    {
        &self.http_client
    }

    /// The settings the streaming API is reached with
    pub fn streaming(&self) -> (r: &HttpClient)
        ensures
            *r == self.settings(),
    {
        &self.http_client
    }

    /// The settings the functions API is reached with
    pub fn functions(&self) -> (r: &HttpClient)
        ensures
            *r == self.settings(),
    {
        &self.http_client
    }
}

/// Create a client from the values of `OPENAI_API_KEY` (`None` where it cannot be
/// read) and `OPENAI_BASE_URL`. The key is required; a base URL, where given, is
/// trimmed and must not be blank.
pub fn from_env_values(api_key: Option<&str>, base_url: EnvVar) -> (r: Result<OpenAIClient>)
    ensures
        match r {
            Ok(c) => {
                &&& api_key is Some
                &&& !is_blank_seq(api_key.unwrap()@)
                &&& c.settings().key() == api_key.unwrap()@
                &&& match base_url {
                    EnvVar::NotPresent => c.settings().origin() == OPENAI_API_BASE_URL@,
                    EnvVar::NotUnicode => false,
                    EnvVar::Present(v) => trim_seq(v@).len() > 0 && c.settings().origin()
                        == trim_seq(v@),
                }
            },
            Err(e) => match api_key {
                None => e is Authentication && e->Authentication_0@ == API_KEY_NOT_SET@,
                Some(k) => match base_url {
                    EnvVar::NotPresent => is_blank_seq(k@) && e is Authentication
                        && e->Authentication_0@ == EMPTY_API_KEY@,
                    EnvVar::NotUnicode => e is InvalidRequest && e->InvalidRequest_0@
                        == BASE_URL_NOT_UNICODE@,
                    EnvVar::Present(v) => if trim_seq(v@).len() == 0 {
                        e is InvalidRequest && e->InvalidRequest_0@ == BASE_URL_EMPTY@
                    } else {
                        is_blank_seq(k@) && e is Authentication && e->Authentication_0@
                            == EMPTY_API_KEY@
                    },
                },
            },
        },
{
    let key = match api_key {
        Some(k) => k,
        None => {
            return Err(OpenAIError::authentication(API_KEY_NOT_SET));
        },
    };
    match base_url {
        EnvVar::NotPresent => OpenAIClient::new(key),
        EnvVar::NotUnicode => Err(OpenAIError::invalid_request(BASE_URL_NOT_UNICODE)),
        EnvVar::Present(value) => {
            let trimmed = trim(value.as_str());
            if trimmed.unicode_len() == 0 {
                return Err(OpenAIError::invalid_request(BASE_URL_EMPTY));
            }
            OpenAIClient::with_base_url(key, trimmed.as_str())
        },
    }
}

/// Create a client for a custom origin from the value of `OPENAI_API_KEY` (`None`
/// where it cannot be read)
pub fn from_env_with_base_url_values(api_key: Option<&str>, base_url: &str) -> (r: Result<
    OpenAIClient,
>)
    ensures
        match r {
            Ok(c) => api_key is Some && !is_blank_seq(api_key.unwrap()@) && c.settings().key()
                == api_key.unwrap()@ && c.settings().origin() == base_url@,
            Err(e) => match api_key {
                None => e is Authentication && e->Authentication_0@ == API_KEY_NOT_SET@,
                Some(k) => is_blank_seq(k@) && e is Authentication && e->Authentication_0@
                    == EMPTY_API_KEY@,
            },
        },
{
    match api_key {
        Some(k) => OpenAIClient::with_base_url(k, base_url),
        None => Err(OpenAIError::authentication(API_KEY_NOT_SET)),
    }
}

/// Builder for a conversation: a list of messages in order
#[derive(Debug, Clone)]
pub struct ChatBuilder {
    messages: Vec<Message>,
}

impl Default for ChatBuilder {
    fn default() -> (r: Self)
        ensures
            r@.len() == 0,
    {
        ChatBuilder { messages: Vec::new() }
    }
}

impl View for ChatBuilder {
    type V = Seq<(MessageRole, Seq<char>)>;

    closed spec fn view(&self) -> Seq<(MessageRole, Seq<char>)> {
        self.messages@.map_values(|m: Message| (m.role, m.text()))
    }
}

impl ChatBuilder {
    /// Create an empty conversation
    pub fn new() -> (r: Self)
        ensures
            r@.len() == 0,
    {
        ChatBuilder { messages: Vec::new() }
    }

    /// Add a message with a role
    pub fn message(self, role: MessageRole, content: &str) -> (r: Self)
        ensures
            r@ == self@.push((role, content@)),
    {
        let mut messages = self.messages;
        let ghost before = messages@;
        messages.push(Message { role, content: MessageContentInput::Text(content.to_string()) });
        let r = ChatBuilder { messages };
        assert(r@ =~= before.map_values(|m: Message| (m.role, m.text())).push((role, content@)));
        r
    }

    /// Add a user message
    pub fn user(self, content: &str) -> (r: Self)
        ensures
            r@ == self@.push((MessageRole::User, content@)),
    {
        self.message(MessageRole::User, content)
    }

    /// Add an assistant message
    pub fn assistant(self, content: &str) -> (r: Self)
        ensures
            r@ == self@.push((MessageRole::Assistant, content@)),
    {
        self.message(MessageRole::Assistant, content)
    }

    /// Add a developer message
    pub fn developer(self, content: &str) -> (r: Self)
        ensures
            r@ == self@.push((MessageRole::Developer, content@)),
    {
        self.message(MessageRole::Developer, content)
    }

    /// Add several messages, in order
    pub fn messages(self, messages: Vec<Message>) -> (r: Self)
        ensures
            r@ == self@ + messages@.map_values(|m: Message| (m.role, m.text())),
    {
        let mut all = self.messages;
        let mut rest = messages;
        let ghost start = all@;
        let ghost added = rest@;
        all.append(&mut rest);
        let r = ChatBuilder { messages: all };
        assert(r@ =~= start.map_values(|m: Message| (m.role, m.text())) + added.map_values(
            |m: Message| (m.role, m.text()),
        ));
        r
    }

    /// The messages of the conversation, in order
    pub fn build(self) -> (r: Vec<Message>)
        ensures
            r@.map_values(|m: Message| (m.role, m.text())) == self@,
    {
        self.messages
    }

    /// The number of messages
    pub fn len(&self) -> (r: usize)
        ensures
            r == self@.len(),
    {
        self.messages.len()
    }

    /// Whether the conversation has no message
    pub fn is_empty(&self) -> (r: bool)
        ensures
            r == (self@.len() == 0),
    {
        self.messages.len() == 0
    }
}

/// How many rounds a function-calling conversation runs by default
pub const DEFAULT_MAX_ITERATIONS: u32 = 10;

/// The state of a function-calling conversation: the messages so far, the results
/// received, and how many rounds have run out of how many allowed
#[derive(Debug)]
pub struct ConversationState<R> {
    /// The messages of the conversation so far
    pub current_messages: Vec<Message>,
    /// The results received, in order
    pub results: Vec<R>,
    /// Rounds run so far
    pub iteration_count: u32,
    /// Rounds allowed
    pub max_iterations: u32,
}

impl<R> ConversationState<R> {
    /// Start a conversation; it may run `max_iterations` rounds, ten by default
    pub fn new(messages: Vec<Message>, max_iterations: Option<u32>) -> (r: Self)
        ensures
            r.current_messages@ == messages@,
            r.results@.len() == 0,
            r.iteration_count == 0,
            r.max_iterations == match max_iterations {
                Some(m) => m,
                None => DEFAULT_MAX_ITERATIONS,
            },
    {
        ConversationState {
            current_messages: messages,
            results: Vec::new(),
            iteration_count: 0,
            max_iterations: match max_iterations {
                Some(m) => m,
                None => DEFAULT_MAX_ITERATIONS,
            },
        }
    }

    /// Whether another round may run
    pub fn should_continue(&self) -> (r: bool)
        ensures
            r == (self.iteration_count < self.max_iterations),
    {
        self.iteration_count < self.max_iterations
    }

    /// Count a round
    pub fn increment_iteration(&mut self)
        requires
            old(self).iteration_count < u32::MAX,
        ensures
            final(self).iteration_count == old(self).iteration_count + 1,
            final(self).max_iterations == old(self).max_iterations,
            final(self).current_messages@ == old(self).current_messages@,
            final(self).results@ == old(self).results@,
    {
        self.iteration_count = self.iteration_count + 1;
    }

    /// Record a result
    pub fn add_result(&mut self, result: R)
        ensures
            final(self).results@ == old(self).results@.push(result),
            final(self).iteration_count == old(self).iteration_count,
            final(self).max_iterations == old(self).max_iterations,
            final(self).current_messages@ == old(self).current_messages@,
    {
        self.results.push(result);
    }

    /// Record the response of a round: the result is kept and the round counted. The
    /// conversation goes on to run the requested functions only when the response
    /// asked for some; the return value says whether it does.
    pub fn record_response(&mut self, result: R, has_function_calls: bool) -> (r: bool)
        requires
            old(self).iteration_count < old(self).max_iterations,
        ensures
            final(self).results@ == old(self).results@.push(result),
            final(self).iteration_count == old(self).iteration_count + 1,
            final(self).max_iterations == old(self).max_iterations,
            final(self).current_messages@ == old(self).current_messages@,
            r == has_function_calls,
    {
        self.add_result(result);
        self.increment_iteration();
        has_function_calls
    }

    /// Record the response to the functions' results: it is kept, its text (if any)
    /// joins the conversation as an assistant message, and the conversation goes on
    /// only when the response asks for more function calls
    pub fn record_continuation(
        &mut self,
        continuation: R,
        content: Option<&str>,
        has_function_calls: bool,
    ) -> (r: bool)
        ensures
            final(self).results@ == old(self).results@.push(continuation),
            final(self).iteration_count == old(self).iteration_count,
            final(self).max_iterations == old(self).max_iterations,
            match content {
                Some(c) => final(self).current_messages@.len() == old(
                    self,
                ).current_messages@.len() + 1 && final(self).current_messages@.drop_last()
                    == old(self).current_messages@ && final(self).current_messages@.last().role
                    == MessageRole::Assistant && final(self).current_messages@.last().text()
                    == c@,
                None => final(self).current_messages@ == old(self).current_messages@,
            },
            r == has_function_calls,
    {
        self.add_result(continuation);
        if let Some(c) = content {
            self.current_messages.push(Message::assistant(c));
        }
        has_function_calls
    }
}

} // verus!
