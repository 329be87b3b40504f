//! The request that is sent to the chat-completions endpoint.

use vstd::prelude::*;
use vstd::string::StringExecFns;

verus! {

/// Where the request is posted.
pub const ENDPOINT: &'static str = "https://api.groq.com/openai/v1/chat/completions";

/// The model that is asked.
pub const MODEL: &'static str = "llama-3.1-70b-versatile";

/// The role under which the prompt is sent.
pub const USER_ROLE: &'static str = "user";

/// The media type of the body.
pub const JSON_CONTENT_TYPE: &'static str = "application/json";

/// The header that carries the credential.
pub const AUTHORIZATION: &'static str = "Authorization";

/// The header that says what the body is.
pub const CONTENT_TYPE: &'static str = "Content-Type";

/// What stands before the credential in the `Authorization` header.
pub const BEARER: &'static str = "Bearer ";

/// One header of the request.
#[derive(Debug)]
pub struct Header {
    pub name: String,
    pub value: String,
}

/// One message of the conversation.
#[derive(Debug)]
pub struct ChatMessage {
    pub role: String,
    pub content: String,
}

/// The body of the request: the fields `n`, `model` and `messages`.
#[derive(Debug)]
pub struct ChatPayload {
    pub n: u64,
    pub model: String,
    pub messages: Vec<ChatMessage>,
}

/// One HTTP POST: the address, the headers in the order in which they are
/// set, and the body.
#[derive(Debug)]
pub struct ChatRequest {
    pub url: String,
    pub headers: Vec<Header>,
    pub payload: ChatPayload,
}

/// Whether `request` is the one request that is sent for a credential and a
/// prompt: to the fixed endpoint, with the credential as bearer token, as
/// JSON, asking the fixed model for one completion of a conversation that
/// holds the prompt as its only message, from the user.
pub open spec fn is_request_for(request: ChatRequest, api_key: Seq<char>, prompt: Seq<char>) -> bool {
    &&& request.url@ == ENDPOINT@
    &&& request.headers@.len() == 2
    &&& request.headers@[0].name@ == AUTHORIZATION@
    &&& request.headers@[0].value@ == BEARER@ + api_key
    &&& request.headers@[1].name@ == CONTENT_TYPE@
    &&& request.headers@[1].value@ == JSON_CONTENT_TYPE@
    &&& request.payload.n == 1
    &&& request.payload.model@ == MODEL@
    &&& request.payload.messages@.len() == 1
    &&& request.payload.messages@[0].role@ == USER_ROLE@
    &&& request.payload.messages@[0].content@ == prompt
}

/// The request for a credential and a prompt.
pub fn build_request(api_key: &str, prompt: String) -> (r: ChatRequest)
    ensures
        is_request_for(r, api_key@, prompt@),
{
    let mut authorization = String::from_str(BEARER);
    authorization.append(api_key);
    let mut headers: Vec<Header> = Vec::new();
    headers.push(Header { name: String::from_str(AUTHORIZATION), value: authorization });
    headers.push(
        Header { name: String::from_str(CONTENT_TYPE), value: String::from_str(JSON_CONTENT_TYPE) },
    );
    let mut messages: Vec<ChatMessage> = Vec::new();
    messages.push(ChatMessage { role: String::from_str(USER_ROLE), content: prompt });
    ChatRequest {
        url: String::from_str(ENDPOINT),
        headers,
        payload: ChatPayload { n: 1, model: String::from_str(MODEL), messages },
    }
}

} // verus!
