//! The model-query collaborator's decision layer: the request URL and the
//! classification of transport failures. The HTTP exchange itself happens
//! outside the library and reports back plain values.

use vstd::prelude::*;

use crate::text::{dec_rep, push_u64_dec};

verus! {

/// A classified model-query failure.
pub enum LlmError {
    /// The endpoint answered 401: the credential was refused.
    AuthFailed,
    /// The endpoint answered 404.
    EndpointNotFound,
    /// The connection could not be established at all.
    ConnectionRefused,
    /// Any other non-success status code.
    HttpStatus(u16),
    /// A transport-level failure, carrying its description.
    Transport(String),
}

/// The chat-completions endpoint under the configured API address.
pub fn completions_url(api_addr: &str) -> (r: String)
    ensures
        r@ == api_addr@ + "/chat/completions"@,
{
    let mut s = String::from_str(api_addr);
    s.append("/chat/completions");
    s
}

/// Classify an HTTP status code: `None` for success (the 2xx range),
/// otherwise the error owed for it.
pub fn classify_http_status(code: u16) -> (r: Option<LlmError>)
    ensures
        match r {
            None => 200 <= code < 300,
            Some(e) => !(200 <= code < 300) && match e {
                LlmError::AuthFailed => code == 401,
                LlmError::EndpointNotFound => code == 404,
                LlmError::HttpStatus(c) => c == code && code != 401 && code != 404,
                _ => false,
            },
        },
{
    if 200 <= code && code < 300 {
        None
    } else if code == 401 {
        Some(LlmError::AuthFailed)
    } else if code == 404 {
        Some(LlmError::EndpointNotFound)
    } else {
        Some(LlmError::HttpStatus(code))
    }
}

/// Classify a failure of the request itself: a refused connection gets its
/// own variant, anything else carries the transport's description.
pub fn classify_send_failure(is_connect: bool, detail: String) -> (r: LlmError)
    ensures
        if is_connect {
            r == LlmError::ConnectionRefused
        } else {
            r == LlmError::Transport(detail)
        },
{
    if is_connect {
        LlmError::ConnectionRefused
    } else {
        LlmError::Transport(detail)
    }
}

/// The user-visible text of a model-query failure.
pub open spec fn error_text(e: LlmError) -> Seq<char> {
    match e {
        LlmError::AuthFailed => "Invalid API key or authentication failed"@,
        LlmError::EndpointNotFound => "API endpoint not found"@,
        LlmError::ConnectionRefused => "Failed to connect to the LLM server"@,
        LlmError::HttpStatus(c) => "API request failed with status code: "@ + dec_rep(
            c as nat,
        ),
        LlmError::Transport(d) => d@,
    }
}

/// Render a model-query failure for the user.
pub fn error_message(e: &LlmError) -> (r: String)
    ensures
        r@ == error_text(*e),
{
    match e {
        LlmError::AuthFailed => String::from_str("Invalid API key or authentication failed"),
        LlmError::EndpointNotFound => String::from_str("API endpoint not found"),
        LlmError::ConnectionRefused => String::from_str("Failed to connect to the LLM server"),
        LlmError::HttpStatus(c) => {
            let mut s = String::from_str("API request failed with status code: ");
            push_u64_dec(&mut s, *c as u64);
            s
        },
        LlmError::Transport(d) => d.clone(),
    }
}

} // verus!
