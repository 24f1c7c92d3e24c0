//! The decisions of one chat-completion call, from translation to the reply,
//! and the mapping of every outcome to an HTTP status and a body.
use vstd::prelude::*;
use crate::content::ResolveError;
use crate::response::{ChatCompletionResponse, Response, Streamer};
use crate::translate::{translate_error_text, TranslateError};

verus! {

pub const STATUS_OK: u16 = 200;

pub const STATUS_UNPROCESSABLE: u16 = 422;

pub const STATUS_INTERNAL: u16 = 500;

/// The outcome of a chat-completion call.
#[derive(Debug, PartialEq)]
pub enum ChatCompletionResponder {
    /// A stream of events, in this state.
    Sse(Streamer),
    Json(ChatCompletionResponse),
    ModelError(String, ChatCompletionResponse),
    InternalError(String),
    ValidationError(String),
}

/// Whether a translation error is a fault of the input, as opposed to a
/// resource that could not be fetched or decoded.
pub open spec fn is_input_fault(e: TranslateError) -> bool {
    match e {
        TranslateError::ImageResource { cause, .. } => cause is UnsupportedScheme,
        _ => true,
    }
}

/// The outcome of a call whose request could not be translated: a fault of
/// the input is a validation error, a failed resource an internal one.
pub fn translation_failed(e: &TranslateError) -> (r: ChatCompletionResponder)
    ensures
        is_input_fault(*e) ==> (r matches ChatCompletionResponder::ValidationError(m)
            && m@ == translate_error_text(*e)),
        !is_input_fault(*e) ==> (r matches ChatCompletionResponder::InternalError(m)
            && m@ == translate_error_text(*e)),
{
    let m = e.message();
    match e {
        TranslateError::ImageResource { cause: ResolveError::UnsupportedScheme(_), .. } => {
            ChatCompletionResponder::ValidationError(m)
        },
        TranslateError::ImageResource { .. } => ChatCompletionResponder::InternalError(m),
        _ => ChatCompletionResponder::ValidationError(m),
    }
}

/// What follows the hand-over of a request to the engine.
#[derive(Debug, PartialEq)]
pub enum DispatchStep {
    /// Reply now with this.
    Respond(ChatCompletionResponder),
    /// Wait for the one terminal response on the request's channel.
    AwaitResponse,
}

/// The step after handing a request to the engine; `send_error` is the
/// reason the hand-over failed, if it did. A failed hand-over is final: no
/// value will ever arrive on the channel.
pub fn after_dispatch(is_streaming: bool, send_error: Option<String>) -> (r: DispatchStep)
    ensures
        send_error matches Some(e) ==> r == DispatchStep::Respond(ChatCompletionResponder::InternalError(e)),
        send_error is None && is_streaming ==> (r matches DispatchStep::Respond(
            ChatCompletionResponder::Sse(s),
        ) && !s.done()),
        send_error is None && !is_streaming ==> r is AwaitResponse,
{
    match send_error {
        Some(e) => DispatchStep::Respond(ChatCompletionResponder::InternalError(e)),
        None => {
            if is_streaming {
                DispatchStep::Respond(ChatCompletionResponder::Sse(Streamer::new()))
            } else {
                DispatchStep::AwaitResponse
            }
        },
    }
}

/// The outcome of a call that is not streamed, from the one value received on
/// its channel, or `None` where the channel closed without one.
pub fn resolve_response(received: Option<Response>) -> (r: ChatCompletionResponder)
    requires
        !(received matches Some(Response::Chunk(_))),
    ensures
        match received {
            None => r matches ChatCompletionResponder::InternalError(m)
                && m@ == "No response received from the model."@,
            Some(Response::Done(c)) => r == ChatCompletionResponder::Json(c),
            Some(Response::ModelError(m, c)) => r == ChatCompletionResponder::ModelError(m, c),
            Some(Response::ValidationError(m)) => r == ChatCompletionResponder::ValidationError(m),
            Some(Response::InternalError(m)) => r == ChatCompletionResponder::InternalError(m),
            Some(Response::Chunk(_)) => false,
        },
{
    match received {
        None => ChatCompletionResponder::InternalError("No response received from the model.".to_string()),
        Some(Response::Done(c)) => ChatCompletionResponder::Json(c),
        Some(Response::ModelError(m, c)) => ChatCompletionResponder::ModelError(m, c),
        Some(Response::ValidationError(m)) => ChatCompletionResponder::ValidationError(m),
        Some(Response::InternalError(m)) => ChatCompletionResponder::InternalError(m),
        Some(Response::Chunk(_)) => {
            // ruled out by the precondition: only a streamed request gets chunks
            assert(false);
            ChatCompletionResponder::InternalError("No response received from the model.".to_string())
        },
    }
}

/// The body of an error reply.
#[derive(Debug, PartialEq)]
pub struct JsonError {
    pub message: String,
}

impl JsonError {
    pub fn new(message: String) -> (r: JsonError)
        ensures
            r.message == message,
    {
        JsonError { message }
    }
}

/// The body of a model-error reply: the message and what was generated.
#[derive(Debug, PartialEq)]
pub struct JsonModelError {
    pub message: String,
    pub partial_response: ChatCompletionResponse,
}

impl JsonModelError {
    pub fn new(message: String, partial_response: ChatCompletionResponse) -> (r: JsonModelError)
        ensures
            r.message == message,
            r.partial_response == partial_response,
    {
        JsonModelError { message, partial_response }
    }
}

/// The JSON body of a reply.
#[derive(Debug, PartialEq)]
pub enum ReplyBody {
    Completion(ChatCompletionResponse),
    Error(JsonError),
    ModelError(JsonModelError),
}

/// A reply: an event stream, or a status with a JSON body.
#[derive(Debug, PartialEq)]
pub enum Reply {
    Stream(Streamer),
    Json { status: u16, body: ReplyBody },
}

/// The status of each outcome.
pub open spec fn status_of(r: ChatCompletionResponder) -> u16 {
    match r {
        ChatCompletionResponder::Sse(_) => STATUS_OK,
        ChatCompletionResponder::Json(_) => STATUS_OK,
        ChatCompletionResponder::ModelError(..) => STATUS_INTERNAL,
        ChatCompletionResponder::InternalError(_) => STATUS_INTERNAL,
        ChatCompletionResponder::ValidationError(_) => STATUS_UNPROCESSABLE,
    }
}

impl ChatCompletionResponder {
    /// The reply for this outcome: its status, and the body that carries the
    /// completion, the error message, or the message with the partial completion.
    pub fn into_response(self) -> (r: Reply)
        ensures
            match self {
                ChatCompletionResponder::Sse(s) => r == Reply::Stream(s),
                ChatCompletionResponder::Json(c) => r == (Reply::Json {
                    status: STATUS_OK,
                    body: ReplyBody::Completion(c),
                }),
                ChatCompletionResponder::ModelError(m, c) => r == (Reply::Json {
                    status: STATUS_INTERNAL,
                    body: ReplyBody::ModelError(JsonModelError { message: m, partial_response: c }),
                }),
                ChatCompletionResponder::InternalError(m) => r == (Reply::Json {
                    status: STATUS_INTERNAL,
                    body: ReplyBody::Error(JsonError { message: m }),
                }),
                ChatCompletionResponder::ValidationError(m) => r == (Reply::Json {
                    status: STATUS_UNPROCESSABLE,
                    body: ReplyBody::Error(JsonError { message: m }),
                }),
            },
            r matches Reply::Json { status, .. } ==> status == status_of(self),
    {
        match self {
            ChatCompletionResponder::Sse(s) => Reply::Stream(s),
            ChatCompletionResponder::Json(c) => Reply::Json { status: STATUS_OK, body: ReplyBody::Completion(c) },
            ChatCompletionResponder::ModelError(m, c) => Reply::Json {
                status: STATUS_INTERNAL,
                body: ReplyBody::ModelError(JsonModelError::new(m, c)),
            },
            ChatCompletionResponder::InternalError(m) => Reply::Json {
                status: STATUS_INTERNAL,
                body: ReplyBody::Error(JsonError::new(m)),
            },
            ChatCompletionResponder::ValidationError(m) => Reply::Json {
                status: STATUS_UNPROCESSABLE,
                body: ReplyBody::Error(JsonError::new(m)),
            },
        }
    }
}

} // verus!
