//! What the engine sends back on a request's channel, and the two ways the
//! gateway consumes it: a stream of events, or one terminal response.
use vstd::prelude::*;

verus! {

/// The incremental part of one streamed choice.
#[derive(Debug, PartialEq)]
pub struct Delta {
    pub role: String,
    pub content: String,
}

/// One choice of a streamed chunk.
#[derive(Debug, PartialEq)]
pub struct ChunkChoice {
    pub index: usize,
    pub delta: Delta,
    pub finish_reason: Option<String>,
}

/// One incremental unit of a streamed completion.
#[derive(Debug, PartialEq)]
pub struct ChatCompletionChunkResponse {
    pub id: String,
    pub choices: Vec<ChunkChoice>,
    pub created: u64,
    pub model: String,
    pub object: String,
}

/// The message of a completed choice.
#[derive(Debug, PartialEq)]
pub struct ResponseMessage {
    pub role: String,
    pub content: Option<String>,
}

/// One completed choice.
#[derive(Debug, PartialEq)]
pub struct Choice {
    pub index: usize,
    pub message: ResponseMessage,
    pub finish_reason: String,
}

/// Token counts of a completion.
#[derive(Debug, PartialEq)]
pub struct Usage {
    pub completion_tokens: usize,
    pub prompt_tokens: usize,
    pub total_tokens: usize,
}

/// A whole completion.
#[derive(Debug, PartialEq)]
pub struct ChatCompletionResponse {
    pub id: String,
    pub choices: Vec<Choice>,
    pub created: u64,
    pub model: String,
    pub object: String,
    pub usage: Usage,
}

/// What the engine sends on a request's channel. A streamed request gets
/// chunks, the last of them with every choice finished, or an error; any
/// other request gets exactly one terminal value, never a chunk.
#[derive(Debug, PartialEq)]
pub enum Response {
    Chunk(ChatCompletionChunkResponse),
    Done(ChatCompletionResponse),
    ModelError(String, ChatCompletionResponse),
    ValidationError(String),
    InternalError(String),
}

/// Every choice of the chunk carries a finish reason.
pub open spec fn all_finished(c: ChatCompletionChunkResponse) -> bool {
    forall|i: int| 0 <= i < c.choices@.len() ==> (#[trigger] c.choices@[i]).finish_reason is Some
}

/// Whether every choice of the chunk carries a finish reason.
pub fn chunk_finished(c: &ChatCompletionChunkResponse) -> (r: bool)
    ensures
        r == all_finished(*c),
{
    let n = c.choices.len();
    let mut i: usize = 0;
    while i < n
        invariant
            n == c.choices@.len(),
            0 <= i <= n,
            forall|j: int| 0 <= j < i ==> (#[trigger] c.choices@[j]).finish_reason is Some,
        decreases n - i,
    {
        if c.choices[i].finish_reason.is_none() {
            return false;
        }
        i = i + 1;
    }
    true
}

/// One event of a response stream.
#[derive(Debug, PartialEq)]
pub enum StreamEvent {
    /// A chunk, sent as its JSON.
    Chunk(ChatCompletionChunkResponse),
    /// An error, sent as its message.
    Error(String),
}

/// The outcome of one poll of a response stream.
#[derive(Debug, PartialEq)]
pub enum StreamPoll {
    /// Nothing arrived: poll again later.
    Pending,
    /// One event to send.
    Event(StreamEvent),
    /// The stream is over.
    End,
}

/// `r` and `done` are what a stream that is open yields and becomes on
/// receiving `received` (nothing, where the channel had no value ready).
pub open spec fn open_step(received: Option<Response>, r: StreamPoll, done: bool) -> bool {
    match received {
        None => r is Pending && !done,
        Some(Response::Chunk(c)) => r == StreamPoll::Event(StreamEvent::Chunk(c)) && done == all_finished(c),
        Some(Response::ModelError(m, _)) => r == StreamPoll::Event(StreamEvent::Error(m)) && done,
        Some(Response::ValidationError(m)) => r == StreamPoll::Event(StreamEvent::Error(m)) && done,
        Some(Response::InternalError(m)) => r == StreamPoll::Event(StreamEvent::Error(m)) && done,
        Some(Response::Done(_)) => false,
    }
}

/// The state of one streamed response: open, or done for good.
#[derive(Debug, PartialEq)]
pub struct Streamer {
    is_done: bool,
}

impl Streamer {
    pub closed spec fn done(&self) -> bool {
        self.is_done
    }

    /// An open stream.
    pub fn new() -> (s: Streamer)
        ensures
            !s.done(),
    {
        Streamer { is_done: false }
    }

    /// Whether the stream is over; then the channel is not to be read again.
    pub fn is_done(&self) -> (r: bool)
        ensures
            r == self.done(),
    {
        self.is_done
    }

    /// One poll. `received` is what a non-blocking read of the channel gave,
    /// and is `None` where the stream is over, for then the channel is not read.
    pub fn poll_next(&mut self, received: Option<Response>) -> (r: StreamPoll)
        requires
            old(self).done() ==> received is None,
            !(received matches Some(Response::Done(_))),
        ensures
            old(self).done() ==> r is End && final(self).done(),
            !old(self).done() ==> open_step(received, r, final(self).done()),
    {
        if self.is_done {
            return StreamPoll::End;
        }
        match received {
            None => StreamPoll::Pending,
            Some(Response::Chunk(c)) => {
                if chunk_finished(&c) {
                    self.is_done = true;
                }
                StreamPoll::Event(StreamEvent::Chunk(c))
            },
            Some(Response::ModelError(m, _)) => {
                self.is_done = true;
                StreamPoll::Event(StreamEvent::Error(m))
            },
            Some(Response::ValidationError(m)) => {
                self.is_done = true;
                StreamPoll::Event(StreamEvent::Error(m))
            },
            Some(Response::InternalError(m)) => {
                self.is_done = true;
                StreamPoll::Event(StreamEvent::Error(m))
            },
            Some(Response::Done(_)) => {
                // ruled out by the precondition: a streamed request gets no `Done`
                assert(false);
                StreamPoll::End
            },
        }
    }
}

} // verus!
