//! The engine-facing request: normalized messages, images and sampling parameters.
use vstd::prelude::*;
use image::DynamicImage;

verus! {

/// One segment of a structured message content.
#[derive(Debug, PartialEq)]
pub enum Segment {
    Image,
    Text(String),
}

/// The content of a normalized message.
#[derive(Debug, PartialEq)]
pub enum InternalContent {
    Text(String),
    Segments(Vec<Segment>),
}

/// A normalized message: role and content.
#[derive(Debug, PartialEq)]
pub struct InternalMessage {
    pub role: String,
    pub content: InternalContent,
}

/// The messages of a request; a vision request carries the decoded images,
/// one for each image message, in message order.
#[derive(Debug, PartialEq)]
pub enum RequestMessage {
    Chat(Vec<InternalMessage>),
    VisionChat { messages: Vec<InternalMessage>, images: Vec<DynamicImage> },
}

/// A grammar constraint on the generated text.
#[derive(Debug, PartialEq)]
pub enum Constraint {
    Regex(String),
    Yacc(String),
    Unconstrained,
}

/// The "dry" repetition-penalty settings of a request, present only when a
/// multiplier was given. Floating values are `f32` bits.
#[derive(Debug, PartialEq)]
pub struct DryParams {
    pub multiplier: u32,
    pub sequence_breakers: Option<Vec<String>>,
    pub base: Option<u32>,
    pub allowed_length: Option<usize>,
}

/// Sampling parameters of a request. Floating values are carried as bits,
/// as on the wire.
#[derive(Debug, PartialEq)]
pub struct SamplingParams {
    pub temperature: Option<u64>,
    pub top_k: Option<usize>,
    pub top_p: Option<u64>,
    pub min_p: Option<u64>,
    pub top_n_logprobs: usize,
    pub frequency_penalty: Option<u32>,
    pub presence_penalty: Option<u32>,
    pub max_len: Option<usize>,
    pub stop_toks: Option<Vec<String>>,
    pub logits_bias: Option<Vec<(u32, u32)>>,
    pub n_choices: usize,
    pub dry_params: Option<DryParams>,
}

/// A request as handed to the engine; the response channel travels beside it.
#[derive(Debug, PartialEq)]
pub struct InternalRequest {
    pub id: usize,
    pub messages: RequestMessage,
    pub sampling_params: SamplingParams,
    pub return_logprobs: bool,
    pub is_streaming: bool,
    pub constraint: Constraint,
    pub adapters: Option<Vec<String>>,
    pub tool_choice: Option<String>,
    pub tools: Option<Vec<String>>,
}

} // verus!
