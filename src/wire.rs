//! The external chat-completion request, as it arrives on the wire.
//!
//! Floating-point sampling controls are carried as their IEEE-754 bit
//! patterns (`f64::to_bits`, `f32::to_bits`): the gateway only copies them.
use vstd::prelude::*;

verus! {

/// A grammar constraint on the generated text.
#[derive(Debug, PartialEq)]
pub enum Grammar {
    Regex(String),
    Yacc(String),
}

/// The `stop` field: one sequence or a list of them.
#[derive(Debug, PartialEq)]
pub enum StopTokens {
    Multi(Vec<String>),
    Single(String),
}

/// The value of one key of a content part: a string or a string-to-string object.
#[derive(Debug, PartialEq)]
pub enum MessageInnerContent {
    Text(String),
    Fields(Vec<(String, String)>),
}

/// One typed part of a multi-part message, as the key/value pairs of its JSON object.
#[derive(Debug, PartialEq)]
pub struct ContentPart {
    pub fields: Vec<(String, MessageInnerContent)>,
}

/// The content of a message: plain text or a list of typed parts.
#[derive(Debug, PartialEq)]
pub enum MessageContent {
    Text(String),
    Parts(Vec<ContentPart>),
}

/// No two pairs share a key, as in a JSON object.
pub open spec fn keys_unique<V>(f: Seq<(String, V)>) -> bool {
    forall|i: int, j: int| 0 <= i < j < f.len() ==> (#[trigger] f[i]).0@ != (#[trigger] f[j]).0@
}

/// A value of a part is well formed: an object has unique keys.
pub open spec fn inner_well_formed(v: MessageInnerContent) -> bool {
    match v {
        MessageInnerContent::Text(_) => true,
        MessageInnerContent::Fields(m) => keys_unique(m@),
    }
}

impl ContentPart {
    /// The part is a JSON object: unique keys, at every level.
    pub open spec fn well_formed(&self) -> bool {
        &&& keys_unique(self.fields@)
        &&& forall|i: int| 0 <= i < self.fields@.len() ==> inner_well_formed(#[trigger] self.fields@[i].1)
    }
}

/// Every part of the parts is well formed.
pub open spec fn parts_well_formed(ps: Seq<ContentPart>) -> bool {
    forall|i: int| 0 <= i < ps.len() ==> (#[trigger] ps[i]).well_formed()
}

/// Every part of a multi-part message is well formed.
pub open spec fn message_well_formed(m: Message) -> bool {
    m.content matches MessageContent::Parts(ps) ==> parts_well_formed(ps@)
}

/// Every message of the list is well formed.
pub open spec fn messages_well_formed(ms: Seq<Message>) -> bool {
    forall|i: int| 0 <= i < ms.len() ==> message_well_formed(#[trigger] ms[i])
}

/// Every message of the input is well formed.
pub open spec fn input_well_formed(input: ChatInput) -> bool {
    input matches ChatInput::Messages(ms) ==> messages_well_formed(ms@)
}

/// Whether no two pairs share a key.
pub fn keys_are_unique<V>(f: &Vec<(String, V)>) -> (r: bool)
    ensures
        r == keys_unique(f@),
{
    let n = f.len();
    let mut j: usize = 0;
    while j < n
        invariant
            n == f@.len(),
            j <= n,
            forall|a: int, b: int| 0 <= a < b < j ==> (#[trigger] f@[a]).0@ != (#[trigger] f@[b]).0@,
        decreases n - j,
    {
        let mut i: usize = 0;
        while i < j
            invariant
                n == f@.len(),
                i <= j < n,
                forall|a: int, b: int| 0 <= a < b < j ==> (#[trigger] f@[a]).0@ != (#[trigger] f@[b]).0@,
                forall|a: int| 0 <= a < i ==> (#[trigger] f@[a]).0@ != f@[j as int].0@,
            decreases j - i,
        {
            if f[i].0 == f[j].0 {
                assert(f@[i as int].0@ == f@[j as int].0@);
                return false;
            }
            i = i + 1;
        }
        j = j + 1;
    }
    true
}

impl ContentPart {
    /// Whether the part is well formed.
    pub fn is_well_formed(&self) -> (r: bool)
        ensures
            r == self.well_formed(),
    {
        if !keys_are_unique(&self.fields) {
            return false;
        }
        let n = self.fields.len();
        let mut i: usize = 0;
        while i < n
            invariant
                n == self.fields@.len(),
                i <= n,
                forall|a: int| 0 <= a < i ==> inner_well_formed(#[trigger] self.fields@[a].1),
            decreases n - i,
        {
            match &self.fields[i].1 {
                MessageInnerContent::Fields(m) => {
                    if !keys_are_unique(m) {
                        return false;
                    }
                },
                MessageInnerContent::Text(_) => {},
            }
            i = i + 1;
        }
        true
    }
}

/// Whether every part of every multi-part message of the input is well
/// formed, as the translation functions ask.
pub fn input_is_well_formed(input: &ChatInput) -> (r: bool)
    ensures
        r == input_well_formed(*input),
{
    match input {
        ChatInput::Prompt(_) => true,
        ChatInput::Messages(ms) => {
            let n = ms.len();
            let mut i: usize = 0;
            while i < n
                invariant
                    n == ms@.len(),
                    i <= n,
                    *input == ChatInput::Messages(*ms),
                    forall|a: int| 0 <= a < i ==> message_well_formed(#[trigger] ms@[a]),
                decreases n - i,
            {
                match &ms[i].content {
                    MessageContent::Parts(ps) => {
                        let k = ps.len();
                        let mut j: usize = 0;
                        while j < k
                            invariant
                                k == ps@.len(),
                                j <= k,
                                i < n,
                                n == ms@.len(),
                                *input == ChatInput::Messages(*ms),
                                ms@[i as int].content == MessageContent::Parts(*ps),
                                forall|b: int| 0 <= b < j ==> (#[trigger] ps@[b]).well_formed(),
                            decreases k - j,
                        {
                            if !ps[j].is_well_formed() {
                                assert(!parts_well_formed(ps@));
                                assert(!message_well_formed(ms@[i as int]));
                                assert(!messages_well_formed(ms@));
                                return false;
                            }
                            j = j + 1;
                        }
                    },
                    MessageContent::Text(_) => {},
                }
                i = i + 1;
            }
            true
        },
    }
}

#[derive(Debug, PartialEq)]
pub struct Message {
    pub content: MessageContent,
    pub role: String,
    pub name: Option<String>,
}

/// Exactly one of a list of messages or a single prompt.
#[derive(Debug, PartialEq)]
pub enum ChatInput {
    Messages(Vec<Message>),
    Prompt(String),
}

#[derive(Debug, PartialEq)]
pub struct ChatCompletionRequest {
    pub messages: ChatInput,
    pub model: String,
    /// Token id to bias, the bias as `f32` bits.
    pub logit_bias: Option<Vec<(u32, u32)>>,
    pub logprobs: bool,
    pub top_logprobs: Option<usize>,
    pub max_tokens: Option<usize>,
    pub n_choices: usize,
    /// `f32` bits.
    pub presence_penalty: Option<u32>,
    /// `f32` bits.
    pub frequency_penalty: Option<u32>,
    pub stop_seqs: Option<StopTokens>,
    /// `f64` bits.
    pub temperature: Option<u64>,
    /// `f64` bits.
    pub top_p: Option<u64>,
    pub stream: Option<bool>,
    /// Each tool as its JSON text.
    pub tools: Option<Vec<String>>,
    /// The tool choice as its JSON text.
    pub tool_choice: Option<String>,
    pub top_k: Option<usize>,
    pub grammar: Option<Grammar>,
    pub adapters: Option<Vec<String>>,
    /// `f64` bits.
    pub min_p: Option<u64>,
    /// `f32` bits.
    pub dry_multiplier: Option<u32>,
    /// `f32` bits.
    pub dry_base: Option<u32>,
    pub dry_allowed_length: Option<usize>,
    pub dry_sequence_breakers: Option<Vec<String>>,
}

/// The value of `logprobs` when the request leaves it out.
pub fn default_false() -> (r: bool)
    ensures
        r == false,
{
    false
}

/// The value of `n` when the request leaves it out.
pub fn default_1usize() -> (r: usize)
    ensures
        r == 1,
{
    1
}

/// The value of `model` when the request leaves it out.
pub fn default_model() -> (r: String)
    ensures
        r@ == "default"@,
{
    "default".to_string()
}

} // verus!
