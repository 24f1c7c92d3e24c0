//! Translation of a wire request into the engine's request: message
//! normalization (plain and text-plus-image messages), stop sequences and the
//! sampling parameters.
use vstd::prelude::*;
use crate::content::{resolve_error_text, ResolveError};
use crate::request::{
    Constraint, DryParams, InternalContent, InternalMessage, InternalRequest, RequestMessage,
    SamplingParams, Segment,
};
use crate::wire::{
    input_well_formed, message_well_formed, messages_well_formed, parts_well_formed,
    ChatCompletionRequest, ChatInput, ContentPart, Grammar, Message, MessageContent,
    MessageInnerContent, StopTokens,
};
use image::DynamicImage;

verus! {

/// Why a wire request cannot be translated.
#[derive(Debug, PartialEq)]
pub enum TranslateError {
    /// A multi-part message does not have exactly two parts.
    PartCount,
    /// A multi-part message whose role is not `user`.
    ImageRole(String),
    /// A part does not have exactly two keys.
    PartFieldCount,
    /// A part has no `type` key.
    MissingType,
    /// A part's `type` is not a string.
    TypeNotString,
    /// The text part's `text` is missing or not a string.
    TextNotString,
    /// The parts are not one text part and one `image_url` part with a `url`.
    PartSchema,
    /// An image reference could not be resolved into an image.
    ImageResource { reference: String, cause: ResolveError },
}

/// The text of a translation error.
pub open spec fn translate_error_text(e: TranslateError) -> Seq<char> {
    match e {
        TranslateError::PartCount => "Expected 2 items for the content of a message with an image."@,
        TranslateError::ImageRole(r) => "Role for an image message must be `user`, but it is "@ + r@,
        TranslateError::PartFieldCount => "Expected 2 items for the sub-content of a message with an image."@,
        TranslateError::MissingType => "Expected `type` key in input message."@,
        TranslateError::TypeNotString => "Expected string value in `type`."@,
        TranslateError::TextNotString => "Expected string value in `text`."@,
        TranslateError::PartSchema => "Expected content of format {`type`: `text`, `text`: ...} and {`type`: `image_url`, `image_url`: {`url`: ...}}"@,
        TranslateError::ImageResource { reference, cause } => "Failed to parse image resource: "@
            + reference@ + ": "@ + resolve_error_text(cause),
    }
}

impl TranslateError {
    /// The error's text.
    pub fn message(&self) -> (r: String)
        ensures
            r@ == translate_error_text(*self),
    {
        match self {
            TranslateError::PartCount => "Expected 2 items for the content of a message with an image.".to_string(),
            TranslateError::ImageRole(r) => {
                let mut m = "Role for an image message must be `user`, but it is ".to_string();
                m.append(r.as_str());
                m
            },
            TranslateError::PartFieldCount => "Expected 2 items for the sub-content of a message with an image.".to_string(),
            TranslateError::MissingType => "Expected `type` key in input message.".to_string(),
            TranslateError::TypeNotString => "Expected string value in `type`.".to_string(),
            TranslateError::TextNotString => "Expected string value in `text`.".to_string(),
            TranslateError::PartSchema => "Expected content of format {`type`: `text`, `text`: ...} and {`type`: `image_url`, `image_url`: {`url`: ...}}".to_string(),
            TranslateError::ImageResource { reference, cause } => {
                let mut m = "Failed to parse image resource: ".to_string();
                m.append(reference.as_str());
                m.append(": ");
                let c = cause.message();
                m.append(c.as_str());
                m
            },
        }
    }
}

/// Index of the first pair whose key is `k`.
pub open spec fn key_position<V>(f: Seq<(String, V)>, k: Seq<char>) -> Option<int>
    decreases f.len(),
{
    if f.len() == 0 {
        None
    } else if f[0].0@ == k {
        Some(0)
    } else {
        match key_position(f.drop_first(), k) {
            Some(i) => Some(i + 1),
            None => None,
        }
    }
}

/// The value under the first occurrence of key `k`.
pub open spec fn field_value<V>(f: Seq<(String, V)>, k: Seq<char>) -> Option<V> {
    match key_position(f, k) {
        Some(i) => Some(f[i].1),
        None => None,
    }
}

/// Finds the first pair whose key is `k`.
pub fn find_key<V>(f: &Vec<(String, V)>, k: &str) -> (r: Option<usize>)
    ensures
        r matches Some(i) ==> key_position(f@, k@) == Some(i as int) && i < f@.len(),
        r is None ==> key_position(f@, k@) is None,
{
    let key = k.to_string();
    let n = f.len();
    let mut i: usize = 0;
    assert(f@.subrange(0, n as int) =~= f@);
    while i < n
        invariant
            n == f@.len(),
            0 <= i <= n,
            key@ == k@,
            key_position(f@, k@) == (match key_position(f@.subrange(i as int, n as int), k@) {
                Some(j) => Some(j + i),
                None => None::<int>,
            }),
        decreases n - i,
    {
        let ghost rest = f@.subrange(i as int, n as int);
        assert(rest[0] == f@[i as int]);
        if f[i].0 == key {
            return Some(i);
        }
        assert(rest.drop_first() =~= f@.subrange(i + 1, n as int));
        i = i + 1;
    }
    assert(f@.subrange(n as int, n as int).len() == 0);
    None
}

/// Text equal to a literal.
pub(crate) fn text_is(s: &String, lit: &str) -> (r: bool)
    ensures
        r == (s@ == lit@),
{
    let l = lit.to_string();
    *s == l
}

/// The `type` of a part, checked in the order the checks are made.
pub open spec fn part_type(p: ContentPart) -> Result<String, TranslateError> {
    if p.fields@.len() != 2 {
        Err(TranslateError::PartFieldCount)
    } else {
        match field_value(p.fields@, "type"@) {
            None => Err(TranslateError::MissingType),
            Some(MessageInnerContent::Fields(_)) => Err(TranslateError::TypeNotString),
            Some(MessageInnerContent::Text(t)) => Ok(t),
        }
    }
}

/// The `text` of a text part.
pub open spec fn part_text(p: ContentPart) -> Result<String, TranslateError> {
    match field_value(p.fields@, "text"@) {
        Some(MessageInnerContent::Text(t)) => Ok(t),
        _ => Err(TranslateError::TextNotString),
    }
}

/// The `image_url.url` of an image part.
pub open spec fn part_url(p: ContentPart) -> Result<String, TranslateError> {
    match field_value(p.fields@, "image_url"@) {
        Some(MessageInnerContent::Fields(m)) => match field_value(m@, "url"@) {
            Some(u) => Ok(u),
            None => Err(TranslateError::PartSchema),
        },
        _ => Err(TranslateError::PartSchema),
    }
}

/// Text and image reference of a text part and an image part.
pub open spec fn text_and_url(tp: ContentPart, up: ContentPart) -> Result<(String, String), TranslateError> {
    match part_text(tp) {
        Err(e) => Err(e),
        Ok(t) => match part_url(up) {
            Err(e) => Err(e),
            Ok(u) => Ok((t, u)),
        },
    }
}

/// What the parts of a multi-part message with role `role` normalize to:
/// its text and its image reference, or the first check that fails.
pub open spec fn normalized_parts(role: String, parts: Seq<ContentPart>) -> Result<(String, String), TranslateError> {
    if parts.len() != 2 {
        Err(TranslateError::PartCount)
    } else if role@ != "user"@ {
        Err(TranslateError::ImageRole(role))
    } else {
        match (part_type(parts[0]), part_type(parts[1])) {
            (Err(e), _) => Err(e),
            (_, Err(e)) => Err(e),
            (Ok(t0), Ok(t1)) => if t0@ == "text"@ && t1@ == "image_url"@ {
                text_and_url(parts[0], parts[1])
            } else if t0@ == "image_url"@ && t1@ == "text"@ {
                text_and_url(parts[1], parts[0])
            } else {
                Err(TranslateError::PartSchema)
            },
        }
    }
}

fn get_type(p: &ContentPart) -> (r: Result<String, TranslateError>)
    ensures
        r == part_type(*p),
{
    if p.fields.len() != 2 {
        return Err(TranslateError::PartFieldCount);
    }
    match find_key(&p.fields, "type") {
        None => Err(TranslateError::MissingType),
        Some(i) => match &p.fields[i].1 {
            MessageInnerContent::Fields(_) => Err(TranslateError::TypeNotString),
            MessageInnerContent::Text(t) => Ok(t.clone()),
        },
    }
}

fn get_content_and_url(tp: &ContentPart, up: &ContentPart) -> (r: Result<(String, String), TranslateError>)
    ensures
        r == text_and_url(*tp, *up),
{
    let text = match find_key(&tp.fields, "text") {
        Some(i) => match &tp.fields[i].1 {
            MessageInnerContent::Text(t) => t.clone(),
            MessageInnerContent::Fields(_) => {
                return Err(TranslateError::TextNotString);
            },
        },
        None => {
            return Err(TranslateError::TextNotString);
        },
    };
    match find_key(&up.fields, "image_url") {
        Some(i) => match &up.fields[i].1 {
            MessageInnerContent::Fields(m) => match find_key(m, "url") {
                Some(j) => Ok((text, m[j].1.clone())),
                None => Err(TranslateError::PartSchema),
            },
            MessageInnerContent::Text(_) => Err(TranslateError::PartSchema),
        },
        None => Err(TranslateError::PartSchema),
    }
}

/// Normalizes the parts of a multi-part message into its text and image reference.
pub fn normalize_parts(role: &String, parts: &Vec<ContentPart>) -> (r: Result<(String, String), TranslateError>)
    requires
        parts_well_formed(parts@),
    ensures
        r == normalized_parts(*role, parts@),
{
    if parts.len() != 2 {
        return Err(TranslateError::PartCount);
    }
    if !text_is(role, "user") {
        return Err(TranslateError::ImageRole(role.clone()));
    }
    let t0 = get_type(&parts[0])?;
    let t1 = get_type(&parts[1])?;
    if text_is(&t0, "text") && text_is(&t1, "image_url") {
        get_content_and_url(&parts[0], &parts[1])
    } else if text_is(&t0, "image_url") && text_is(&t1, "text") {
        get_content_and_url(&parts[1], &parts[0])
    } else {
        Err(TranslateError::PartSchema)
    }
}

/// What one message normalizes to: nothing more for a text message, its image
/// reference for a multi-part one, or the first check that fails.
pub open spec fn message_outcome(m: Message) -> Result<Option<String>, TranslateError> {
    match m.content {
        MessageContent::Text(_) => Ok(None),
        MessageContent::Parts(ps) => match normalized_parts(m.role, ps@) {
            Ok((_, u)) => Ok(Some(u)),
            Err(e) => Err(e),
        },
    }
}

/// The error of the first message, in order, that fails to normalize.
pub open spec fn first_failure(ms: Seq<Message>) -> Option<TranslateError>
    decreases ms.len(),
{
    if ms.len() == 0 {
        None
    } else {
        match first_failure(ms.drop_last()) {
            Some(e) => Some(e),
            None => match message_outcome(ms.last()) {
                Err(e) => Some(e),
                Ok(_) => None,
            },
        }
    }
}

/// The image references of the messages, in message order.
pub open spec fn image_refs(ms: Seq<Message>) -> Seq<String>
    decreases ms.len(),
{
    if ms.len() == 0 {
        Seq::empty()
    } else {
        image_refs(ms.drop_last()) + match message_outcome(ms.last()) {
            Ok(Some(u)) => seq![u],
            _ => Seq::empty(),
        }
    }
}

/// `out` is the normalized form of `m`: the same role; the same text, or an
/// image segment followed by the text of the text part.
pub open spec fn translated_as(m: Message, out: InternalMessage) -> bool {
    &&& out.role == m.role
    &&& match m.content {
        MessageContent::Text(c) => out.content == InternalContent::Text(c),
        MessageContent::Parts(ps) => match normalized_parts(m.role, ps@) {
            Ok((t, _)) => out.content matches InternalContent::Segments(v)
                && v@ == seq![Segment::Image, Segment::Text(t)],
            Err(_) => false,
        },
    }
}

/// Messages normalized, with the image references they hold.
#[derive(Debug, PartialEq)]
pub struct NormalizedMessages {
    pub messages: Vec<InternalMessage>,
    pub image_refs: Vec<String>,
}

/// `n` is the normalized form of `ms`.
pub open spec fn normalized_as(ms: Seq<Message>, n: NormalizedMessages) -> bool {
    &&& n.messages@.len() == ms.len()
    &&& forall|i: int| 0 <= i < ms.len() ==> translated_as(ms[i], #[trigger] n.messages@[i])
    &&& n.image_refs@ == image_refs(ms)
}

fn normalize_message(m: &Message) -> (r: Result<(InternalMessage, Option<String>), TranslateError>)
    requires
        message_well_formed(*m),
    ensures
        match r {
            Ok((im, u)) => message_outcome(*m) == Ok::<Option<String>, TranslateError>(u)
                && translated_as(*m, im),
            Err(e) => message_outcome(*m) == Err::<Option<String>, TranslateError>(e),
        },
{
    match &m.content {
        MessageContent::Text(c) => {
            let im = InternalMessage { role: m.role.clone(), content: InternalContent::Text(c.clone()) };
            Ok((im, None))
        },
        MessageContent::Parts(ps) => {
            let (text, url) = normalize_parts(&m.role, ps)?;
            let mut segments = Vec::new();
            segments.push(Segment::Image);
            segments.push(Segment::Text(text));
            assert(segments@ =~= seq![Segment::Image, Segment::Text(text)]);
            let im = InternalMessage { role: m.role.clone(), content: InternalContent::Segments(segments) };
            Ok((im, Some(url)))
        },
    }
}

/// Normalizes a list of messages, stopping at the first that fails.
pub fn normalize_messages(ms: &Vec<Message>) -> (r: Result<NormalizedMessages, TranslateError>)
    requires
        messages_well_formed(ms@),
    ensures
        match r {
            Ok(n) => first_failure(ms@) is None && normalized_as(ms@, n),
            Err(e) => first_failure(ms@) == Some(e),
        },
        (forall|i: int| 0 <= i < ms@.len() ==> (#[trigger] ms@[i]).content is Text) ==> r is Ok,
{
    let mut messages: Vec<InternalMessage> = Vec::new();
    let mut refs: Vec<String> = Vec::new();
    let n = ms.len();
    let mut i: usize = 0;
    while i < n
        invariant
            n == ms@.len(),
            0 <= i <= n,
            messages_well_formed(ms@),
            first_failure(ms@.subrange(0, i as int)) is None,
            messages@.len() == i,
            forall|j: int| 0 <= j < i ==> translated_as(ms@[j], #[trigger] messages@[j]),
            refs@ == image_refs(ms@.subrange(0, i as int)),
        decreases n - i,
    {
        let ghost prefix = ms@.subrange(0, i as int + 1);
        assert(prefix.drop_last() =~= ms@.subrange(0, i as int));
        assert(prefix.last() == ms@[i as int]);
        match normalize_message(&ms[i]) {
            Ok((im, u)) => {
                messages.push(im);
                match u {
                    Some(url) => {
                        refs.push(url);
                    },
                    None => {},
                }
                assert(refs@ =~= image_refs(prefix));
            },
            Err(e) => {
                proof {
                    lemma_failure_extends(ms@, i as int + 1);
                }
                return Err(e);
            },
        }
        i = i + 1;
    }
    assert(ms@.subrange(0, n as int) =~= ms@);
    Ok(NormalizedMessages { messages, image_refs: refs })
}

/// A failure in a prefix is the failure of the whole list.
proof fn lemma_failure_extends(ms: Seq<Message>, k: int)
    requires
        0 <= k <= ms.len(),
        first_failure(ms.subrange(0, k)) is Some,
    ensures
        first_failure(ms) == first_failure(ms.subrange(0, k)),
    decreases ms.len() - k,
{
    if k < ms.len() {
        let next = ms.subrange(0, k + 1);
        assert(next.drop_last() =~= ms.subrange(0, k));
        lemma_failure_extends(ms, k + 1);
    } else {
        assert(ms.subrange(0, k) =~= ms);
    }
}

/// `r` is the list form of the `stop` field `stop`.
pub open spec fn stop_normalized(stop: Option<StopTokens>, r: Option<Vec<String>>) -> bool {
    match stop {
        None => r is None,
        Some(StopTokens::Multi(m)) => r == Some(m),
        Some(StopTokens::Single(s)) => r matches Some(v) && v@ == seq![s],
    }
}

/// The stop sequences as a list: a single sequence becomes a list of one.
pub fn normalize_stop(stop: Option<StopTokens>) -> (r: Option<Vec<String>>)
    ensures
        stop_normalized(stop, r),
{
    match stop {
        None => None,
        Some(StopTokens::Multi(m)) => Some(m),
        Some(StopTokens::Single(s)) => {
            let mut v = Vec::new();
            v.push(s);
            assert(v@ =~= seq![s]);
            Some(v)
        },
    }
}

/// `n` is the normalized form of the request's input: its messages, or one
/// `user` message holding the prompt.
pub open spec fn input_normalized_as(input: ChatInput, n: NormalizedMessages) -> bool {
    match input {
        ChatInput::Messages(ms) => first_failure(ms@) is None && normalized_as(ms@, n),
        ChatInput::Prompt(p) => {
            &&& n.messages@.len() == 1
            &&& n.messages@[0].role@ == "user"@
            &&& n.messages@[0].content == InternalContent::Text(p)
            &&& n.image_refs@.len() == 0
        },
    }
}

/// Normalizes the input of a request.
pub fn normalize_input(input: &ChatInput) -> (r: Result<NormalizedMessages, TranslateError>)
    requires
        input_well_formed(*input),
    ensures
        r matches Ok(n) ==> input_normalized_as(*input, n),
        r matches Err(e) ==> input matches ChatInput::Messages(ms) && first_failure(ms@) == Some(e),
        input matches ChatInput::Messages(ms) ==> (r is Ok <==> first_failure(ms@) is None),
        input is Prompt ==> r is Ok,
{
    match input {
        ChatInput::Messages(ms) => normalize_messages(ms),
        ChatInput::Prompt(p) => {
            let mut messages = Vec::new();
            messages.push(InternalMessage { role: "user".to_string(), content: InternalContent::Text(p.clone()) });
            Ok(NormalizedMessages { messages, image_refs: Vec::new() })
        },
    }
}

/// `c` is the constraint that grammar `g` asks for.
pub open spec fn constraint_of(g: Option<Grammar>, c: Constraint) -> bool {
    match g {
        Some(Grammar::Yacc(y)) => c == Constraint::Yacc(y),
        Some(Grammar::Regex(x)) => c == Constraint::Regex(x),
        None => c is Unconstrained,
    }
}

/// `d` is the "dry" configuration that the request's fields ask for: none
/// without a multiplier.
pub open spec fn dry_of(req: ChatCompletionRequest, d: Option<DryParams>) -> bool {
    match req.dry_multiplier {
        None => d is None,
        Some(m) => d == Some(DryParams {
            multiplier: m,
            sequence_breakers: req.dry_sequence_breakers,
            base: req.dry_base,
            allowed_length: req.dry_allowed_length,
        }),
    }
}

/// `sp` carries the sampling controls of `req`, with the defaults filled in.
pub open spec fn sampling_of(req: ChatCompletionRequest, sp: SamplingParams) -> bool {
    &&& sp.temperature == req.temperature
    &&& sp.top_k == req.top_k
    &&& sp.top_p == req.top_p
    &&& sp.min_p == req.min_p
    &&& sp.top_n_logprobs == (match req.top_logprobs {
        Some(k) => k,
        None => 1,
    })
    &&& sp.frequency_penalty == req.frequency_penalty
    &&& sp.presence_penalty == req.presence_penalty
    &&& sp.max_len == req.max_tokens
    &&& stop_normalized(req.stop_seqs, sp.stop_toks)
    &&& sp.logits_bias == req.logit_bias
    &&& sp.n_choices == req.n_choices
    &&& dry_of(req, sp.dry_params)
}

/// `r` is the engine request for `req`, with identifier `id`, normalized
/// messages `n` and decoded images `images`.
pub open spec fn request_of(
    req: ChatCompletionRequest,
    n: NormalizedMessages,
    images: Vec<DynamicImage>,
    id: usize,
    r: InternalRequest,
) -> bool {
    &&& r.id == id
    &&& r.messages == (if n.image_refs@.len() == 0 {
        RequestMessage::Chat(n.messages)
    } else {
        RequestMessage::VisionChat { messages: n.messages, images }
    })
    &&& sampling_of(req, r.sampling_params)
    &&& r.return_logprobs == req.logprobs
    &&& r.is_streaming == (req.stream == Some(true))
    &&& constraint_of(req.grammar, r.constraint)
    &&& r.adapters == req.adapters
    &&& r.tool_choice == req.tool_choice
    &&& r.tools == req.tools
}

/// Builds the engine request from a wire request whose input normalized to
/// `normalized` and whose image references resolved to `images`, in order.
/// The second component tells whether the response is streamed.
pub fn parse_request(
    req: ChatCompletionRequest,
    normalized: NormalizedMessages,
    images: Vec<DynamicImage>,
    id: usize,
) -> (r: (InternalRequest, bool))
    requires
        input_normalized_as(req.messages, normalized),
        images@.len() == normalized.image_refs@.len(),
    ensures
        request_of(req, normalized, images, id, r.0),
        r.1 == r.0.is_streaming,
{
    let ChatCompletionRequest {
        messages: _,
        model: _,
        logit_bias,
        logprobs,
        top_logprobs,
        max_tokens,
        n_choices,
        presence_penalty,
        frequency_penalty,
        stop_seqs,
        temperature,
        top_p,
        stream,
        tools,
        tool_choice,
        top_k,
        grammar,
        adapters,
        min_p,
        dry_multiplier,
        dry_base,
        dry_allowed_length,
        dry_sequence_breakers,
    } = req;
    let stop_toks = normalize_stop(stop_seqs);
    let messages = if normalized.image_refs.len() == 0 {
        RequestMessage::Chat(normalized.messages)
    } else {
        RequestMessage::VisionChat { messages: normalized.messages, images }
    };
    let dry_params = match dry_multiplier {
        Some(multiplier) => Some(DryParams {
            multiplier,
            sequence_breakers: dry_sequence_breakers,
            base: dry_base,
            allowed_length: dry_allowed_length,
        }),
        None => None,
    };
    let top_n_logprobs = match top_logprobs {
        Some(k) => k,
        None => 1,
    };
    let is_streaming = match stream {
        Some(b) => b,
        None => false,
    };
    let constraint = match grammar {
        Some(Grammar::Yacc(y)) => Constraint::Yacc(y),
        Some(Grammar::Regex(x)) => Constraint::Regex(x),
        None => Constraint::Unconstrained,
    };
    let sampling_params = SamplingParams {
        temperature,
        top_k,
        top_p,
        min_p,
        top_n_logprobs,
        frequency_penalty,
        presence_penalty,
        max_len: max_tokens,
        stop_toks,
        logits_bias: logit_bias,
        n_choices,
        dry_params,
    };
    let request = InternalRequest {
        id,
        messages,
        sampling_params,
        return_logprobs: logprobs,
        is_streaming,
        constraint,
        adapters,
        tool_choice,
        tools,
    };
    (request, is_streaming)
}

/// Messages that all hold plain text translate without failure, one normalized
/// message for each, with the same roles in the same order, and no images.
pub proof fn lemma_text_messages_keep_roles(ms: Seq<Message>, n: NormalizedMessages)
    requires
        forall|i: int| 0 <= i < ms.len() ==> (#[trigger] ms[i]).content is Text,
        normalized_as(ms, n),
    ensures
        first_failure(ms) is None,
        n.messages@.len() == ms.len(),
        forall|i: int| 0 <= i < ms.len() ==> (#[trigger] n.messages@[i]).role == ms[i].role,
        n.image_refs@.len() == 0,
{
    lemma_text_messages_succeed(ms);
    assert forall|i: int| 0 <= i < ms.len() implies (#[trigger] n.messages@[i]).role == ms[i].role by {
        assert(translated_as(ms[i], n.messages@[i]));
    }
}

proof fn lemma_text_messages_succeed(ms: Seq<Message>)
    requires
        forall|i: int| 0 <= i < ms.len() ==> (#[trigger] ms[i]).content is Text,
    ensures
        first_failure(ms) is None,
        image_refs(ms).len() == 0,
    decreases ms.len(),
{
    if ms.len() > 0 {
        let p = ms.drop_last();
        assert forall|i: int| 0 <= i < p.len() implies (#[trigger] p[i]).content is Text by {
            assert(p[i] == ms[i]);
        }
        lemma_text_messages_succeed(p);
        assert(ms.last() == ms[ms.len() - 1]);
    }
}

/// A text part and an image part give the same text and image reference in
/// either order.
pub proof fn lemma_part_order_irrelevant(role: String, text_part: ContentPart, image_part: ContentPart)
    requires
        part_type(text_part) matches Ok(t) && t@ == "text"@,
        part_type(image_part) matches Ok(t) && t@ == "image_url"@,
    ensures
        normalized_parts(role, seq![text_part, image_part]) == normalized_parts(role, seq![image_part, text_part]),
        role@ == "user"@ ==> normalized_parts(role, seq![text_part, image_part]) == text_and_url(text_part, image_part),
{
    reveal_strlit("text");
    reveal_strlit("image_url");
    let ab = seq![text_part, image_part];
    let ba = seq![image_part, text_part];
    assert(ab[0] == text_part && ab[1] == image_part);
    assert(ba[0] == image_part && ba[1] == text_part);
    assert("text"@ != "image_url"@) by {
        assert("text"@.len() != "image_url"@.len());
    }
}

proof fn lemma_same_outcomes(ms1: Seq<Message>, ms2: Seq<Message>)
    requires
        ms1.len() == ms2.len(),
        forall|j: int| 0 <= j < ms1.len() ==> message_outcome(#[trigger] ms1[j]) == message_outcome(ms2[j]),
    ensures
        first_failure(ms1) == first_failure(ms2),
        image_refs(ms1) == image_refs(ms2),
    decreases ms1.len(),
{
    if ms1.len() > 0 {
        let p1 = ms1.drop_last();
        let p2 = ms2.drop_last();
        assert forall|j: int| 0 <= j < p1.len() implies message_outcome(#[trigger] p1[j]) == message_outcome(p2[j]) by {
            assert(p1[j] == ms1[j] && p2[j] == ms2[j]);
        }
        lemma_same_outcomes(p1, p2);
        assert(message_outcome(ms1.last()) == message_outcome(ms2[ms2.len() - 1]));
    }
}

/// In a list of messages, swapping the text part and the image part of one
/// multi-part message changes nothing: the same first failure, the same image
/// references, and the same normalized forms; so the request built from
/// either list, with the same images, is the same.
pub proof fn lemma_part_order_irrelevant_in_list(
    ms1: Seq<Message>,
    ms2: Seq<Message>,
    i: int,
    text_part: ContentPart,
    image_part: ContentPart,
)
    requires
        ms1.len() == ms2.len(),
        0 <= i < ms1.len(),
        forall|j: int| 0 <= j < ms1.len() && j != i ==> ms1[j] == ms2[j],
        ms1[i].role == ms2[i].role,
        ms1[i].content matches MessageContent::Parts(p) && p@ == seq![text_part, image_part],
        ms2[i].content matches MessageContent::Parts(p) && p@ == seq![image_part, text_part],
        part_type(text_part) matches Ok(t) && t@ == "text"@,
        part_type(image_part) matches Ok(t) && t@ == "image_url"@,
    ensures
        first_failure(ms1) == first_failure(ms2),
        image_refs(ms1) == image_refs(ms2),
        forall|n: NormalizedMessages| normalized_as(ms1, n) <==> normalized_as(ms2, n),
{
    lemma_part_order_irrelevant(ms1[i].role, text_part, image_part);
    assert(message_outcome(ms1[i]) == message_outcome(ms2[i]));
    assert forall|j: int| 0 <= j < ms1.len() implies message_outcome(#[trigger] ms1[j]) == message_outcome(ms2[j]) by {
        if j != i {
            assert(ms1[j] == ms2[j]);
        }
    }
    lemma_same_outcomes(ms1, ms2);
    assert forall|out: InternalMessage| translated_as(ms1[i], out) <==> translated_as(ms2[i], out) by {}
    assert forall|n: NormalizedMessages| normalized_as(ms1, n) <==> normalized_as(ms2, n) by {
        if normalized_as(ms1, n) {
            assert forall|j: int| 0 <= j < ms2.len() implies translated_as(ms2[j], #[trigger] n.messages@[j]) by {
                assert(translated_as(ms1[j], n.messages@[j]));
                if j != i {
                    assert(ms1[j] == ms2[j]);
                }
            }
        }
        if normalized_as(ms2, n) {
            assert forall|j: int| 0 <= j < ms1.len() implies translated_as(ms1[j], #[trigger] n.messages@[j]) by {
                assert(translated_as(ms2[j], n.messages@[j]));
                if j != i {
                    assert(ms1[j] == ms2[j]);
                }
            }
        }
    }
}

/// A multi-part message with other than two parts, or with a role other than
/// `user`, fails to normalize, and so does every list that holds it: such a
/// request is never built, let alone dispatched.
pub proof fn lemma_malformed_parts_rejected(ms: Seq<Message>, i: int)
    requires
        0 <= i < ms.len(),
        ms[i].content matches MessageContent::Parts(ps) && (ps@.len() >= 3 || ms[i].role@ != "user"@),
    ensures
        message_outcome(ms[i]) is Err,
        first_failure(ms) is Some,
    decreases ms.len(),
{
    if i < ms.len() - 1 {
        let p = ms.drop_last();
        assert(p[i] == ms[i]);
        lemma_malformed_parts_rejected(p, i);
    } else {
        assert(ms.last() == ms[i]);
    }
}

} // verus!
