use chat_gateway::content::ResolveError;
use chat_gateway::request::{Constraint, InternalContent, RequestMessage, Segment};
use chat_gateway::translate::{
    normalize_input, normalize_messages, normalize_parts, normalize_stop, parse_request,
    TranslateError,
};
use chat_gateway::wire::{
    default_1usize, default_false, default_model, input_is_well_formed, ChatCompletionRequest, ChatInput, ContentPart,
    Grammar, Message, MessageContent, MessageInnerContent, StopTokens,
};

fn request(messages: ChatInput) -> ChatCompletionRequest {
    ChatCompletionRequest {
        messages,
        model: default_model(),
        logit_bias: None,
        logprobs: default_false(),
        top_logprobs: None,
        max_tokens: None,
        n_choices: default_1usize(),
        presence_penalty: None,
        frequency_penalty: None,
        stop_seqs: None,
        temperature: None,
        top_p: None,
        stream: None,
        tools: None,
        tool_choice: None,
        top_k: None,
        grammar: None,
        adapters: None,
        min_p: None,
        dry_multiplier: None,
        dry_base: None,
        dry_allowed_length: None,
        dry_sequence_breakers: None,
    }
}

fn text_message(role: &str, content: &str) -> Message {
    Message {
        content: MessageContent::Text(content.to_string()),
        role: role.to_string(),
        name: None,
    }
}

fn text_part(text: &str) -> ContentPart {
    ContentPart {
        fields: vec![
            ("type".to_string(), MessageInnerContent::Text("text".to_string())),
            ("text".to_string(), MessageInnerContent::Text(text.to_string())),
        ],
    }
}

fn image_part(url: &str) -> ContentPart {
    ContentPart {
        fields: vec![
            ("type".to_string(), MessageInnerContent::Text("image_url".to_string())),
            (
                "image_url".to_string(),
                MessageInnerContent::Fields(vec![("url".to_string(), url.to_string())]),
            ),
        ],
    }
}

fn parts_message(role: &str, parts: Vec<ContentPart>) -> Message {
    Message { content: MessageContent::Parts(parts), role: role.to_string(), name: None }
}

#[test]
fn defaults_of_omitted_fields() {
    assert!(!default_false());
    assert_eq!(default_1usize(), 1);
    assert_eq!(default_model(), "default");
}

#[test]
fn text_messages_keep_length_and_roles() {
    let ms = vec![
        text_message("system", "be brief"),
        text_message("user", "hi"),
        text_message("assistant", "hello"),
    ];
    let n = normalize_messages(&ms).unwrap();
    assert_eq!(n.messages.len(), 3);
    let roles: Vec<&str> = n.messages.iter().map(|m| m.role.as_str()).collect();
    assert_eq!(roles, vec!["system", "user", "assistant"]);
    assert_eq!(n.messages[1].content, InternalContent::Text("hi".to_string()));
    assert!(n.image_refs.is_empty());
}

#[test]
fn prompt_becomes_one_user_message() {
    let n = normalize_input(&ChatInput::Prompt("tell me".to_string())).unwrap();
    assert_eq!(n.messages.len(), 1);
    assert_eq!(n.messages[0].role, "user");
    assert_eq!(n.messages[0].content, InternalContent::Text("tell me".to_string()));
}

#[test]
fn single_stop_becomes_list_of_one() {
    assert_eq!(normalize_stop(Some(StopTokens::Single("END".to_string()))), Some(vec!["END".to_string()]));
    let list = vec!["a".to_string(), "b".to_string(), "a".to_string()];
    assert_eq!(normalize_stop(Some(StopTokens::Multi(list.clone()))), Some(list));
    assert_eq!(normalize_stop(None), None);
    assert_eq!(normalize_stop(Some(StopTokens::Multi(vec![]))), Some(vec![]));
}

#[test]
fn parts_in_either_order_normalize_alike() {
    let role = "user".to_string();
    let ab = normalize_parts(&role, &vec![text_part("a"), image_part("b")]).unwrap();
    let ba = normalize_parts(&role, &vec![image_part("b"), text_part("a")]).unwrap();
    assert_eq!(ab, ("a".to_string(), "b".to_string()));
    assert_eq!(ab, ba);
}

#[test]
fn image_message_becomes_segments_and_reference() {
    let ms = vec![text_message("user", "first"), parts_message("user", vec![image_part("u1"), text_part("look")])];
    let n = normalize_messages(&ms).unwrap();
    assert_eq!(n.image_refs, vec!["u1".to_string()]);
    assert_eq!(
        n.messages[1].content,
        InternalContent::Segments(vec![Segment::Image, Segment::Text("look".to_string())])
    );
}

#[test]
fn three_parts_fail_validation() {
    let ms = vec![parts_message("user", vec![text_part("a"), image_part("b"), text_part("c")])];
    assert_eq!(normalize_messages(&ms).unwrap_err(), TranslateError::PartCount);
    let e = TranslateError::PartCount;
    assert_eq!(e.message(), "Expected 2 items for the content of a message with an image.");
}

#[test]
fn non_user_image_message_fails_validation() {
    let ms = vec![parts_message("assistant", vec![text_part("a"), image_part("b")])];
    let e = normalize_messages(&ms).unwrap_err();
    assert_eq!(e, TranslateError::ImageRole("assistant".to_string()));
    assert_eq!(e.message(), "Role for an image message must be `user`, but it is assistant");
}

#[test]
fn first_failing_message_decides_the_error() {
    let ms = vec![
        text_message("user", "ok"),
        parts_message("user", vec![text_part("a")]),
        parts_message("system", vec![text_part("a"), image_part("b")]),
    ];
    assert_eq!(normalize_messages(&ms).unwrap_err(), TranslateError::PartCount);
}

#[test]
fn part_shape_errors() {
    let role = "user".to_string();
    let one_key = ContentPart { fields: vec![("type".to_string(), MessageInnerContent::Text("text".to_string()))] };
    assert_eq!(normalize_parts(&role, &vec![one_key, image_part("b")]), Err(TranslateError::PartFieldCount));
    let no_type = ContentPart {
        fields: vec![
            ("kind".to_string(), MessageInnerContent::Text("text".to_string())),
            ("text".to_string(), MessageInnerContent::Text("a".to_string())),
        ],
    };
    assert_eq!(normalize_parts(&role, &vec![no_type, image_part("b")]), Err(TranslateError::MissingType));
    let object_type = ContentPart {
        fields: vec![
            ("type".to_string(), MessageInnerContent::Fields(vec![])),
            ("text".to_string(), MessageInnerContent::Text("a".to_string())),
        ],
    };
    assert_eq!(normalize_parts(&role, &vec![text_part("a"), object_type]), Err(TranslateError::TypeNotString));
    let object_text = ContentPart {
        fields: vec![
            ("type".to_string(), MessageInnerContent::Text("text".to_string())),
            ("text".to_string(), MessageInnerContent::Fields(vec![])),
        ],
    };
    assert_eq!(normalize_parts(&role, &vec![object_text, image_part("b")]), Err(TranslateError::TextNotString));
    let no_url = ContentPart {
        fields: vec![
            ("type".to_string(), MessageInnerContent::Text("image_url".to_string())),
            ("image_url".to_string(), MessageInnerContent::Fields(vec![("href".to_string(), "b".to_string())])),
        ],
    };
    assert_eq!(normalize_parts(&role, &vec![text_part("a"), no_url]), Err(TranslateError::PartSchema));
    assert_eq!(normalize_parts(&role, &vec![text_part("a"), text_part("b")]), Err(TranslateError::PartSchema));
}

#[test]
fn image_resource_error_text() {
    let e = TranslateError::ImageResource {
        reference: "ftp://x/y".to_string(),
        cause: ResolveError::UnsupportedScheme("ftp".to_string()),
    };
    assert_eq!(e.message(), "Failed to parse image resource: ftp://x/y: Unsupported URL scheme: ftp");
}

#[test]
fn sampling_fields_are_copied_with_defaults() {
    let mut req = request(ChatInput::Messages(vec![text_message("user", "hi")]));
    req.temperature = Some(0.7f64.to_bits());
    req.top_k = Some(40);
    req.stop_seqs = Some(StopTokens::Single("\n".to_string()));
    req.grammar = Some(Grammar::Regex("[a-z]+".to_string()));
    req.dry_multiplier = Some(0.8f32.to_bits());
    req.dry_allowed_length = Some(3);
    req.stream = Some(true);
    let n = normalize_input(&req.messages).unwrap();
    let (r, streaming) = parse_request(req, n, vec![], 7);
    assert!(streaming);
    assert!(r.is_streaming);
    assert_eq!(r.id, 7);
    assert_eq!(f64::from_bits(r.sampling_params.temperature.unwrap()), 0.7);
    assert_eq!(r.sampling_params.top_k, Some(40));
    assert_eq!(r.sampling_params.top_n_logprobs, 1);
    assert_eq!(r.sampling_params.n_choices, 1);
    assert_eq!(r.sampling_params.stop_toks, Some(vec!["\n".to_string()]));
    assert_eq!(r.constraint, Constraint::Regex("[a-z]+".to_string()));
    let dry = r.sampling_params.dry_params.unwrap();
    assert_eq!(f32::from_bits(dry.multiplier), 0.8);
    assert_eq!(dry.allowed_length, Some(3));
    assert_eq!(dry.base, None);
    assert!(matches!(r.messages, RequestMessage::Chat(ref m) if m.len() == 1));
}

#[test]
fn no_multiplier_means_no_dry_settings() {
    let mut req = request(ChatInput::Prompt("p".to_string()));
    req.dry_base = Some(1.5f32.to_bits());
    req.top_logprobs = Some(5);
    let n = normalize_input(&req.messages).unwrap();
    let (r, streaming) = parse_request(req, n, vec![], 0);
    assert!(!streaming);
    assert_eq!(r.sampling_params.dry_params, None);
    assert_eq!(r.sampling_params.top_n_logprobs, 5);
    assert_eq!(r.constraint, Constraint::Unconstrained);
}

#[test]
fn image_request_is_a_vision_request() {
    let req = request(ChatInput::Messages(vec![parts_message("user", vec![text_part("what"), image_part("x")])]));
    let n = normalize_input(&req.messages).unwrap();
    assert_eq!(n.image_refs, vec!["x".to_string()]);
    let img = image::DynamicImage::new_rgb8(1, 1);
    let (r, _) = parse_request(req, n, vec![img.clone()], 1);
    match r.messages {
        RequestMessage::VisionChat { messages, images } => {
            assert_eq!(messages.len(), 1);
            assert_eq!(images, vec![img]);
        }
        RequestMessage::Chat(_) => panic!("expected a vision request"),
    }
}

#[test]
fn duplicate_keys_are_not_well_formed() {
    let good = ChatInput::Messages(vec![parts_message("user", vec![text_part("a"), image_part("b")])]);
    assert!(input_is_well_formed(&good));
    let dup = ContentPart {
        fields: vec![
            ("type".to_string(), MessageInnerContent::Text("text".to_string())),
            ("type".to_string(), MessageInnerContent::Text("image_url".to_string())),
        ],
    };
    let bad = ChatInput::Messages(vec![parts_message("user", vec![dup, image_part("b")])]);
    assert!(!input_is_well_formed(&bad));
    let dup_inner = ContentPart {
        fields: vec![
            ("type".to_string(), MessageInnerContent::Text("image_url".to_string())),
            (
                "image_url".to_string(),
                MessageInnerContent::Fields(vec![("url".to_string(), "x".to_string()), ("url".to_string(), "y".to_string())]),
            ),
        ],
    };
    let bad_inner = ChatInput::Messages(vec![parts_message("user", vec![text_part("a"), dup_inner])]);
    assert!(!input_is_well_formed(&bad_inner));
    assert!(input_is_well_formed(&ChatInput::Prompt("p".to_string())));
}

#[test]
fn swapped_parts_build_the_same_request() {
    let build = |parts: Vec<ContentPart>| {
        let req = request(ChatInput::Messages(vec![text_message("system", "s"), parts_message("user", parts)]));
        let n = normalize_input(&req.messages).unwrap();
        assert_eq!(n.image_refs, vec!["b".to_string()]);
        parse_request(req, n, vec![image::DynamicImage::new_rgb8(1, 1)], 4).0
    };
    let r1 = build(vec![text_part("a"), image_part("b")]);
    let r2 = build(vec![image_part("b"), text_part("a")]);
    assert_eq!(r1, r2);
    match r1.messages {
        RequestMessage::VisionChat { messages, images } => {
            assert_eq!(images.len(), 1);
            assert_eq!(
                messages[1].content,
                InternalContent::Segments(vec![Segment::Image, Segment::Text("a".to_string())])
            );
        }
        RequestMessage::Chat(_) => panic!("expected a vision request"),
    }
}
