use chat_gateway::responder::{
    after_dispatch, resolve_response, translation_failed, ChatCompletionResponder, DispatchStep,
    JsonError, JsonModelError, Reply, ReplyBody,
};
use chat_gateway::response::{
    chunk_finished, ChatCompletionChunkResponse, ChatCompletionResponse, Choice, ChunkChoice, Delta,
    Response, ResponseMessage, StreamEvent, StreamPoll, Streamer, Usage,
};
use chat_gateway::content::ResolveError;
use chat_gateway::translate::TranslateError;

fn completion(content: &str) -> ChatCompletionResponse {
    ChatCompletionResponse {
        id: "1".to_string(),
        choices: vec![Choice {
            index: 0,
            message: ResponseMessage { role: "assistant".to_string(), content: Some(content.to_string()) },
            finish_reason: "stop".to_string(),
        }],
        created: 0,
        model: "default".to_string(),
        object: "chat.completion".to_string(),
        usage: Usage { completion_tokens: 1, prompt_tokens: 1, total_tokens: 2 },
    }
}

fn chunk(finish: &[Option<&str>]) -> ChatCompletionChunkResponse {
    ChatCompletionChunkResponse {
        id: "1".to_string(),
        choices: finish
            .iter()
            .enumerate()
            .map(|(i, f)| ChunkChoice {
                index: i,
                delta: Delta { role: "assistant".to_string(), content: "x".to_string() },
                finish_reason: f.map(|s| s.to_string()),
            })
            .collect(),
        created: 0,
        model: "default".to_string(),
        object: "chat.completion.chunk".to_string(),
    }
}

#[test]
fn done_with_hello_is_a_200_json_body() {
    let r = resolve_response(Some(Response::Done(completion("hello"))));
    match r.into_response() {
        Reply::Json { status, body: ReplyBody::Completion(c) } => {
            assert_eq!(status, 200);
            assert_eq!(c.choices[0].message.content.as_deref(), Some("hello"));
        }
        _ => panic!("expected a completion body"),
    }
}

#[test]
fn closed_channel_is_a_500_no_response() {
    match resolve_response(None).into_response() {
        Reply::Json { status, body: ReplyBody::Error(JsonError { message }) } => {
            assert_eq!(status, 500);
            assert!(message.contains("No response received"));
        }
        _ => panic!("expected an error body"),
    }
}

#[test]
fn engine_errors_map_to_status_and_body() {
    let model = resolve_response(Some(Response::ModelError("boom".to_string(), completion("par"))));
    assert_eq!(
        model.into_response(),
        Reply::Json {
            status: 500,
            body: ReplyBody::ModelError(JsonModelError::new("boom".to_string(), completion("par"))),
        }
    );
    let validation = resolve_response(Some(Response::ValidationError("bad".to_string())));
    assert_eq!(
        validation.into_response(),
        Reply::Json { status: 422, body: ReplyBody::Error(JsonError::new("bad".to_string())) }
    );
    let internal = resolve_response(Some(Response::InternalError("oops".to_string())));
    assert_eq!(
        internal.into_response(),
        Reply::Json { status: 500, body: ReplyBody::Error(JsonError::new("oops".to_string())) }
    );
}

#[test]
fn two_chunks_then_the_stream_ends() {
    let mut s = Streamer::new();
    let mut events = 0;
    let mut feed = vec![
        Response::Chunk(chunk(&[None])),
        Response::Chunk(chunk(&[Some("stop")])),
    ]
    .into_iter();
    for _ in 0..10 {
        let received = if s.is_done() { None } else { feed.next() };
        match s.poll_next(received) {
            StreamPoll::Event(StreamEvent::Chunk(_)) => events += 1,
            StreamPoll::Event(StreamEvent::Error(_)) => panic!("no error expected"),
            StreamPoll::Pending => panic!("a value was ready"),
            StreamPoll::End => break,
        }
    }
    assert_eq!(events, 2);
    assert!(s.is_done());
    assert_eq!(s.poll_next(None), StreamPoll::End);
}

#[test]
fn empty_channel_keeps_the_stream_open() {
    let mut s = Streamer::new();
    assert_eq!(s.poll_next(None), StreamPoll::Pending);
    assert!(!s.is_done());
}

#[test]
fn partly_finished_chunk_keeps_the_stream_open() {
    assert!(!chunk_finished(&chunk(&[Some("stop"), None])));
    assert!(chunk_finished(&chunk(&[Some("stop"), Some("length")])));
    let mut s = Streamer::new();
    let _ = s.poll_next(Some(Response::Chunk(chunk(&[Some("stop"), None]))));
    assert!(!s.is_done());
}

#[test]
fn error_ends_the_stream_after_one_event() {
    let mut s = Streamer::new();
    assert_eq!(
        s.poll_next(Some(Response::ModelError("m".to_string(), completion("")))),
        StreamPoll::Event(StreamEvent::Error("m".to_string()))
    );
    assert!(s.is_done());
    assert_eq!(s.poll_next(None), StreamPoll::End);
}

#[test]
fn dispatch_outcomes() {
    assert_eq!(
        after_dispatch(true, Some("closed".to_string())),
        DispatchStep::Respond(ChatCompletionResponder::InternalError("closed".to_string()))
    );
    assert_eq!(after_dispatch(false, None), DispatchStep::AwaitResponse);
    match after_dispatch(true, None) {
        DispatchStep::Respond(ChatCompletionResponder::Sse(s)) => assert!(!s.is_done()),
        _ => panic!("expected a stream"),
    }
}

#[test]
fn translation_failures_map_to_statuses() {
    let v = translation_failed(&TranslateError::PartCount);
    assert!(matches!(v.into_response(), Reply::Json { status: 422, .. }));
    let scheme = TranslateError::ImageResource {
        reference: "ftp://a".to_string(),
        cause: ResolveError::UnsupportedScheme("ftp".to_string()),
    };
    assert!(matches!(translation_failed(&scheme).into_response(), Reply::Json { status: 422, .. }));
    let network = TranslateError::ImageResource {
        reference: "http://a".to_string(),
        cause: ResolveError::Network("refused".to_string()),
    };
    match translation_failed(&network) {
        ChatCompletionResponder::InternalError(m) => {
            assert_eq!(m, "Failed to parse image resource: http://a: refused")
        }
        _ => panic!("expected an internal error"),
    }
}
