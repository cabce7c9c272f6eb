use serverless_patterns::relay::{
    get_response, pipeline_outcome, BedrockResponse, ContentDelta, RelayError, RelayPhase,
    RelaySink, RelayStep, SinkStep, StreamOutput, TokenRelay, UpstreamEvent, RELAY_CAPACITY,
};

fn text(t: &str) -> StreamOutput {
    StreamOutput::ContentBlockDelta(Some(ContentDelta::Text(t.to_string())))
}

/// Runs producer and sink over the polls, as the two tasks would, and
/// returns what the sink posted and how the producer ended.
fn relay(events: Vec<UpstreamEvent>) -> (Vec<String>, RelayPhase, Option<RelayError>) {
    let mut producer = TokenRelay::new();
    let mut sink = RelaySink::new();
    let mut posted = Vec::new();
    let mut error = None;
    for ev in events {
        match producer.on_upstream(ev) {
            RelayStep::Forward(r) => match sink.on_message(Some(r)) {
                SinkStep::Post(t) => posted.push(t),
                SinkStep::Done => unreachable!(),
            },
            RelayStep::Close => {
                assert!(matches!(sink.on_message(None), SinkStep::Done));
                break;
            }
            RelayStep::Abort(e) => {
                error = Some(e);
                break;
            }
        }
    }
    (posted, producer.phase(), error)
}

#[test]
fn text_delta_becomes_text_record() {
    let r = get_response(text("Once")).unwrap();
    assert_eq!(r.response_type, "text");
    assert_eq!(r.message.as_deref(), Some("Once"));
    assert_eq!(r.to_json(), r#"{"type":"text","message":"Once"}"#);
}

#[test]
fn empty_delta_becomes_empty_message() {
    let r = get_response(StreamOutput::ContentBlockDelta(None)).unwrap();
    assert_eq!(r.to_json(), r#"{"type":"message","message":""}"#);
}

#[test]
fn other_event_has_null_message() {
    let r = get_response(StreamOutput::Other).unwrap();
    assert_eq!(r.to_json(), r#"{"type":"other","message":null}"#);
}

#[test]
fn non_text_delta_is_an_error() {
    let r = get_response(StreamOutput::ContentBlockDelta(Some(ContentDelta::NonText)));
    assert_eq!(r.err(), Some(RelayError::DeltaNotText));
    assert_eq!(RelayError::DeltaNotText.message(), "Failed to get text from delta");
}

#[test]
fn record_json_escapes_text() {
    let r = BedrockResponse {
        response_type: "text".to_string(),
        message: Some("say \"hi\"\\\n\t\u{1}é".to_string()),
    };
    assert_eq!(
        r.to_json(),
        "{\"type\":\"text\",\"message\":\"say \\\"hi\\\"\\\\\\n\\t\\u0001é\"}"
    );
}

#[test]
fn tokens_arrive_in_order() {
    let (posted, phase, error) = relay(vec![
        UpstreamEvent::Token(text("a")),
        UpstreamEvent::Token(StreamOutput::Other),
        UpstreamEvent::Token(text("b")),
        UpstreamEvent::End,
    ]);
    assert_eq!(
        posted,
        vec![
            r#"{"type":"text","message":"a"}"#.to_string(),
            r#"{"type":"other","message":null}"#.to_string(),
            r#"{"type":"text","message":"b"}"#.to_string(),
        ]
    );
    assert_eq!(phase, RelayPhase::Completed);
    assert_eq!(error, None);
}

#[test]
fn empty_stream_closes_with_nothing_posted() {
    let (posted, phase, error) = relay(vec![UpstreamEvent::End]);
    assert!(posted.is_empty());
    assert_eq!(phase, RelayPhase::Completed);
    assert_eq!(error, None);
}

#[test]
fn n_tokens_give_n_records() {
    let mut events = Vec::new();
    for i in 0..100 {
        events.push(UpstreamEvent::Token(text(&i.to_string())));
    }
    events.push(UpstreamEvent::End);
    let (posted, phase, _) = relay(events);
    assert_eq!(posted.len(), 100);
    assert_eq!(posted[42], r#"{"type":"text","message":"42"}"#);
    assert_eq!(phase, RelayPhase::Completed);
}

#[test]
fn read_error_aborts_relay() {
    let (posted, phase, error) = relay(vec![
        UpstreamEvent::Token(text("a")),
        UpstreamEvent::ReadError,
        UpstreamEvent::Token(text("b")),
    ]);
    assert_eq!(posted.len(), 1);
    assert_eq!(phase, RelayPhase::Failed);
    assert_eq!(error, Some(RelayError::UpstreamRead));
    assert_eq!(RelayError::UpstreamRead.message(), "Error receiving stream");
}

#[test]
fn non_text_delta_aborts_relay() {
    let (posted, phase, error) = relay(vec![
        UpstreamEvent::Token(StreamOutput::ContentBlockDelta(Some(ContentDelta::NonText))),
        UpstreamEvent::End,
    ]);
    assert!(posted.is_empty());
    assert_eq!(phase, RelayPhase::Failed);
    assert_eq!(error, Some(RelayError::DeltaNotText));
}

#[test]
fn rejected_send_stops_producer() {
    let mut producer = TokenRelay::new();
    assert!(matches!(producer.on_upstream(UpstreamEvent::Token(text("a"))), RelayStep::Forward(_)));
    assert_eq!(producer.on_send_rejected(), RelayError::ReceiverDropped);
    assert_eq!(producer.phase(), RelayPhase::Failed);
    assert_eq!(
        RelayError::ReceiverDropped.message(),
        "Receiver dropped error. Bedrock proccessing stopped."
    );
}

#[test]
fn pipeline_outcome_order() {
    assert_eq!(pipeline_outcome(Some(Ok(())), Some(Ok(()))), Ok(()));
    assert_eq!(
        pipeline_outcome(Some(Err(RelayError::UpstreamRead)), Some(Err(RelayError::SinkRejected))),
        Err(RelayError::UpstreamRead)
    );
    assert_eq!(
        pipeline_outcome(Some(Ok(())), Some(Err(RelayError::SinkRejected))),
        Err(RelayError::SinkRejected)
    );
    assert_eq!(
        pipeline_outcome(Some(Err(RelayError::UpstreamRead)), None),
        Err(RelayError::TaskJoin)
    );
    assert_eq!(pipeline_outcome(None, Some(Ok(()))), Err(RelayError::TaskJoin));
}

#[test]
fn relay_capacity_is_small() {
    assert_eq!(RELAY_CAPACITY, 32);
}
