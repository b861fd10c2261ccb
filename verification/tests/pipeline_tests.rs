//! The engine, the acknowledgment discipline, the registry, and the
//! duplex-streaming protocol sessions.

use nekton::engine::{resolve_transaction, run_pipeline, MemorySink, SourcePoll, VecSource};
use nekton::errors::{ConfigError, PipelineError};
use nekton::http::{accept_status, http_route, HttpDecision};
use nekton::processors::{
    assemble_pipeline, compile_processor, process_chain, CompiledProcessor, ProcessorConfig,
};
use nekton::Pipeline;
use nekton::proximo::{Channel, Confirmation, ConsumerRequest, Offset, PublisherRequest};
use nekton::registry::{build_processor, build_sink, build_source, ComponentParams, SourceConfig};
use nekton::{
    partition_key, start_stream_processor, AckState, Message, MessageBatch, MessageSinkClient,
    MessageSourceClient, Sink, Source, Transaction,
};

fn message(data: &[u8]) -> Message {
    Message { data: data.to_vec(), metadata: Vec::new() }
}

fn batch(payloads: &[&[u8]]) -> MessageBatch {
    MessageBatch {
        messages: payloads.iter().map(|d| message(d)).collect(),
        metadata: Vec::new(),
    }
}

fn no_params() -> ComponentParams {
    ComponentParams { strings: Vec::new(), lists: Vec::new(), maps: Vec::new() }
}

struct FailingSink;

impl Sink for FailingSink {
    fn write(&mut self, _batch: &MessageBatch) -> Result<(), PipelineError> {
        Err(PipelineError::Sink("downstream unavailable".to_string()))
    }
}

#[test]
fn identity_chain_returns_batches_unchanged() {
    let procs = vec![compile_processor(&ProcessorConfig::Noop).unwrap()];
    let b = batch(&[b"hello", b"world"]);
    assert_eq!(process_chain(&procs, &b), vec![b]);
}

#[test]
fn chain_stages_feed_in_order() {
    // first rewrite commas to tabs, then split on blanks and tabs
    let procs = vec![
        compile_processor(&ProcessorConfig::Replace {
            from: ",".to_string(),
            to: "\t".to_string(),
        })
        .unwrap(),
        compile_processor(&ProcessorConfig::RegexSplit { re: r"[ \t]+".to_string() }).unwrap(),
    ];
    assert_eq!(
        process_chain(&procs, &batch(&[b"hello,world cheese"])),
        vec![batch(&[b"hello", b"world", b"cheese"])],
    );
}

#[test]
fn engine_acknowledges_each_delivered_batch_once() {
    let mut source = VecSource::new(vec![batch(&[b"one"]), batch(&[b"two"])]);
    let procs = vec![compile_processor(&ProcessorConfig::Noop).unwrap()];
    let mut sink = MemorySink::new();
    let r = start_stream_processor(&mut source, &procs, &mut sink);
    assert!(r.is_ok());
    assert_eq!(source.advanced, 2);
    assert_eq!(source.rejected, 0);
    assert_eq!(sink.received, vec![batch(&[b"one"]), batch(&[b"two"])]);
}

#[test]
fn engine_never_advances_past_a_failed_batch() {
    let mut source = VecSource::new(vec![batch(&[b"one"]), batch(&[b"two"])]);
    let procs = vec![compile_processor(&ProcessorConfig::Noop).unwrap()];
    let mut sink = FailingSink;
    let r = start_stream_processor(&mut source, &procs, &mut sink);
    // per-transaction failures are surfaced to the source and the run goes on
    assert!(r.is_ok());
    assert_eq!(source.advanced, 0);
    assert_eq!(source.rejected, 2);
}

#[test]
fn engine_stops_on_feed_failure() {
    struct BrokenSource;
    impl Source for BrokenSource {
        fn next_batch(&mut self) -> SourcePoll {
            SourcePoll::Fail("connection lost".to_string())
        }
        fn deliver_result(&mut self, _delivered: bool) -> bool {
            false
        }
    }
    let mut source = BrokenSource;
    let procs: Vec<CompiledProcessor> = Vec::new();
    let mut sink = MemorySink::new();
    match start_stream_processor(&mut source, &procs, &mut sink) {
        Err(PipelineError::Source(msg)) => assert_eq!(msg, "connection lost"),
        _ => panic!("a feed failure must end the run with a source error"),
    }
}

#[test]
fn transaction_resolution_settles_the_handle() {
    let procs = vec![compile_processor(&ProcessorConfig::Noop).unwrap()];
    let mut sink = MemorySink::new();
    let mut tx = Transaction::new(batch(&[b"data"]));
    assert_eq!(tx.ack.status(), AckState::Pending);
    assert!(resolve_transaction(&procs, &mut tx, &mut sink).is_ok());
    assert_eq!(tx.ack.status(), AckState::Acked);

    let mut failing = FailingSink;
    let mut tx2 = Transaction::new(batch(&[b"data"]));
    assert!(resolve_transaction(&procs, &mut tx2, &mut failing).is_err());
    assert_eq!(tx2.ack.status(), AckState::Failed);
}

#[test]
fn publish_then_consume_round_trips_the_payload() {
    let sink_client = MessageSinkClient::new(Channel::new("broker:6868".to_string()));
    let mut publisher = sink_client.publish().unwrap();
    let _open = publisher.start("topic");
    let m = message(b"hello,world,cheese");
    let record = match publisher.publish(&m) {
        PublisherRequest::Publish(pm) => pm,
        _ => panic!("publish must send a record"),
    };
    assert_eq!(record.id, "0");
    assert_eq!(record.data, b"hello,world,cheese".to_vec());

    let source_client = MessageSourceClient::new(Channel::new("broker:6868".to_string()));
    let mut consumer = source_client.consume().unwrap();
    let _open = consumer.start("group", "topic", Offset::Oldest);
    let delivered = consumer.on_message(record);
    assert_eq!(delivered.messages.len(), 1);
    assert_eq!(delivered.messages[0].data, b"hello,world,cheese".to_vec());
    assert_ne!(delivered.messages[0].data, b"cheese".to_vec());

    // the consumer confirms exactly once, with the record's id
    let confirmation = match consumer.confirm() {
        ConsumerRequest::Confirm(c) => c,
        _ => panic!("confirm must send a confirmation"),
    };
    assert_eq!(confirmation.msg_id, "0");
    assert!(publisher.on_confirmation(&confirmation).is_ok());
    // a second confirmation for the same record is unexpected
    assert!(publisher.on_confirmation(&confirmation).is_err());
}

#[test]
fn publisher_uses_the_message_id_when_present() {
    let client = MessageSinkClient::new(Channel::new("broker:6868".to_string()));
    let mut publisher = client.publish().unwrap();
    let _open = publisher.start("topic");
    let m = Message {
        data: b"payload".to_vec(),
        metadata: vec![("id".to_string(), "my-id".to_string())],
    };
    match publisher.publish(&m) {
        PublisherRequest::Publish(pm) => assert_eq!(pm.id, "my-id"),
        _ => panic!("publish must send a record"),
    }
}

#[test]
fn publisher_rejects_a_mismatched_confirmation() {
    let client = MessageSinkClient::new(Channel::new("broker:6868".to_string()));
    let mut publisher = client.publish().unwrap();
    let _open = publisher.start("topic");
    let _record = publisher.publish(&message(b"payload"));
    let wrong = Confirmation { msg_id: "other".to_string() };
    assert!(publisher.on_confirmation(&wrong).is_err());
}

#[test]
fn offset_words_parse_exactly() {
    assert_eq!(Offset::parse_str("default"), Some(Offset::Default));
    assert_eq!(Offset::parse_str("newest"), Some(Offset::Newest));
    assert_eq!(Offset::parse_str("oldest"), Some(Offset::Oldest));
    assert_eq!(Offset::parse_str("latest"), None);
}

#[test]
fn partition_key_defaults_to_zero() {
    assert_eq!(partition_key(&message(b"data")), "0");
    let keyed = Message {
        data: b"data".to_vec(),
        metadata: vec![("partition_key".to_string(), "7".to_string())],
    };
    assert_eq!(partition_key(&keyed), "7");
}

#[test]
fn registry_builds_processors_by_tag() {
    assert!(matches!(build_processor("noop", &no_params()), Ok(ProcessorConfig::Noop)));
    let mut params = no_params();
    params.strings.push(("from".to_string(), "a".to_string()));
    params.strings.push(("to".to_string(), "b".to_string()));
    match build_processor("replace", &params) {
        Ok(ProcessorConfig::Replace { from, to }) => {
            assert_eq!(from, "a");
            assert_eq!(to, "b");
        },
        _ => panic!("replace must build from its two fields"),
    }
}

#[test]
fn registry_rejects_unknown_and_incomplete_descriptors() {
    match build_processor("frobnicate", &no_params()) {
        Err(ConfigError::UnknownKind(s)) => assert_eq!(s, "frobnicate"),
        _ => panic!("an unknown discriminator must be rejected by name"),
    }
    match build_processor("replace", &no_params()) {
        Err(ConfigError::MissingField(s)) => assert_eq!(s, "from"),
        _ => panic!("a missing field must be rejected by name"),
    }
    match build_sink("kafka", &no_params()) {
        Err(ConfigError::MissingField(s)) => assert_eq!(s, "topic"),
        _ => panic!("a missing field must be rejected by name"),
    }
}

#[test]
fn registry_builds_sources_and_checks_offsets() {
    assert!(matches!(build_source("stdin", &no_params()), Ok(SourceConfig::Stdin)));
    let mut params = no_params();
    params.strings.push(("endpoint".to_string(), "broker:6868".to_string()));
    params.strings.push(("topic".to_string(), "events".to_string()));
    params.strings.push(("consumer".to_string(), "group".to_string()));
    params.strings.push(("initial_offset".to_string(), "sideways".to_string()));
    match build_source("proximo", &params) {
        Err(ConfigError::InvalidOffset(s)) => assert_eq!(s, "sideways"),
        _ => panic!("an unrecognized offset word must be rejected"),
    }
}

#[test]
fn assembled_pipeline_matches_its_descriptors() {
    let cfgs = vec![
        ProcessorConfig::Noop,
        ProcessorConfig::Replace { from: "a".to_string(), to: "b".to_string() },
    ];
    let pipeline = assemble_pipeline(&cfgs).unwrap();
    assert_eq!(pipeline.processors.len(), 2);
    let bad = vec![ProcessorConfig::RegexSelect { re: "((".to_string() }];
    match assemble_pipeline(&bad) {
        Err(ConfigError::InvalidPattern(s)) => assert_eq!(s, "(("),
        _ => panic!("an invalid pattern must fail assembly"),
    }
}

#[test]
fn http_requests_are_routed_by_method_then_path() {
    assert!(matches!(http_route(false, "/ingest", "/ingest"), HttpDecision::Reject(405)));
    assert!(matches!(http_route(true, "/other", "/ingest"), HttpDecision::Reject(404)));
    assert!(matches!(http_route(true, "/ingest", "/ingest"), HttpDecision::Accept));
    assert_eq!(accept_status(true), 201);
    assert_eq!(accept_status(false), 500);
}

#[test]
fn run_pipeline_delivers_every_chain_output_in_order() {
    let mut source = VecSource::new(vec![
        batch(&[b"cheese geese"]),
        batch(&[b"see bee"]),
    ]);
    let pipeline = Pipeline {
        processors: vec![
            compile_processor(&ProcessorConfig::Replace {
                from: "ee".to_string(),
                to: "oo".to_string(),
            })
            .unwrap(),
            compile_processor(&ProcessorConfig::RegexSplit { re: r"[ \t]+".to_string() })
                .unwrap(),
        ],
    };
    let mut sink = MemorySink::new();
    assert!(run_pipeline(&mut source, &pipeline, &mut sink).is_ok());
    assert_eq!(source.advanced, 2);
    assert_eq!(source.rejected, 0);
    assert_eq!(source.next, 2);
    assert_eq!(
        sink.received,
        vec![batch(&[b"choose", b"goose"]), batch(&[b"soo", b"boo"])],
    );
}

#[test]
fn a_failing_processor_fails_only_its_transaction() {
    struct RejectingProcessor;
    impl nekton::Processor for RejectingProcessor {
        fn process(&self, _batch: &MessageBatch) -> Result<Vec<MessageBatch>, PipelineError> {
            Err(PipelineError::Processor("malformed payload".to_string()))
        }
    }
    let mut source = VecSource::new(vec![batch(&[b"one"]), batch(&[b"two"])]);
    let procs = vec![RejectingProcessor];
    let mut sink = MemorySink::new();
    let r = start_stream_processor(&mut source, &procs, &mut sink);
    assert!(r.is_ok());
    assert_eq!(source.advanced, 0);
    assert_eq!(source.rejected, 2);
    // nothing of a failed transaction reaches the sink
    assert!(sink.received.is_empty());
}

#[test]
fn byte_replace_scans_left_to_right_without_overlap() {
    assert_eq!(nekton::bytesops::replace_all_bytes(b"aaa", b"aa", b"b"), b"ba".to_vec());
    assert_eq!(nekton::bytesops::replace_all_bytes(b"", b"aa", b"b"), b"".to_vec());
    assert_eq!(nekton::bytesops::replace_all_bytes(b"abc", b"zz", b"y"), b"abc".to_vec());
}

#[test]
fn byte_split_drops_empty_tokens() {
    let out = nekton::bytesops::split_drop_empty(b",a,,b,", b',');
    assert_eq!(out, vec![b"a".to_vec(), b"b".to_vec()]);
    assert!(nekton::bytesops::split_drop_empty(b"", b',').is_empty());
}

#[test]
fn split_without_a_match_keeps_the_message() {
    let p = compile_processor(&ProcessorConfig::RegexSplit { re: r"[ \t]+".to_string() })
        .unwrap();
    let b = batch(&[b"cheese"]);
    assert_eq!(p.apply(&b), vec![b]);
}

#[test]
fn counters_render_in_decimal() {
    assert_eq!(nekton::strutil::u64_to_dec(0), "0");
    assert_eq!(nekton::strutil::u64_to_dec(42), "42");
    assert_eq!(nekton::strutil::u64_to_dec(9876543210), "9876543210");
}

#[test]
fn config_errors_describe_themselves() {
    assert_eq!(
        ConfigError::UnknownKind("zmq".to_string()).describe(),
        "unknown component type: zmq",
    );
    assert_eq!(
        PipelineError::Sink("timeout".to_string()).describe(),
        "sink error: timeout",
    );
}
