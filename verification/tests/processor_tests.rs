//! The substring-replace processor and the external-command transform.

use nekton::processors::{
    compile_processor, subprocess_input, subprocess_output_batch, CompiledProcessor,
    ProcessorConfig,
};
use nekton::{Message, MessageBatch};

fn message(data: &[u8]) -> Message {
    Message { data: data.to_vec(), metadata: Vec::new() }
}

fn batch(payloads: &[&[u8]]) -> MessageBatch {
    MessageBatch {
        messages: payloads.iter().map(|d| message(d)).collect(),
        metadata: Vec::new(),
    }
}

fn run_processor(p: &CompiledProcessor, inputs: Vec<MessageBatch>) -> Vec<MessageBatch> {
    let mut out = Vec::new();
    for b in &inputs {
        out.extend(p.apply(b));
    }
    out
}

fn replace_processor(from: &str, to: &str) -> CompiledProcessor {
    compile_processor(&ProcessorConfig::Replace { from: from.to_string(), to: to.to_string() })
        .unwrap()
}

fn run_command(name: &str, args: &[&str], inputs: Vec<MessageBatch>) -> Vec<MessageBatch> {
    inputs
        .iter()
        .map(|b| {
            let input = subprocess_input(b);
            let output = duct::cmd(name, args.iter().copied())
                .stdin_bytes(input)
                .stdout_capture()
                .run()
                .expect("failed to execute child");
            subprocess_output_batch(b.metadata.clone(), &output.stdout)
        })
        .collect()
}

#[test]
fn process_replace_message_test() {
    assert_eq!(
        run_processor(&replace_processor("ee", "oo"), vec![batch(&[b"cheese|geese"])]),
        vec![batch(&[b"choose|goose"])],
    );
}

#[test]
fn process_replace_message_batch_test() {
    assert_eq!(
        run_processor(
            &replace_processor("ee", "oo"),
            vec![batch(&[b"cheese|geese"]), batch(&[b"cheese|geese"])],
        ),
        vec![batch(&[b"choose|goose"]), batch(&[b"choose|goose"])],
    );
}

#[test]
fn process_awk_split_message_test() {
    assert_eq!(
        run_command(
            "awk",
            &["-v", "RS=[,\n]", "{a=$0; print a}", "OFS=,"],
            vec![batch(&[b"hello,world,cheese"])],
        ),
        vec![batch(&[b"hello", b"world", b"cheese"])],
    );
}

#[test]
fn process_awk_split_message_batch_test() {
    assert_eq!(
        run_command(
            "awk",
            &["-v", "RS=[,\n]", "{a=$0; print a}", "OFS=,"],
            vec![batch(&[b"a,b,c"]), batch(&[b"d,e,f"])],
        ),
        vec![batch(&[b"a", b"b", b"c"]), batch(&[b"d", b"e", b"f"])],
    );
}

#[test]
fn replace_empty_pattern_interleaves() {
    // the standard substring semantics: an empty needle puts the replacement
    // before every byte and at the end
    assert_eq!(
        run_processor(&replace_processor("", "-"), vec![batch(&[b"ab"])]),
        vec![batch(&[b"-a-b-"])],
    );
}

#[test]
fn replace_empty_pattern_respects_character_boundaries() {
    // a two-byte character is not torn apart by the empty-needle interleave
    let two_byte_char = vec![0xc3u8, 0xa9u8];
    let out = run_processor(
        &replace_processor("", "-"),
        vec![MessageBatch {
            messages: vec![Message { data: two_byte_char, metadata: Vec::new() }],
            metadata: Vec::new(),
        }],
    );
    assert_eq!(out[0].messages[0].data, vec![b'-', 0xc3u8, 0xa9u8, b'-']);
}

#[test]
fn replace_keeps_metadata_and_count() {
    let mut b = batch(&[b"see", b"bee"]);
    b.metadata.push(("origin".to_string(), "test".to_string()));
    b.messages[0].metadata.push(("k".to_string(), "v".to_string()));
    let out = run_processor(&replace_processor("ee", "oo"), vec![b]);
    assert_eq!(out.len(), 1);
    assert_eq!(out[0].metadata, vec![("origin".to_string(), "test".to_string())]);
    assert_eq!(out[0].messages.len(), 2);
    assert_eq!(out[0].messages[0].data, b"soo".to_vec());
    assert_eq!(out[0].messages[0].metadata, vec![("k".to_string(), "v".to_string())]);
    assert_eq!(out[0].messages[1].data, b"boo".to_vec());
}

#[test]
fn noop_preserves_batches() {
    let p = compile_processor(&ProcessorConfig::Noop).unwrap();
    let b = batch(&[b"hello", b"world"]);
    assert_eq!(run_processor(&p, vec![b.clone()]), vec![b]);
}

#[test]
fn subprocess_input_joins_with_newlines() {
    assert_eq!(subprocess_input(&batch(&[b"a", b"b", b"c"])), b"a\nb\nc\n".to_vec());
    assert_eq!(subprocess_input(&batch(&[])), b"\n".to_vec());
}

#[test]
fn subprocess_output_drops_empty_tokens() {
    let out = subprocess_output_batch(Vec::new(), b"hello\n\nworld\n");
    assert_eq!(out, batch(&[b"hello", b"world"]));
}
