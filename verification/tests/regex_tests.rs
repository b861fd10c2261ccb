//! The pattern-based replace, split and select processors.

use nekton::processors::{compile_processor, CompiledProcessor, ProcessorConfig};
use nekton::{Message, MessageBatch};

fn message(data: &[u8]) -> Message {
    Message { data: data.to_vec(), metadata: Vec::new() }
}

fn batch(payloads: &[&[u8]]) -> MessageBatch {
    MessageBatch {
        messages: payloads.iter().map(|d| message(d)).collect(),
        metadata: Vec::new(),
    }
}

fn run_processor(p: &CompiledProcessor, inputs: Vec<MessageBatch>) -> Vec<MessageBatch> {
    let mut out = Vec::new();
    for b in &inputs {
        out.extend(p.apply(b));
    }
    out
}

fn regex_replace(re: &str, rep: &str) -> CompiledProcessor {
    compile_processor(&ProcessorConfig::RegexReplace { re: re.to_string(), rep: rep.to_string() })
        .unwrap()
}

fn regex_split(re: &str) -> CompiledProcessor {
    compile_processor(&ProcessorConfig::RegexSplit { re: re.to_string() }).unwrap()
}

fn regex_select(re: &str) -> CompiledProcessor {
    compile_processor(&ProcessorConfig::RegexSelect { re: re.to_string() }).unwrap()
}

#[test]
fn process_regex_replace_message_test() {
    assert_eq!(
        run_processor(
            &regex_replace(r"(?P<y>\d{4})-(?P<m>\d{2})-(?P<d>\d{2})", "$m/$d/$y"),
            vec![batch(&[b"2012-03-14, 2013-01-15 and 2014-07-05"])],
        ),
        vec![batch(&[b"03/14/2012, 01/15/2013 and 07/05/2014"])],
    );
}

#[test]
fn process_regex_replace_message_batch_test() {
    assert_eq!(
        run_processor(
            &regex_replace(r"(?P<y>\d{4})-(?P<m>\d{2})-(?P<d>\d{2})", "$m/$d/$y"),
            vec![
                batch(&[b"2012-03-14, 2013-01-15 and 2014-07-05"]),
                batch(&[b"2014-07-05, 2012-03-14 and 2013-01-15"]),
            ],
        ),
        vec![
            batch(&[b"03/14/2012, 01/15/2013 and 07/05/2014"]),
            batch(&[b"07/05/2014, 03/14/2012 and 01/15/2013"]),
        ],
    );
}

#[test]
fn process_regex_split_message_test() {
    assert_eq!(
        run_processor(&regex_split(r"[ \t]+"), vec![batch(&[b"cheese\tcheese"])]),
        vec![batch(&[b"cheese", b"cheese"])],
    );
}

#[test]
fn process_regex_split_message_batch_test() {
    assert_eq!(
        run_processor(
            &regex_split(r"[ \t]+"),
            vec![batch(&[b"cheese\tcheese"]), batch(&[b"bacon\tbacon"])],
        ),
        vec![batch(&[b"cheese", b"cheese"]), batch(&[b"bacon", b"bacon"])],
    );
}

#[test]
fn process_regex_select_message_test() {
    assert_eq!(
        run_processor(
            &regex_select(r"\#[a-zA-Z][0-9a-zA-Z_]*"),
            vec![batch(&[b"hello #cheese #world"])],
        ),
        vec![batch(&[b"#cheese", b"#world"])],
    );
}

#[test]
fn process_regex_select_message_batch_test() {
    assert_eq!(
        run_processor(
            &regex_select(r"\#[a-zA-Z][0-9a-zA-Z_]*"),
            vec![batch(&[b"hello #cheese"]), batch(&[b"cheese #world"])],
        ),
        vec![batch(&[b"#cheese"]), batch(&[b"#world"])],
    );
}

#[test]
fn invalid_pattern_is_rejected() {
    let r = compile_processor(&ProcessorConfig::RegexSplit { re: "foo(bar".to_string() });
    match r {
        Err(nekton::errors::ConfigError::InvalidPattern(s)) => assert_eq!(s, "foo(bar"),
        _ => panic!("an unclosed group must be rejected"),
    }
}
