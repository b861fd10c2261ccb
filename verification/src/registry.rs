//! The component registry: a configuration descriptor names its kind with a
//! `type` discriminator and carries the kind's fields; the registry turns
//! the discriminator plus fields into the concrete source, processor or sink
//! descriptor — or says exactly why it cannot.

use vstd::prelude::*;

use crate::errors::ConfigError;
use crate::processors::{ConfigView, ProcessorConfig};
use crate::proximo::{spec_parse_offset, Offset};
use crate::strutil::{assoc_get, spec_assoc, str_eq};

verus! {

use vstd::string::StringExecFns;

/// The fields of one component descriptor, by kind: plain strings, string
/// lists, and string-to-string maps.
pub struct ComponentParams {
    /// String-valued fields.
    pub strings: Vec<(String, String)>,
    /// List-valued fields.
    pub lists: Vec<(String, Vec<String>)>,
    /// Map-valued fields, kept as ordered pairs.
    pub maps: Vec<(String, Vec<(String, String)>)>,
}

/// A source descriptor: which feed to read, and how.
pub enum SourceConfig {
    /// One batch per line of the console input.
    Stdin,
    /// One batch per accepted request on an ingestion endpoint.
    HttpServer { address: String, path: String },
    /// One batch per record consumed from broker topics.
    Kafka { topics: Vec<String>, config: Vec<(String, String)> },
    /// One batch per record consumed over a duplex stream.
    Proximo { endpoint: String, topic: String, consumer: String, initial_offset: Offset },
}

/// The mathematical value of a `SourceConfig`.
pub enum SourceConfigView {
    Stdin,
    HttpServer { address: Seq<char>, path: Seq<char> },
    Kafka { topics: Seq<Seq<char>>, config: Seq<(Seq<char>, Seq<char>)> },
    Proximo { endpoint: Seq<char>, topic: Seq<char>, consumer: Seq<char>, initial_offset: Offset },
}

impl View for SourceConfig {
    type V = SourceConfigView;

    open spec fn view(&self) -> SourceConfigView {
        match self {
            SourceConfig::Stdin => SourceConfigView::Stdin,
            SourceConfig::HttpServer { address, path } => SourceConfigView::HttpServer {
                address: address@,
                path: path@,
            },
            SourceConfig::Kafka { topics, config } => SourceConfigView::Kafka {
                topics: topics.deep_view(),
                config: config.deep_view(),
            },
            SourceConfig::Proximo { endpoint, topic, consumer, initial_offset } => {
                SourceConfigView::Proximo {
                    endpoint: endpoint@,
                    topic: topic@,
                    consumer: consumer@,
                    initial_offset: *initial_offset,
                }
            },
        }
    }
}

/// A sink descriptor: where processed batches are delivered.
pub enum SinkConfig {
    /// Every payload printed as one console line.
    Stdout,
    /// Each message produced to a broker topic, keyed by `partition_key`.
    Kafka { topic: String, config: Vec<(String, String)> },
    /// Each message published over a duplex stream and confirmed by id.
    Proximo { endpoint: String, topic: String },
}

/// The mathematical value of a `SinkConfig`.
pub enum SinkConfigView {
    Stdout,
    Kafka { topic: Seq<char>, config: Seq<(Seq<char>, Seq<char>)> },
    Proximo { endpoint: Seq<char>, topic: Seq<char> },
}

impl View for SinkConfig {
    type V = SinkConfigView;

    open spec fn view(&self) -> SinkConfigView {
        match self {
            SinkConfig::Stdout => SinkConfigView::Stdout,
            SinkConfig::Kafka { topic, config } => SinkConfigView::Kafka {
                topic: topic@,
                config: config.deep_view(),
            },
            SinkConfig::Proximo { endpoint, topic } => SinkConfigView::Proximo {
                endpoint: endpoint@,
                topic: topic@,
            },
        }
    }
}

/// A whole pipeline specification: one source, an ordered processor chain,
/// one sink. Parsed once at startup, then turned into live components.
pub struct PipelineSpec {
    /// The one source.
    pub input: SourceConfig,
    /// The processor chain, in order.
    pub pipeline: Vec<ProcessorConfig>,
    /// The one sink.
    pub output: SinkConfig,
}

/// What `build_processor` answers for a discriminator and fields.
pub open spec fn spec_build_processor(
    tag: Seq<char>,
    strings: Seq<(Seq<char>, Seq<char>)>,
    lists: Seq<(Seq<char>, Seq<Seq<char>>)>,
) -> Result<ConfigView, Seq<char>> {
    if tag == "noop"@ {
        Ok(ConfigView::Noop)
    } else if tag == "replace"@ {
        match (spec_assoc(strings, "from"@), spec_assoc(strings, "to"@)) {
            (Some(f), Some(t)) => Ok(ConfigView::Replace { from: f, to: t }),
            (None, _) => Err("from"@),
            (_, None) => Err("to"@),
        }
    } else if tag == "regex_replace"@ {
        match (spec_assoc(strings, "re"@), spec_assoc(strings, "rep"@)) {
            (Some(re), Some(rep)) => Ok(ConfigView::RegexReplace { re, rep }),
            (None, _) => Err("re"@),
            (_, None) => Err("rep"@),
        }
    } else if tag == "regex_split"@ {
        match spec_assoc(strings, "re"@) {
            Some(re) => Ok(ConfigView::RegexSplit { re }),
            None => Err("re"@),
        }
    } else if tag == "regex_select"@ {
        match spec_assoc(strings, "re"@) {
            Some(re) => Ok(ConfigView::RegexSelect { re }),
            None => Err("re"@),
        }
    } else if tag == "process"@ {
        match (spec_assoc(strings, "name"@), spec_assoc(lists, "args"@)) {
            (Some(name), Some(args)) => Ok(ConfigView::Subprocess { name, args }),
            (None, _) => Err("name"@),
            (_, None) => Err("args"@),
        }
    } else {
        Err(tag)
    }
}

/// Whether a discriminator names a processor kind at all.
pub open spec fn processor_tag_known(tag: Seq<char>) -> bool {
    ||| tag == "noop"@
    ||| tag == "replace"@
    ||| tag == "regex_replace"@
    ||| tag == "regex_split"@
    ||| tag == "regex_select"@
    ||| tag == "process"@
}

/// Builds the processor descriptor a discriminator names, from its fields:
/// an unknown discriminator or a missing field is rejected, by name.
pub fn build_processor(tag: &str, params: &ComponentParams) -> (r: Result<
    ProcessorConfig,
    ConfigError,
>)
    ensures
        match r {
            Ok(c) => spec_build_processor(
                tag@,
                params.strings.deep_view(),
                params.lists.deep_view(),
            ) == Ok::<ConfigView, Seq<char>>(c@),
            Err(e) => {
                &&& spec_build_processor(
                    tag@,
                    params.strings.deep_view(),
                    params.lists.deep_view(),
                ) matches Err(w)
                &&& if processor_tag_known(tag@) {
                    e matches ConfigError::MissingField(s) && s@ == w
                } else {
                    e matches ConfigError::UnknownKind(s) && s@ == w
                }
            },
        },
{
    if str_eq(tag, "noop") {
        Ok(ProcessorConfig::Noop)
    } else if str_eq(tag, "replace") {
        let from = match assoc_get(&params.strings, "from") {
            Some(v) => v.clone(),
            None => {
                return Err(ConfigError::MissingField(String::from_str("from")));
            },
        };
        let to = match assoc_get(&params.strings, "to") {
            Some(v) => v.clone(),
            None => {
                return Err(ConfigError::MissingField(String::from_str("to")));
            },
        };
        Ok(ProcessorConfig::Replace { from, to })
    } else if str_eq(tag, "regex_replace") {
        let re = match assoc_get(&params.strings, "re") {
            Some(v) => v.clone(),
            None => {
                return Err(ConfigError::MissingField(String::from_str("re")));
            },
        };
        let rep = match assoc_get(&params.strings, "rep") {
            Some(v) => v.clone(),
            None => {
                return Err(ConfigError::MissingField(String::from_str("rep")));
            },
        };
        Ok(ProcessorConfig::RegexReplace { re, rep })
    } else if str_eq(tag, "regex_split") {
        match assoc_get(&params.strings, "re") {
            Some(v) => Ok(ProcessorConfig::RegexSplit { re: v.clone() }),
            None => Err(ConfigError::MissingField(String::from_str("re"))),
        }
    } else if str_eq(tag, "regex_select") {
        match assoc_get(&params.strings, "re") {
            Some(v) => Ok(ProcessorConfig::RegexSelect { re: v.clone() }),
            None => Err(ConfigError::MissingField(String::from_str("re"))),
        }
    } else if str_eq(tag, "process") {
        let name = match assoc_get(&params.strings, "name") {
            Some(v) => v.clone(),
            None => {
                return Err(ConfigError::MissingField(String::from_str("name")));
            },
        };
        let args = match assoc_get(&params.lists, "args") {
            Some(v) => clone_string_list(v),
            None => {
                return Err(ConfigError::MissingField(String::from_str("args")));
            },
        };
        Ok(ProcessorConfig::Subprocess { name, args })
    } else {
        Err(ConfigError::UnknownKind(tag.to_owned()))
    }
}

/// Copies a list of strings.
pub fn clone_string_list(v: &Vec<String>) -> (r: Vec<String>)
    ensures
        r@ == v@,
        r.deep_view() == v.deep_view(),
{
    let mut r: Vec<String> = Vec::new();
    let mut i: usize = 0;
    while i < v.len()
        invariant
            0 <= i <= v.len(),
            r@ == v@.take(i as int),
        decreases v.len() - i,
    {
        r.push(v[i].clone());
        proof {
            assert(v@.take(i as int).push(v@[i as int]) =~= v@.take(i as int + 1));
        }
        i = i + 1;
    }
    proof {
        assert(v@.take(i as int) =~= v@);
        assert(r.deep_view() =~= v.deep_view());
    }
    r
}

/// What `build_source` answers for a discriminator and fields.
pub open spec fn spec_build_source(
    tag: Seq<char>,
    strings: Seq<(Seq<char>, Seq<char>)>,
    lists: Seq<(Seq<char>, Seq<Seq<char>>)>,
    maps: Seq<(Seq<char>, Seq<(Seq<char>, Seq<char>)>)>,
) -> Result<SourceConfigView, Seq<char>> {
    if tag == "stdin"@ {
        Ok(SourceConfigView::Stdin)
    } else if tag == "http_server"@ {
        match (spec_assoc(strings, "address"@), spec_assoc(strings, "path"@)) {
            (Some(address), Some(path)) => Ok(SourceConfigView::HttpServer { address, path }),
            (None, _) => Err("address"@),
            (_, None) => Err("path"@),
        }
    } else if tag == "kafka"@ {
        match (spec_assoc(lists, "topics"@), spec_assoc(maps, "config"@)) {
            (Some(topics), Some(config)) => Ok(SourceConfigView::Kafka { topics, config }),
            (None, _) => Err("topics"@),
            (_, None) => Err("config"@),
        }
    } else if tag == "proximo"@ {
        match (
            spec_assoc(strings, "endpoint"@),
            spec_assoc(strings, "topic"@),
            spec_assoc(strings, "consumer"@),
            spec_assoc(strings, "initial_offset"@),
        ) {
            (Some(endpoint), Some(topic), Some(consumer), Some(word)) => match spec_parse_offset(
                word,
            ) {
                Some(initial_offset) => Ok(
                    SourceConfigView::Proximo { endpoint, topic, consumer, initial_offset },
                ),
                None => Err(word),
            },
            (None, _, _, _) => Err("endpoint"@),
            (_, None, _, _) => Err("topic"@),
            (_, _, None, _) => Err("consumer"@),
            (_, _, _, None) => Err("initial_offset"@),
        }
    } else {
        Err(tag)
    }
}

/// Which rejection `build_source` gives for a failing discriminator.
pub open spec fn source_failure_kind(
    tag: Seq<char>,
    strings: Seq<(Seq<char>, Seq<char>)>,
) -> int {
    if !(tag == "stdin"@ || tag == "http_server"@ || tag == "kafka"@ || tag == "proximo"@) {
        0  // unknown kind
    } else if tag == "proximo"@ && spec_assoc(strings, "endpoint"@) is Some && spec_assoc(
        strings,
        "topic"@,
    ) is Some && spec_assoc(strings, "consumer"@) is Some && (match spec_assoc(
        strings,
        "initial_offset"@,
    ) {
        Some(w) => spec_parse_offset(w) is None,
        None => false,
    }) {
        2  // every field is present, but the offset word is invalid
    } else {
        1  // a required field is missing
    }
}

/// Builds the source descriptor a discriminator names, from its fields.
pub fn build_source(tag: &str, params: &ComponentParams) -> (r: Result<SourceConfig, ConfigError>)
    ensures
        match r {
            Ok(c) => spec_build_source(
                tag@,
                params.strings.deep_view(),
                params.lists.deep_view(),
                params.maps.deep_view(),
            ) == Ok::<SourceConfigView, Seq<char>>(c@),
            Err(e) => {
                &&& spec_build_source(
                    tag@,
                    params.strings.deep_view(),
                    params.lists.deep_view(),
                    params.maps.deep_view(),
                ) matches Err(w)
                &&& {
                    let kind = source_failure_kind(tag@, params.strings.deep_view());
                    if kind == 0 {
                        e matches ConfigError::UnknownKind(s) && s@ == w
                    } else if kind == 2 {
                        e matches ConfigError::InvalidOffset(s) && s@ == w
                    } else {
                        e matches ConfigError::MissingField(s) && s@ == w
                    }
                }
            },
        },
{
    proof {
        reveal_strlit("stdin");
        reveal_strlit("http_server");
        reveal_strlit("kafka");
        reveal_strlit("proximo");
        assert("stdin"@.len() == 5);
        assert("http_server"@.len() == 11);
        assert("kafka"@.len() == 5);
        assert("proximo"@.len() == 7);
        assert("stdin"@ != "proximo"@);
        assert("http_server"@ != "proximo"@);
        assert("kafka"@ != "proximo"@);
    }
    if str_eq(tag, "stdin") {
        Ok(SourceConfig::Stdin)
    } else if str_eq(tag, "http_server") {
        let address = match assoc_get(&params.strings, "address") {
            Some(v) => v.clone(),
            None => {
                return Err(ConfigError::MissingField(String::from_str("address")));
            },
        };
        let path = match assoc_get(&params.strings, "path") {
            Some(v) => v.clone(),
            None => {
                return Err(ConfigError::MissingField(String::from_str("path")));
            },
        };
        Ok(SourceConfig::HttpServer { address, path })
    } else if str_eq(tag, "kafka") {
        let topics = match assoc_get(&params.lists, "topics") {
            Some(v) => clone_string_list(v),
            None => {
                return Err(ConfigError::MissingField(String::from_str("topics")));
            },
        };
        let config = match assoc_get(&params.maps, "config") {
            Some(v) => crate::clone_metadata(v),
            None => {
                return Err(ConfigError::MissingField(String::from_str("config")));
            },
        };
        Ok(SourceConfig::Kafka { topics, config })
    } else if str_eq(tag, "proximo") {
        let endpoint = match assoc_get(&params.strings, "endpoint") {
            Some(v) => v.clone(),
            None => {
                return Err(ConfigError::MissingField(String::from_str("endpoint")));
            },
        };
        let topic = match assoc_get(&params.strings, "topic") {
            Some(v) => v.clone(),
            None => {
                return Err(ConfigError::MissingField(String::from_str("topic")));
            },
        };
        let consumer = match assoc_get(&params.strings, "consumer") {
            Some(v) => v.clone(),
            None => {
                return Err(ConfigError::MissingField(String::from_str("consumer")));
            },
        };
        let word = match assoc_get(&params.strings, "initial_offset") {
            Some(v) => v.clone(),
            None => {
                return Err(ConfigError::MissingField(String::from_str("initial_offset")));
            },
        };
        match Offset::parse_str(word.as_str()) {
            Some(initial_offset) => Ok(
                SourceConfig::Proximo { endpoint, topic, consumer, initial_offset },
            ),
            None => Err(ConfigError::InvalidOffset(word)),
        }
    } else {
        Err(ConfigError::UnknownKind(tag.to_owned()))
    }
}

/// What `build_sink` answers for a discriminator and fields.
pub open spec fn spec_build_sink(
    tag: Seq<char>,
    strings: Seq<(Seq<char>, Seq<char>)>,
    maps: Seq<(Seq<char>, Seq<(Seq<char>, Seq<char>)>)>,
) -> Result<SinkConfigView, Seq<char>> {
    if tag == "stdout"@ {
        Ok(SinkConfigView::Stdout)
    } else if tag == "kafka"@ {
        match (spec_assoc(strings, "topic"@), spec_assoc(maps, "config"@)) {
            (Some(topic), Some(config)) => Ok(SinkConfigView::Kafka { topic, config }),
            (None, _) => Err("topic"@),
            (_, None) => Err("config"@),
        }
    } else if tag == "proximo"@ {
        match (spec_assoc(strings, "endpoint"@), spec_assoc(strings, "topic"@)) {
            (Some(endpoint), Some(topic)) => Ok(SinkConfigView::Proximo { endpoint, topic }),
            (None, _) => Err("endpoint"@),
            (_, None) => Err("topic"@),
        }
    } else {
        Err(tag)
    }
}

/// Whether a discriminator names a sink kind at all.
pub open spec fn sink_tag_known(tag: Seq<char>) -> bool {
    ||| tag == "stdout"@
    ||| tag == "kafka"@
    ||| tag == "proximo"@
}

/// Builds the sink descriptor a discriminator names, from its fields.
pub fn build_sink(tag: &str, params: &ComponentParams) -> (r: Result<SinkConfig, ConfigError>)
    ensures
        match r {
            Ok(c) => spec_build_sink(
                tag@,
                params.strings.deep_view(),
                params.maps.deep_view(),
            ) == Ok::<SinkConfigView, Seq<char>>(c@),
            Err(e) => {
                &&& spec_build_sink(
                    tag@,
                    params.strings.deep_view(),
                    params.maps.deep_view(),
                ) matches Err(w)
                &&& if sink_tag_known(tag@) {
                    e matches ConfigError::MissingField(s) && s@ == w
                } else {
                    e matches ConfigError::UnknownKind(s) && s@ == w
                }
            },
        },
{
    if str_eq(tag, "stdout") {
        Ok(SinkConfig::Stdout)
    } else if str_eq(tag, "kafka") {
        let topic = match assoc_get(&params.strings, "topic") {
            Some(v) => v.clone(),
            None => {
                return Err(ConfigError::MissingField(String::from_str("topic")));
            },
        };
        let config = match assoc_get(&params.maps, "config") {
            Some(v) => crate::clone_metadata(v),
            None => {
                return Err(ConfigError::MissingField(String::from_str("config")));
            },
        };
        Ok(SinkConfig::Kafka { topic, config })
    } else if str_eq(tag, "proximo") {
        let endpoint = match assoc_get(&params.strings, "endpoint") {
            Some(v) => v.clone(),
            None => {
                return Err(ConfigError::MissingField(String::from_str("endpoint")));
            },
        };
        let topic = match assoc_get(&params.strings, "topic") {
            Some(v) => v.clone(),
            None => {
                return Err(ConfigError::MissingField(String::from_str("topic")));
            },
        };
        Ok(SinkConfig::Proximo { endpoint, topic })
    } else {
        Err(ConfigError::UnknownKind(tag.to_owned()))
    }
}

} // verus!
