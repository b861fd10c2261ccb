//! Error types of the pipeline. Configuration errors arise while a pipeline
//! is assembled; pipeline errors arise while a transaction is driven through
//! it, and fail that transaction only.

use vstd::prelude::*;

verus! {

use vstd::string::StringExecFns;

/// Why a pipeline specification could not be turned into live components.
#[derive(Debug)]
pub enum ConfigError {
    /// The `type` discriminator of a component descriptor names no known kind.
    UnknownKind(String),
    /// A field the named component kind needs is absent.
    MissingField(String),
    /// A regular-expression field does not compile.
    InvalidPattern(String),
    /// An initial-offset field holds none of the recognized words.
    InvalidOffset(String),
}

impl ConfigError {
    /// A human-readable account of the error.
    pub fn describe(&self) -> (r: String)
        ensures
            match self {
                ConfigError::UnknownKind(s) => r@ == "unknown component type: "@ + s@,
                ConfigError::MissingField(s) => r@ == "missing field: "@ + s@,
                ConfigError::InvalidPattern(s) => r@ == "invalid pattern: "@ + s@,
                ConfigError::InvalidOffset(s) => r@ == "invalid initial offset: "@ + s@,
            },
    {
        match self {
            ConfigError::UnknownKind(s) => String::from_str("unknown component type: ").concat(
                s.as_str(),
            ),
            ConfigError::MissingField(s) => String::from_str("missing field: ").concat(
                s.as_str(),
            ),
            ConfigError::InvalidPattern(s) => String::from_str("invalid pattern: ").concat(
                s.as_str(),
            ),
            ConfigError::InvalidOffset(s) => String::from_str("invalid initial offset: ").concat(
                s.as_str(),
            ),
        }
    }
}

/// Why a transaction failed. A failed transaction is not acknowledged, so the
/// source does not advance past the unit that produced it.
#[derive(Debug)]
pub enum PipelineError {
    /// The upstream feed failed; terminal for the whole run.
    Source(String),
    /// A processor stage rejected the batch.
    Processor(String),
    /// The sink could not deliver the batch downstream.
    Sink(String),
}

impl PipelineError {
    /// A human-readable account of the error.
    pub fn describe(&self) -> (r: String)
        ensures
            match self {
                PipelineError::Source(s) => r@ == "source error: "@ + s@,
                PipelineError::Processor(s) => r@ == "processor error: "@ + s@,
                PipelineError::Sink(s) => r@ == "sink error: "@ + s@,
            },
    {
        match self {
            PipelineError::Source(s) => String::from_str("source error: ").concat(s.as_str()),
            PipelineError::Processor(s) => String::from_str("processor error: ").concat(
                s.as_str(),
            ),
            PipelineError::Sink(s) => String::from_str("sink error: ").concat(s.as_str()),
        }
    }
}

} // verus!
