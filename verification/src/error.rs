//! Typed engine errors. Nothing here panics; the batch loop turns these into per-file
//! `Failed`/`Unreachable` outcomes so one bad file never aborts a job.
use vstd::prelude::*;
use crate::text::{push_str, string_of};

verus! {

#[derive(Debug)]
pub enum EngineError {
    /// Reading or writing `path` failed; `message` is the operating system's description.
    Io { path: String, message: String },
    Decode(String),
    Encode(String),
    Resize(String),
}

/// The human-readable text of an error.
pub open spec fn error_text(e: EngineError) -> Seq<char> {
    match e {
        EngineError::Io { path, message } => "I/O error for "@ + path@ + ": "@ + message@,
        EngineError::Decode(m) => "could not decode image: "@ + m@,
        EngineError::Encode(m) => "could not encode image: "@ + m@,
        EngineError::Resize(m) => "resize failed: "@ + m@,
    }
}

impl EngineError {
    /// The human-readable text of this error.
    pub fn message(&self) -> (r: String)
        ensures
            r@ == error_text(*self),
    {
        let mut out: Vec<char> = Vec::new();
        match self {
            EngineError::Io { path, message } => {
                push_str(&mut out, "I/O error for ");
                push_str(&mut out, path.as_str());
                push_str(&mut out, ": ");
                push_str(&mut out, message.as_str());
            },
            EngineError::Decode(m) => {
                push_str(&mut out, "could not decode image: ");
                push_str(&mut out, m.as_str());
            },
            EngineError::Encode(m) => {
                push_str(&mut out, "could not encode image: ");
                push_str(&mut out, m.as_str());
            },
            EngineError::Resize(m) => {
                push_str(&mut out, "resize failed: ");
                push_str(&mut out, m.as_str());
            },
        }
        string_of(&out)
    }
}

} // verus!
