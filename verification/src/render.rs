//! From a parsed document to the JSON text that is handed on.

use vstd::prelude::*;
use crate::emit::{emit, emitted};
use crate::json::Json;
use crate::node::MyNode;
use crate::value::{error_message, json_of, pretty_text, to_string_pretty};

verus! {

/// Why no JSON text was produced.
#[derive(Debug, PartialEq, Eq)]
pub enum EmitError {
    /// The parser refused the source text. Its message stands here unchanged.
    Parse(String),
    /// The JSON value could not be written as text. The message is the
    /// writer's.
    Render(String),
}

/// Whether `result` is what writing `json` as text may return: the text of
/// the value, or a rendering error where the value has none.
pub open spec fn is_text_of(json: Json, result: Result<String, EmitError>) -> bool {
    match result {
        Ok(text) => pretty_text(json) == Some(text@),
        Err(error) => error is Render && pretty_text(json) is None,
    }
}

/// Whether `result` is what a document may end in: the parser's refusal
/// handed on unchanged, or else the text of what is written for the tree.
pub open spec fn is_outcome_of(
    parsed: Result<MyNode, String>,
    result: Result<String, EmitError>,
) -> bool {
    match parsed {
        Ok(node) => is_text_of(emitted(node), result),
        Err(message) => result == Err::<String, EmitError>(EmitError::Parse(message)),
    }
}

/// Hands on what the writer returned: its text as it is, its refusal as a
/// rendering error.
pub fn text_or_error(outcome: Result<String, serde_json::Error>) -> (result: Result<
    String,
    EmitError,
>)
    ensures
        match outcome {
            Ok(text) => result == Ok::<String, EmitError>(text),
            Err(_) => result is Err && result->Err_0 is Render,
        },
{
    match outcome {
        Ok(text) => Ok(text),
        Err(error) => Err(EmitError::Render(error_message(&error))),
    }
}

/// Writes a JSON value as indented text.
pub fn to_pretty_text(value: &serde_json::Value) -> (result: Result<String, EmitError>)
    ensures
        is_text_of(json_of(*value), result),
{
    text_or_error(to_string_pretty(value))
}

/// Projects a syntax tree and writes the result as indented text.
pub fn emit_text(node: &MyNode) -> (result: Result<String, EmitError>)
    ensures
        is_text_of(emitted(*node), result),
{
    let value = emit(node);
    to_pretty_text(&value)
}

/// Takes what the parser returned for a document. A refusal is handed on
/// unchanged and nothing is written; a tree is projected and written as
/// indented text.
pub fn emit_document(parsed: Result<MyNode, String>) -> (result: Result<String, EmitError>)
    ensures
        is_outcome_of(parsed, result),
{
    match parsed {
        Ok(node) => emit_text(&node),
        Err(message) => Err(EmitError::Parse(message)),
    }
}

} // verus!
