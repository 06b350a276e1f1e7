//! The payloads of the messages, which travel as JSON text. `serde_json`
//! decodes and encodes them, by the types that `lsp_types` gives them. What
//! it makes of a text is named here, not spelled out: the functions below
//! hand back what it returned, and say no more of it than its name.
//!
//! Every payload that is decoded names a document by its URI, and the parser
//! of URIs panics on a text that takes more than `i32::MAX` bytes. A payload
//! of at most that many bytes holds no such text, so the decoding functions
//! take no longer one.

use crate::document::{ContentChange, ContentChangeView, Position, Range};
use crate::hover::{Hover, HoverView};
use vstd::prelude::*;
use vstd::string::*;

verus! {

/// The identifier of a request, `lsp_server::RequestId`: a number or a text.
/// It is carried from a request to its response and never looked into.
#[verifier::external_type_specification]
#[verifier::external_body]
pub struct ExRequestId(lsp_server::RequestId);

/// The text of the opened document that `serde_json::from_str` reads from
/// `params` as `lsp_types::DidOpenTextDocumentParams`; `None` where it
/// refuses `params`.
pub uninterp spec fn did_open_text(params: Seq<char>) -> Option<Seq<char>>;

/// The content changes that `serde_json::from_str` reads from `params` as
/// `lsp_types::DidChangeTextDocumentParams`, in their order; `None` where it
/// refuses `params`.
pub uninterp spec fn did_change_events(params: Seq<char>) -> Option<Seq<ContentChangeView>>;

/// Whether `serde_json::from_str` accepts `params` as
/// `lsp_types::CompletionParams`.
pub uninterp spec fn is_completion_payload(params: Seq<char>) -> bool;

/// The line of the cursor that `serde_json::from_str` reads from `params` as
/// `lsp_types::HoverParams`; `None` where it refuses `params`.
pub uninterp spec fn hover_line(params: Seq<char>) -> Option<u32>;

/// The JSON text that `serde_json::to_string` gives for the
/// `lsp_types::Hover` with the fields of `hover`: its contents a scalar, the
/// plain string `hover.contents`, and its range `hover.range`.
pub uninterp spec fn hover_json(hover: HoverView) -> Seq<char>;

/// The JSON text that `serde_json::to_string` gives for an
/// `lsp_types::CompletionResponse` that is an array of items, one for each of
/// `labels` and with nothing but that label.
pub uninterp spec fn completions_json(labels: Seq<Seq<char>>) -> Seq<char>;

/// Whether a payload is short enough to be decoded: whether its text takes
/// at most `i32::MAX` bytes.
pub open spec fn decodable(params: Seq<char>) -> bool {
    vstd::utf8::encode_utf8(params).len() <= i32::MAX
}

/// Calls `serde_json::from_str` for `lsp_types::DidOpenTextDocumentParams`
/// and picks the document's text. The contract names the outcome, and keeps
/// out the payloads on which the parser of URIs can panic.
#[verifier::external_body]
pub(crate) fn parse_did_open(params: &str) -> (text: Option<String>)
    requires
        params.spec_bytes().len() <= i32::MAX,
    ensures
        text.deep_view() == did_open_text(params@),
{
    match serde_json::from_str::<lsp_types::DidOpenTextDocumentParams>(params) {
        Ok(opened) => Some(opened.text_document.text),
        Err(_) => None,
    }
}

/// Calls `serde_json::from_str` for `lsp_types::DidChangeTextDocumentParams`
/// and hands out its content changes, field by field. The contract names the
/// outcome, and keeps out the payloads on which the parser of URIs can panic.
#[verifier::external_body]
pub(crate) fn parse_did_change(params: &str) -> (changes: Option<Vec<ContentChange>>)
    requires
        params.spec_bytes().len() <= i32::MAX,
    ensures
        changes.deep_view() == did_change_events(params@),
{
    let changed = serde_json::from_str::<lsp_types::DidChangeTextDocumentParams>(params).ok()?;
    Some(changed.content_changes.into_iter().map(|c| ContentChange {
        range: c.range.map(|r| Range {
            start: Position { line: r.start.line, character: r.start.character },
            end: Position { line: r.end.line, character: r.end.character },
        }),
        range_length: c.range_length,
        text: c.text,
    }).collect())
}

/// Calls `serde_json::from_str` for `lsp_types::CompletionParams` and tells
/// whether it accepted. The contract names the outcome, and keeps out the
/// payloads on which the parser of URIs can panic.
#[verifier::external_body]
pub(crate) fn parse_completion(params: &str) -> (accepted: bool)
    requires
        params.spec_bytes().len() <= i32::MAX,
    ensures
        accepted == is_completion_payload(params@),
{
    serde_json::from_str::<lsp_types::CompletionParams>(params).is_ok()
}

/// Calls `serde_json::from_str` for `lsp_types::HoverParams` and picks the
/// line of the position. The contract names the outcome, and keeps out the
/// payloads on which the parser of URIs can panic.
#[verifier::external_body]
pub(crate) fn parse_hover(params: &str) -> (line: Option<u32>)
    requires
        params.spec_bytes().len() <= i32::MAX,
    ensures
        line == hover_line(params@),
{
    match serde_json::from_str::<lsp_types::HoverParams>(params) {
        Ok(hover) => Some(hover.text_document_position_params.position.line),
        Err(_) => None,
    }
}

/// Calls `serde_json::to_string` on the `lsp_types::Hover` that has the
/// fields of `hover`. The contract names the text it gives, and says that it
/// gives one: the encoder fails on a value that refuses to be encoded or on a
/// map with keys that are no strings, and a hover is neither.
#[verifier::external_body]
pub(crate) fn encode_hover(hover: Hover) -> (json: Option<String>)
    ensures
        json.deep_view() == Some(hover_json(hover@)),
{
    let position = |p: Position| lsp_types::Position::new(p.line, p.character);
    let outer = lsp_types::Hover {
        contents: lsp_types::HoverContents::Scalar(lsp_types::MarkedString::String(hover.contents)),
        range: hover.range.map(|r| lsp_types::Range::new(position(r.start), position(r.end))),
    };
    serde_json::to_string(&outer).ok()
}

/// Calls `serde_json::to_string` on an `lsp_types::CompletionResponse` that
/// is an array with one item for each of `candidates`, which has that label
/// and is otherwise empty. The contract names the text it gives, and says
/// that it gives one, for the reason given with `encode_hover`.
#[verifier::external_body]
pub(crate) fn encode_completions(candidates: Vec<String>) -> (json: Option<String>)
    ensures
        json.deep_view() == Some(completions_json(candidates.deep_view())),
{
    let items = candidates
        .into_iter()
        .map(|label| lsp_types::CompletionItem { label, ..Default::default() })
        .collect();
    serde_json::to_string(&Some(lsp_types::CompletionResponse::Array(items))).ok()
}

} // verus!
