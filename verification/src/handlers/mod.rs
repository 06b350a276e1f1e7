//! The dispatch of the editor's messages: notifications keep the tracked
//! document in step, requests are answered from it, and whatever is not
//! recognised is passed over without an error.

pub mod payload;

use crate::document::{after_event, apply_event, SyncEvent, SyncEventView};
use crate::hover::{hover_at, hover_of, Hover, HoverView, NO_HOVER};
use crate::strings::str_eq;
use payload::{
    completions_json, decodable, did_change_events, did_open_text, encode_completions,
    encode_hover, hover_json, hover_line, is_completion_payload, parse_completion,
    parse_did_change, parse_did_open, parse_hover,
};
use vstd::prelude::*;
use vstd::string::*;

verus! {

/// The method of the notification that a document was opened.
pub const DID_OPEN: &'static str = "textDocument/didOpen";

/// The method of the notification that the document changed.
pub const DID_CHANGE: &'static str = "textDocument/didChange";

/// The method of the request for completion candidates.
pub const COMPLETION: &'static str = "textDocument/completion";

/// The method of the request for hover contents.
pub const HOVER: &'static str = "textDocument/hover";

/// The most bytes that a payload may take to be decoded: `i32::MAX`.
pub const MAX_PAYLOAD: usize = 2147483647;

/// A message that needs no response. `params` is its payload as JSON text.
#[derive(Debug, Clone, PartialEq, Eq)]
pub struct Notification {
    pub method: String,
    pub params: String,
}

/// A message that is answered by one response with the same `id`. `params`
/// is its payload as JSON text.
#[derive(Debug)]
pub struct Request {
    pub id: lsp_server::RequestId,
    pub method: String,
    pub params: String,
}

/// Why a request failed, as a response reports it. `data` is JSON text.
#[derive(Debug, Clone, PartialEq, Eq)]
pub struct ResponseError {
    pub code: i32,
    pub message: String,
    pub data: Option<String>,
}

/// The answer to the request with the same `id`. `result` is JSON text.
#[derive(Debug)]
pub struct Response {
    pub id: lsp_server::RequestId,
    pub result: Option<String>,
    pub error: Option<ResponseError>,
}

/// A message of the protocol.
#[derive(Debug)]
pub enum Message {
    Request(Request),
    Response(Response),
    Notification(Notification),
}

/// What a notification's method asks for.
#[derive(Debug, Clone, Copy, PartialEq, Eq)]
pub enum NotificationKind {
    DidOpen,
    DidChange,
    Unrecognized,
}

/// What a request's method asks for.
#[derive(Debug, Clone, Copy, PartialEq, Eq)]
pub enum RequestKind {
    Completion,
    Hover,
    Unrecognized,
}

/// A request that the library answers, with what it reads of the payload.
#[derive(Debug, Clone, Copy, PartialEq, Eq)]
pub enum Query {
    /// Completion candidates are asked for.
    Completion,
    /// Hover contents are asked for, with the cursor on this line, from 0.
    Hover { line: u32 },
}

/// What a request is answered with, before it is encoded.
#[derive(Debug, Clone, PartialEq, Eq)]
pub enum Answer {
    /// The labels of the completion candidates.
    Completion { candidates: Vec<String> },
    /// What to show on hover.
    Hover { hover: Hover },
}

/// An answer as a value: its texts are sequences of characters.
pub enum AnswerView {
    Completion { candidates: Seq<Seq<char>> },
    Hover { hover: HoverView },
}

impl View for Answer {
    type V = AnswerView;

    open spec fn view(&self) -> AnswerView {
        match self {
            Answer::Completion { candidates } => AnswerView::Completion {
                candidates: candidates.deep_view(),
            },
            Answer::Hover { hover } => AnswerView::Hover { hover: hover@ },
        }
    }
}

impl DeepView for Answer {
    type V = AnswerView;

    open spec fn deep_view(&self) -> AnswerView {
        self.view()
    }
}

/// The kind of the notification method `method`.
pub open spec fn notification_kind(method: Seq<char>) -> NotificationKind {
    if method == DID_OPEN@ {
        NotificationKind::DidOpen
    } else if method == DID_CHANGE@ {
        NotificationKind::DidChange
    } else {
        NotificationKind::Unrecognized
    }
}

/// The kind of the request method `method`.
pub open spec fn request_kind(method: Seq<char>) -> RequestKind {
    if method == COMPLETION@ {
        RequestKind::Completion
    } else if method == HOVER@ {
        RequestKind::Hover
    } else {
        RequestKind::Unrecognized
    }
}

/// The synchronisation event that a notification with this method and
/// payload carries, if its method is recognised and its payload is short
/// enough and decodes.
pub open spec fn decoded_notification(
    method: Seq<char>,
    params: Seq<char>,
) -> Option<SyncEventView> {
    if !decodable(params) {
        None
    } else {
        decoded_event(method, params)
    }
}

/// The synchronisation event that `serde_json` reads from a payload, as the
/// kind of the method says to read it; none for a method that is not
/// recognised.
pub open spec fn decoded_event(method: Seq<char>, params: Seq<char>) -> Option<SyncEventView> {
    match notification_kind(method) {
        NotificationKind::DidOpen => match did_open_text(params) {
            Some(text) => Some(SyncEventView::Opened { text }),
            None => None,
        },
        NotificationKind::DidChange => match did_change_events(params) {
            Some(changes) => Some(SyncEventView::Changed { changes }),
            None => None,
        },
        NotificationKind::Unrecognized => None,
    }
}

/// The tracked document after a notification with this method and payload:
/// what the event that it carries leaves, and `doc` as it was where it
/// carries none.
pub open spec fn after_notification(
    doc: Seq<char>,
    method: Seq<char>,
    params: Seq<char>,
) -> Seq<char> {
    match decoded_notification(method, params) {
        Some(event) => after_event(doc, event),
        None => doc,
    }
}

/// What a request with this method and payload asks, if its method is
/// recognised and its payload is short enough and decodes.
pub open spec fn decoded_request(method: Seq<char>, params: Seq<char>) -> Option<Query> {
    if !decodable(params) {
        None
    } else {
        decoded_query(method, params)
    }
}

/// What `serde_json` reads from a payload, as the kind of the method says to
/// read it; nothing for a method that is not recognised.
pub open spec fn decoded_query(method: Seq<char>, params: Seq<char>) -> Option<Query> {
    match request_kind(method) {
        RequestKind::Completion => if is_completion_payload(params) {
            Some(Query::Completion)
        } else {
            None
        },
        RequestKind::Hover => match hover_line(params) {
            Some(line) => Some(Query::Hover { line }),
            None => None,
        },
        RequestKind::Unrecognized => None,
    }
}

/// The answer to `query` from the document `doc`: for completion no
/// candidates, for hover what is shown at the line asked for.
pub open spec fn answer_to(query: Query, doc: Seq<char>) -> AnswerView {
    match query {
        Query::Completion => AnswerView::Completion { candidates: Seq::empty() },
        Query::Hover { line } => AnswerView::Hover { hover: hover_of(doc, line as int) },
    }
}

/// The JSON text of the result that carries `found`.
pub open spec fn encoded(found: AnswerView) -> Seq<char> {
    match found {
        AnswerView::Completion { candidates } => completions_json(candidates),
        AnswerView::Hover { hover } => hover_json(hover),
    }
}

/// The JSON text of the result by which `req` is answered from the document
/// `doc`. A request gets none, and with that no response, where it does not
/// decode; every request that decodes gets one.
pub open spec fn result_for(req: Request, doc: Seq<char>) -> Option<Seq<char>> {
    match decoded_request(req.method@, req.params@) {
        Some(query) => Some(encoded(answer_to(query, doc))),
        None => None,
    }
}

/// Whether `reply` is how `req` is answered from the document `doc`: by no
/// response where there is no result for it, and else by one that carries
/// the request's identifier, that result and no error.
pub open spec fn answers(reply: Option<Response>, req: Request, doc: Seq<char>) -> bool {
    match result_for(req, doc) {
        Some(json) => {
            &&& reply matches Some(r)
            &&& r.id == req.id
            &&& r.result.deep_view() == Some(json)
            &&& r.error is None
        },
        None => reply is None,
    }
}

/// The four methods are told apart: each has the kind it is named for, and no
/// request method is taken for a notification or the other way round.
pub proof fn lemma_methods_are_told_apart()
    ensures
        notification_kind(DID_OPEN@) is DidOpen,
        notification_kind(DID_CHANGE@) is DidChange,
        notification_kind(COMPLETION@) is Unrecognized,
        notification_kind(HOVER@) is Unrecognized,
        request_kind(COMPLETION@) is Completion,
        request_kind(HOVER@) is Hover,
        request_kind(DID_OPEN@) is Unrecognized,
        request_kind(DID_CHANGE@) is Unrecognized,
{
    reveal_strlit("textDocument/didOpen");
    reveal_strlit("textDocument/didChange");
    reveal_strlit("textDocument/completion");
    reveal_strlit("textDocument/hover");
    // Each is of another length.
    assert(DID_OPEN@.len() == 20 && HOVER@.len() == 18);
    assert(DID_CHANGE@.len() == 22 && COMPLETION@.len() == 23);
}

/// Tells which notification `method` names.
pub fn classify_notification(method: &str) -> (kind: NotificationKind)
    ensures
        kind == notification_kind(method@),
{
    if str_eq(method, DID_OPEN) {
        NotificationKind::DidOpen
    } else if str_eq(method, DID_CHANGE) {
        NotificationKind::DidChange
    } else {
        NotificationKind::Unrecognized
    }
}

/// Tells which request `method` names.
pub fn classify_request(method: &str) -> (kind: RequestKind)
    ensures
        kind == request_kind(method@),
{
    if str_eq(method, COMPLETION) {
        RequestKind::Completion
    } else if str_eq(method, HOVER) {
        RequestKind::Hover
    } else {
        RequestKind::Unrecognized
    }
}

/// Tells whether a payload is short enough to be decoded.
pub fn is_decodable(params: &str) -> (short: bool)
    ensures
        short == decodable(params@),
{
    params.as_bytes().len() <= MAX_PAYLOAD
}

/// Decodes a notification into the synchronisation event that it carries.
/// There is none where the method is not recognised, or the payload is too
/// long or does not decode.
pub fn decode_notification(notif: &Notification) -> (event: Option<SyncEvent>)
    ensures
        event.deep_view() == decoded_notification(notif.method@, notif.params@),
{
    if !is_decodable(notif.params.as_str()) {
        return None;
    }
    match classify_notification(notif.method.as_str()) {
        NotificationKind::DidOpen => match parse_did_open(notif.params.as_str()) {
            Some(text) => Some(SyncEvent::Opened { text }),
            None => None,
        },
        NotificationKind::DidChange => match parse_did_change(notif.params.as_str()) {
            Some(changes) => Some(SyncEvent::Changed { changes }),
            None => None,
        },
        NotificationKind::Unrecognized => None,
    }
}

/// Decodes a request into what it asks. It asks nothing that the library
/// answers where the method is not recognised, or the payload is too long or
/// does not decode.
pub fn decode_request(req: &Request) -> (query: Option<Query>)
    ensures
        query == decoded_request(req.method@, req.params@),
{
    if !is_decodable(req.params.as_str()) {
        return None;
    }
    match classify_request(req.method.as_str()) {
        RequestKind::Completion => if parse_completion(req.params.as_str()) {
            Some(Query::Completion)
        } else {
            None
        },
        RequestKind::Hover => match parse_hover(req.params.as_str()) {
            Some(line) => Some(Query::Hover { line }),
            None => None,
        },
        RequestKind::Unrecognized => None,
    }
}

/// Answers `query` from the document `doc`. Completion has no candidates to
/// offer. Hover resolves the line asked for.
pub fn answer(query: Query, doc: &str) -> (found: Answer)
    ensures
        found@ == answer_to(query, doc@),
{
    match query {
        Query::Completion => {
            let candidates: Vec<String> = Vec::new();
            assert(candidates.deep_view() =~= Seq::<Seq<char>>::empty());
            Answer::Completion { candidates }
        },
        Query::Hover { line } => match usize::try_from(line) {
            Ok(line) => Answer::Hover { hover: hover_at(doc, line) },
            // A line number beyond `usize` is beyond every document.
            Err(_) => Answer::Hover { hover: Hover { contents: NO_HOVER.to_string(), range: None } },
        },
    }
}

/// Encodes an answer as the JSON text of a result. An answer always encodes.
pub fn encode(found: Answer) -> (json: String)
    ensures
        json@ == encoded(found@),
{
    let json = match found {
        Answer::Completion { candidates } => encode_completions(candidates),
        Answer::Hover { hover } => encode_hover(hover),
    };
    json.unwrap()
}

/// Wraps an encoded result into the response to the request `id`: it carries
/// that identifier, the result and no error.
pub fn respond(id: lsp_server::RequestId, result: String) -> (reply: Response)
    ensures
        reply.id == id,
        reply.result == Some(result),
        reply.error is None,
{
    Response { id, result: Some(result), error: None }
}

/// Applies a notification to the tracked document.
pub fn handle_notification(notif: Notification, doc: &mut String)
    ensures
        final(doc)@ == after_notification(old(doc)@, notif.method@, notif.params@),
{
    match decode_notification(&notif) {
        Some(event) => apply_event(doc, event),
        None => {},
    }
}

/// Answers a request from the tracked document, which it leaves as it is.
/// Every request that decodes gets its response; one that does not gets none.
pub fn handle_request(req: Request, doc: &mut String) -> (reply: Option<Response>)
    ensures
        final(doc)@ == old(doc)@,
        answers(reply, req, old(doc)@),
{
    match decode_request(&req) {
        Some(query) => {
            let found = answer(query, doc.as_str());
            Some(respond(req.id, encode(found)))
        },
        None => None,
    }
}

/// Handles one message: a notification is applied, a request is answered,
/// and a response, which answers nothing that was asked, is passed over.
pub fn handle_message(msg: Message, doc: &mut String) -> (reply: Option<Response>)
    ensures
        match msg {
            Message::Request(req) => final(doc)@ == old(doc)@ && answers(reply, req, old(doc)@),
            Message::Response(_) => final(doc)@ == old(doc)@ && reply is None,
            Message::Notification(notif) => {
                &&& final(doc)@ == after_notification(old(doc)@, notif.method@, notif.params@)
                &&& reply is None
            },
        },
{
    match msg {
        Message::Request(req) => handle_request(req, doc),
        Message::Response(_) => None,
        Message::Notification(notif) => {
            handle_notification(notif, doc);
            None
        },
    }
}

} // verus!
