//! The tracked document and the editor's synchronisation events. The document
//! is the full text that the editor last sent: an open and a full-text change
//! both replace it whole, and a change that carries a range is left unapplied.

use crate::hover::hover_text;
use vstd::prelude::*;

verus! {

/// A place in a document: a line and a character offset, both from 0.
#[derive(Debug, Clone, Copy, PartialEq, Eq)]
pub struct Position {
    pub line: u32,
    pub character: u32,
}

/// A span of a document, from `start` up to `end`.
#[derive(Debug, Clone, Copy, PartialEq, Eq)]
pub struct Range {
    pub start: Position,
    pub end: Position,
}

/// One content change of a change event. Without a range, `text` is the new
/// text of the whole document; with one, `text` replaces that span only.
#[derive(Debug, Clone, PartialEq, Eq)]
pub struct ContentChange {
    pub range: Option<Range>,
    pub range_length: Option<u32>,
    pub text: String,
}

/// A content change as a value: its text is a sequence of characters.
pub struct ContentChangeView {
    pub range: Option<Range>,
    pub range_length: Option<u32>,
    pub text: Seq<char>,
}

impl View for ContentChange {
    type V = ContentChangeView;

    open spec fn view(&self) -> ContentChangeView {
        ContentChangeView {
            range: self.range,
            range_length: self.range_length,
            text: self.text@,
        }
    }
}

impl DeepView for ContentChange {
    type V = ContentChangeView;

    open spec fn deep_view(&self) -> ContentChangeView {
        self.view()
    }
}

/// A synchronisation event, decoded.
#[derive(Debug, Clone, PartialEq, Eq)]
pub enum SyncEvent {
    /// The editor opened a document with this text.
    Opened { text: String },
    /// The editor changed the document; the changes apply in order.
    Changed { changes: Vec<ContentChange> },
}

/// A synchronisation event as a value: its texts are sequences of
/// characters.
pub enum SyncEventView {
    Opened { text: Seq<char> },
    Changed { changes: Seq<ContentChangeView> },
}

impl View for SyncEvent {
    type V = SyncEventView;

    open spec fn view(&self) -> SyncEventView {
        match self {
            SyncEvent::Opened { text } => SyncEventView::Opened { text: text@ },
            SyncEvent::Changed { changes } => SyncEventView::Changed {
                changes: changes.deep_view(),
            },
        }
    }
}

impl DeepView for SyncEvent {
    type V = SyncEventView;

    open spec fn deep_view(&self) -> SyncEventView {
        self.view()
    }
}

impl ContentChangeView {
    /// Whether the change replaces the whole document.
    pub open spec fn is_full_text(self) -> bool {
        self.range is None
    }
}

impl SyncEventView {
    /// Whether the event replaces the whole document: an open does, and a
    /// change event with a full-text change among its changes.
    pub open spec fn replaces_all(self) -> bool {
        match self {
            SyncEventView::Opened { .. } => true,
            SyncEventView::Changed { changes } => replaces_all(changes),
        }
    }
}

/// The document after an open with `text`: that text, whatever `doc` was.
pub open spec fn after_open(doc: Seq<char>, text: Seq<char>) -> Seq<char> {
    text
}

/// The document after `change`: its text where it is a full-text change, and
/// `doc` as it was where the change carries a range.
pub open spec fn after_change(doc: Seq<char>, change: ContentChangeView) -> Seq<char> {
    if change.is_full_text() {
        change.text
    } else {
        doc
    }
}

/// The document after each of `changes`, applied in order.
pub open spec fn after_changes(doc: Seq<char>, changes: Seq<ContentChangeView>) -> Seq<char>
    decreases changes.len(),
{
    if changes.len() == 0 {
        doc
    } else {
        after_change(after_changes(doc, changes.drop_last()), changes.last())
    }
}

/// The document after `event`.
pub open spec fn after_event(doc: Seq<char>, event: SyncEventView) -> Seq<char> {
    match event {
        SyncEventView::Opened { text } => after_open(doc, text),
        SyncEventView::Changed { changes } => after_changes(doc, changes),
    }
}

/// The document after each of `events`, applied in the order of arrival.
pub open spec fn after_events(doc: Seq<char>, events: Seq<SyncEventView>) -> Seq<char>
    decreases events.len(),
{
    if events.len() == 0 {
        doc
    } else {
        after_event(after_events(doc, events.drop_last()), events.last())
    }
}

/// The document as a connection starts with it: empty, until the editor opens
/// one.
pub fn new_document() -> (doc: String)
    ensures
        doc@ == Seq::<char>::empty(),
{
    String::new()
}

/// Opens a document: `text` becomes the tracked text, whatever was tracked.
pub fn on_open(doc: &mut String, text: String)
    ensures
        final(doc)@ == after_open(old(doc)@, text@),
{
    *doc = text;
}

/// Applies one content change to the tracked text, and tells whether it was
/// applied: a change that carries a range is not, and leaves the text stale.
pub fn apply_change(doc: &mut String, change: &ContentChange) -> (applied: bool)
    ensures
        final(doc)@ == after_change(old(doc)@, change@),
        applied == change@.is_full_text(),
{
    if change.range.is_none() {
        *doc = change.text.clone();
        true
    } else {
        false
    }
}

/// Applies the content changes of one change event, in the order given.
pub fn on_change(doc: &mut String, changes: &Vec<ContentChange>)
    ensures
        final(doc)@ == after_changes(old(doc)@, changes.deep_view()),
{
    let ghost before = doc@;
    let ghost all = changes.deep_view();
    let mut done: usize = 0;
    while done < changes.len()
        invariant
            done <= changes.len(),
            all == changes.deep_view(),
            doc@ == after_changes(before, all.take(done as int)),
        decreases changes.len() - done,
    {
        proof {
            assert(all.take(done + 1).drop_last() =~= all.take(done as int));
            assert(all.take(done + 1).last() == changes@[done as int]@);
        }
        let _ = apply_change(doc, &changes[done]);
        done += 1;
    }
    proof {
        assert(all.take(done as int) =~= all);
    }
}

/// Applies a synchronisation event to the tracked text.
pub fn apply_event(doc: &mut String, event: SyncEvent)
    ensures
        final(doc)@ == after_event(old(doc)@, event@),
{
    match event {
        SyncEvent::Opened { text } => on_open(doc, text),
        SyncEvent::Changed { changes } => on_change(doc, &changes),
    }
}

/// Whether one of `changes` replaces the whole document.
pub open spec fn replaces_all(changes: Seq<ContentChangeView>) -> bool {
    exists|i: int| 0 <= i < changes.len() && #[trigger] changes[i].is_full_text()
}

/// Changes that all carry a range leave the document as it was. Where one of
/// them is a full-text change, what the document was before does not matter.
pub proof fn lemma_after_changes(doc: Seq<char>, other: Seq<char>, changes: Seq<ContentChangeView>)
    ensures
        !replaces_all(changes) ==> after_changes(doc, changes) == doc,
        replaces_all(changes) ==> after_changes(doc, changes) == after_changes(other, changes),
    decreases changes.len(),
{
    if changes.len() > 0 {
        let front = changes.drop_last();
        lemma_after_changes(doc, other, front);
        if changes.last().is_full_text() {
            assert(changes[changes.len() - 1].is_full_text());
        } else if replaces_all(changes) {
            let i = choose|i: int| 0 <= i < changes.len() && #[trigger] changes[i].is_full_text();
            assert(front[i].is_full_text());
        } else {
            assert forall|i: int| 0 <= i < front.len() implies !#[trigger] front[i].is_full_text() by {
                assert(front[i] == changes[i]);
            }
        }
    }
}

/// A full-text change replaces the document whole: nothing of the text
/// before it is kept, appended to or merged.
pub proof fn lemma_full_text_change_replaces(doc: Seq<char>, change: ContentChangeView)
    requires
        change.is_full_text(),
    ensures
        after_change(doc, change) == change.text,
        after_changes(doc, seq![change]) == change.text,
{
    assert(seq![change].drop_last() =~= Seq::<ContentChangeView>::empty());
}

/// A change event applied twice leaves what it leaves applied once.
pub proof fn lemma_change_is_idempotent(doc: Seq<char>, changes: Seq<ContentChangeView>)
    ensures
        after_changes(after_changes(doc, changes), changes) == after_changes(doc, changes),
{
    lemma_after_changes(after_changes(doc, changes), doc, changes);
}

/// The document is what the latest event that replaces it has left: events
/// that leave it alone change nothing after it, and nothing before it shows
/// through, neither an earlier event nor the document they started from.
pub proof fn lemma_latest_replacement_wins(
    doc: Seq<char>,
    other: Seq<char>,
    events: Seq<SyncEventView>,
    latest: int,
)
    requires
        0 <= latest < events.len(),
        events[latest].replaces_all(),
        forall|later: int| latest < later < events.len() ==> !events[later].replaces_all(),
    ensures
        after_events(doc, events) == after_event(other, events[latest]),
    decreases events.len(),
{
    let front = events.drop_last();
    let before = after_events(doc, front);
    match events.last() {
        SyncEventView::Opened { text } => {},
        SyncEventView::Changed { changes } => {
            lemma_after_changes(before, other, changes);
            if latest < events.len() - 1 {
                lemma_latest_replacement_wins(doc, other, front, latest);
            }
        },
    }
}

/// Without an event that replaces it, the document stays what it was.
pub proof fn lemma_no_replacement_changes_nothing(doc: Seq<char>, events: Seq<SyncEventView>)
    requires
        forall|i: int| 0 <= i < events.len() ==> !events[i].replaces_all(),
    ensures
        after_events(doc, events) == doc,
    decreases events.len(),
{
    if events.len() > 0 {
        let front = events.drop_last();
        lemma_no_replacement_changes_nothing(doc, front);
        match events.last() {
            SyncEventView::Opened { text } => {},
            SyncEventView::Changed { changes } => {
                lemma_after_changes(doc, doc, changes);
            },
        }
    }
}

/// Hover follows the latest text. After an open with `opened`, each line is
/// resolved in `opened`; after a full-text change on top of that, in the text
/// of that change and no longer in `opened`.
pub proof fn lemma_hover_follows_the_latest_text(
    doc: Seq<char>,
    opened: Seq<char>,
    change: ContentChangeView,
    line: int,
)
    requires
        change.is_full_text(),
    ensures
        hover_text(after_open(doc, opened), line) == hover_text(opened, line),
        hover_text(after_changes(after_open(doc, opened), seq![change]), line) == hover_text(
            change.text,
            line,
        ),
{
    lemma_full_text_change_replaces(opened, change);
}

} // verus!
