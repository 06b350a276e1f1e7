//! From a document and a line number to the text shown on hover: the lines of
//! the document, the configuration key that a line sets, and the registry's
//! text for that key.

use crate::definitions::laws::lemma_empty_key_gets_the_fallback;
use crate::definitions::{description, get_config_param_description, FALLBACK};
use crate::document::Range;
use crate::strings::{
    chars_of, find_char, first_index_of, is_whitespace, lemma_first_index_is,
    lemma_first_index_of, lemma_trim, trim, trim_bounds,
};
use vstd::prelude::*;
use vstd::string::*;

verus! {

/// The text shown where a line sets no key, or where there is no such line.
pub const NO_HOVER: &'static str = "No hover contents found";

/// What is shown on hover: `contents`, one plain string that the editor shows
/// as it is, and the span of the document that it is about, if one is given.
#[derive(Debug, Clone, PartialEq, Eq)]
pub struct Hover {
    pub contents: String,
    pub range: Option<Range>,
}

/// A hover as a value: its contents are a sequence of characters.
pub struct HoverView {
    pub contents: Seq<char>,
    pub range: Option<Range>,
}

impl View for Hover {
    type V = HoverView;

    open spec fn view(&self) -> HoverView {
        HoverView { contents: self.contents@, range: self.range }
    }
}

impl DeepView for Hover {
    type V = HoverView;

    open spec fn deep_view(&self) -> HoverView {
        self.view()
    }
}

/// `line` without the carriage return that ends it, if one does.
pub open spec fn without_cr(line: Seq<char>) -> Seq<char> {
    if line.len() > 0 && line.last() == '\r' {
        line.drop_last()
    } else {
        line
    }
}

/// The lines of `text`. A line ends at a line feed, or at a carriage return
/// that a line feed follows; neither belongs to the line. The last line need
/// not be ended, and an ending at the very end of `text` starts no new line.
pub open spec fn lines(text: Seq<char>) -> Seq<Seq<char>>
    decreases text.len(),
{
    let end = first_index_of(text, '\n');
    if text.len() == 0 {
        Seq::empty()
    } else if 0 <= end < text.len() {
        seq![without_cr(text.take(end))] + lines(text.skip(end + 1))
    } else {
        seq![text]
    }
}

/// The configuration key that `line` sets: what stands before its first `=`,
/// without the white space around it. A line without `=` sets none.
pub open spec fn key_of(line: Seq<char>) -> Option<Seq<char>> {
    let eq = first_index_of(line, '=');
    if eq < line.len() {
        Some(trim(line.take(eq)))
    } else {
        None
    }
}

/// The line numbered `line`, from 0, of `text`, if it has that many lines.
pub open spec fn line_of(text: Seq<char>, line: int) -> Option<Seq<char>> {
    if 0 <= line < lines(text).len() {
        Some(lines(text)[line])
    } else {
        None
    }
}

/// The text shown for the line numbered `line`, from 0, of `text`: the
/// registry's text for the key that the line sets, and the no-hover text
/// where there is no such line or the line sets no key.
pub open spec fn hover_text(text: Seq<char>, line: int) -> Seq<char> {
    match line_of(text, line) {
        Some(found) => match key_of(found) {
            Some(key) => description(key),
            None => NO_HOVER@,
        },
        None => NO_HOVER@,
    }
}

/// What is shown on hover at the line numbered `line`, from 0, of `text`: the
/// hover text of that line, with no span attached.
pub open spec fn hover_of(text: Seq<char>, line: int) -> HoverView {
    HoverView { contents: hover_text(text, line), range: None }
}

/// What `lines` makes of a text whose first line ends at `end`.
proof fn lemma_lines_step(text: Seq<char>, end: int)
    requires
        0 <= end < text.len(),
        end == first_index_of(text, '\n'),
    ensures
        lines(text).len() == 1 + lines(text.skip(end + 1)).len(),
        lines(text)[0] == without_cr(text.take(end)),
        forall|k: int|
            0 <= k < lines(text.skip(end + 1)).len() ==> lines(text)[k + 1]
                == #[trigger] lines(text.skip(end + 1))[k],
{
}

/// The line numbered `line`, from 0, of `doc`, if it has that many lines.
pub fn line_at<'a>(doc: &'a str, line: usize) -> (found: Option<&'a str>)
    ensures
        found.deep_view() == line_of(doc@, line as int),
{
    let chars = chars_of(doc);
    let n = chars.len();
    let mut start: usize = 0;
    let mut current: usize = 0;
    assert(doc@.skip(0) =~= doc@);
    while start < n
        invariant
            chars@ == doc@,
            n == chars.len(),
            start <= n,
            current <= line,
            lines(doc@).len() == current + lines(doc@.skip(start as int)).len(),
            forall|k: int|
                0 <= k < lines(doc@.skip(start as int)).len() ==> lines(doc@)[current + k]
                    == #[trigger] lines(doc@.skip(start as int))[k],
        decreases n - start,
    {
        let ghost rest = doc@.skip(start as int);
        let end = find_char(&chars, start, n, '\n');
        proof {
            assert(chars@.subrange(start as int, n as int) =~= rest);
            lemma_first_index_of(rest, '\n');
        }
        if current == line {
            let stop = if end < n && end > start && chars[end - 1] == '\r' {
                end - 1
            } else {
                end
            };
            proof {
                assert(doc@.subrange(start as int, end as int) =~= rest.take(end - start));
                if end < n {
                    lemma_lines_step(rest, end - start);
                    assert(doc@.subrange(start as int, stop as int) =~= without_cr(
                        rest.take(end - start),
                    ));
                } else {
                    assert(rest.take(end - start) =~= rest);
                    assert(lines(rest) =~= seq![rest]);
                }
                assert(lines(doc@)[current + 0] == lines(rest)[0]);
            }
            return Some(doc.substring_char(start, stop));
        }
        if end == n {
            return None;
        }
        proof {
            lemma_lines_step(rest, end - start);
            assert(rest.skip(end - start + 1) =~= doc@.skip(end + 1));
        }
        start = end + 1;
        current += 1;
    }
    None
}

/// The configuration key that `line` sets, if it sets one.
pub fn parameter_key<'a>(line: &'a str) -> (key: Option<&'a str>)
    ensures
        key.deep_view() == key_of(line@),
{
    let chars = chars_of(line);
    let n = chars.len();
    let eq = find_char(&chars, 0, n, '=');
    proof {
        assert(chars@.subrange(0, n as int) =~= line@);
    }
    if eq == n {
        return None;
    }
    let (from, to) = trim_bounds(&chars, 0, eq);
    proof {
        assert(chars@.subrange(0, eq as int) =~= line@.take(eq as int));
    }
    Some(line.substring_char(from, to))
}

/// The text to show on hover at line `line`, from 0, of `doc`.
pub fn hover_contents(doc: &str, line: usize) -> (contents: String)
    ensures
        contents@ == hover_text(doc@, line as int),
{
    match line_at(doc, line) {
        Some(text) => match parameter_key(text) {
            Some(key) => get_config_param_description(key),
            None => NO_HOVER.to_string(),
        },
        None => NO_HOVER.to_string(),
    }
}

/// What to show on hover at line `line`, from 0, of `doc`: the text that the
/// line resolves to, as one plain string and with no span attached.
pub fn hover_at(doc: &str, line: usize) -> (hover: Hover)
    ensures
        hover@ == hover_of(doc@, line as int),
{
    Hover { contents: hover_contents(doc, line), range: None }
}

/// A text has no more lines than characters, and no line holds a line feed.
pub proof fn lemma_lines(text: Seq<char>)
    ensures
        lines(text).len() <= text.len(),
        forall|k: int| 0 <= k < lines(text).len() ==> !(#[trigger] lines(text)[k]).contains('\n'),
    decreases text.len(),
{
    let end = first_index_of(text, '\n');
    lemma_first_index_of(text, '\n');
    if text.len() == 0 {
    } else if end < text.len() {
        let first = without_cr(text.take(end));
        let rest = text.skip(end + 1);
        lemma_lines(rest);
        assert forall|k: int| 0 <= k < lines(text).len() implies !(#[trigger] lines(text)[k]).contains(
            '\n',
        ) by {
            if k == 0 {
                assert forall|j: int| 0 <= j < first.len() implies first[j] != '\n' by {
                    assert(first[j] == text[j]);
                }
            } else {
                assert(lines(text)[k] == lines(rest)[k - 1]);
            }
        }
    } else {
        assert forall|j: int| 0 <= j < text.len() implies text[j] != '\n' by {}
    }
}

/// A line number at or past the number of lines gets the no-hover text.
pub proof fn lemma_no_hover_past_the_last_line(text: Seq<char>, line: int)
    requires
        line >= lines(text).len(),
    ensures
        hover_text(text, line) == NO_HOVER@,
{
}

/// An empty document has no lines, so no line of it gets anything but the
/// no-hover text.
pub proof fn lemma_no_hover_in_an_empty_document(line: int)
    ensures
        lines(Seq::<char>::empty()).len() == 0,
        hover_text(Seq::<char>::empty(), line) == NO_HOVER@,
{
}

/// The first `=` of a line ends its key: whatever follows it, further `=`
/// included, the key is what stands before it, trimmed.
pub proof fn lemma_key_ends_at_the_first_equals(before: Seq<char>, after: Seq<char>)
    requires
        !before.contains('='),
    ensures
        key_of(before + seq!['='] + after) == Some(trim(before)),
{
    let line = before + seq!['='] + after;
    assert forall|j: int| 0 <= j < before.len() implies line[j] != '=' by {
        assert(line[j] == before[j]);
        assert(before.contains(before[j]));
    }
    assert(line[before.len() as int] == '=');
    lemma_first_index_is(line, '=', before.len() as int);
    assert(line.take(before.len() as int) =~= before);
}

/// A line that starts with `=` sets the empty key. The registry does not know
/// that key, so hover on such a line shows the registry's fallback.
pub proof fn lemma_empty_key_before_equals(value: Seq<char>)
    ensures
        key_of(seq!['='] + value) == Some(Seq::<char>::empty()),
        description(key_of(seq!['='] + value)->0) == FALLBACK@,
{
    let line = seq!['='] + value;
    assert(line[0] == '=');
    assert(line.take(0) =~= Seq::<char>::empty());
    lemma_empty_key_gets_the_fallback();
}

/// A key holds no `=`, and no white space at either end.
pub proof fn lemma_key_is_bare(line: Seq<char>)
    ensures
        key_of(line) matches Some(key) ==> !key.contains('=') && (key.len() > 0 ==> !is_whitespace(
            key[0],
        ) && !is_whitespace(key.last())),
{
    if let Some(key) = key_of(line) {
        let eq = first_index_of(line, '=');
        let before = line.take(eq);
        lemma_first_index_of(line, '=');
        lemma_trim(before);
        let (from, to) = choose|from: int, to: int|
            0 <= from <= to <= before.len() && trim(before) == before.subrange(from, to);
        assert forall|j: int| 0 <= j < key.len() implies key[j] != '=' by {
            assert(key[j] == line[from + j]);
        }
    }
}

} // verus!
