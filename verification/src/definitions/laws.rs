//! What holds of the registry as a whole: no spelling is listed twice, no
//! text is the fallback, spellings listed together share their text, and
//! every other key gets the fallback.

use super::literals::{lemma_spellings, lemma_texts_differ_from_the_fallback};
use super::{description, entry_from, entry_of, is_known, lists, registry, FALLBACK};
use vstd::prelude::*;

verus! {

/// `entry_from` finds the first entry from `e` on that lists `key`, and
/// finds none only where none of them does.
pub proof fn lemma_entry_from(e: int, key: Seq<char>)
    requires
        0 <= e,
    ensures
        match entry_from(e, key) {
            Some(found) => e <= found && lists(found, key) && forall|d: int|
                e <= d < found ==> !lists(d, key),
            None => forall|d: int| e <= d ==> !lists(d, key),
        },
    decreases registry().len() - e,
{
    if e < registry().len() && !registry()[e].keys.contains(key) {
        lemma_entry_from(e + 1, key);
    }
}

/// No spelling stands in two entries of the registry.
pub proof fn lemma_spellings_are_unique()
    ensures
        forall|d: int, e: int, key: Seq<char>| lists(d, key) && lists(e, key) ==> d == e,
{
    lemma_spellings();
}

/// A key is described by the text of the entry that lists it, which is not
/// the fallback.
pub proof fn lemma_listed_key_gets_its_text(e: int, key: Seq<char>)
    requires
        lists(e, key),
    ensures
        entry_of(key) == Some(e),
        description(key) == registry()[e].text,
        description(key) != FALLBACK@,
{
    lemma_entry_from(0, key);
    lemma_spellings();
    lemma_texts_differ_from_the_fallback();
}

/// Two spellings that an entry lists together get the same text, and that
/// text is not the fallback.
pub proof fn lemma_aliases_share_their_text(e: int, key: Seq<char>, alias: Seq<char>)
    requires
        lists(e, key),
        lists(e, alias),
    ensures
        description(key) == description(alias),
        description(key) != FALLBACK@,
{
    lemma_listed_key_gets_its_text(e, key);
    lemma_listed_key_gets_its_text(e, alias);
}

/// A key that no entry lists, whatever it is, gets exactly the fallback.
pub proof fn lemma_unlisted_key_gets_the_fallback(key: Seq<char>)
    requires
        forall|e: int| !lists(e, key),
    ensures
        !is_known(key),
        description(key) == FALLBACK@,
{
    lemma_entry_from(0, key);
}

/// No entry lists the empty key, so it gets the fallback.
pub proof fn lemma_empty_key_gets_the_fallback()
    ensures
        !is_known(Seq::<char>::empty()),
        description(Seq::<char>::empty()) == FALLBACK@,
{
    lemma_spellings();
    lemma_unlisted_key_gets_the_fallback(Seq::<char>::empty());
}

/// The known keys are those that some entry lists, and the fallback is given
/// for the unknown keys and for no others.
pub proof fn lemma_fallback_marks_unknown_keys(key: Seq<char>)
    ensures
        is_known(key) <==> exists|e: int| lists(e, key),
        description(key) == FALLBACK@ <==> !is_known(key),
{
    lemma_entry_from(0, key);
    lemma_texts_differ_from_the_fallback();
}

} // verus!
