//! Text operations that the aggregation rules rely on: letter case, search
//! for a part of a text, and cutting a text at commas.

use vstd::prelude::*;
use vstd::string::*;
use crate::model::views;

verus! {

/// The lower-case form of a text, as `str::to_lowercase` computes it.
pub uninterp spec fn lowercase_of(text: Seq<char>) -> Seq<char>;

/// `needle` occurs in `haystack` starting at position `start`.
pub open spec fn occurs_at(needle: Seq<char>, haystack: Seq<char>, start: int) -> bool {
    &&& 0 <= start
    &&& start + needle.len() <= haystack.len()
    &&& haystack.subrange(start, start + needle.len()) == needle
}

/// `needle` is a contiguous part of `haystack`.
pub open spec fn occurs_in(needle: Seq<char>, haystack: Seq<char>) -> bool {
    exists|start: int| occurs_at(needle, haystack, start)
}

/// The pieces of a text between separators, in order: a text without a
/// separator is its own single piece, and two neighbouring separators have
/// an empty piece between them.
pub open spec fn pieces_of(text: Seq<char>, separator: char) -> Seq<Seq<char>>
    decreases text.len(),
{
    if text.len() == 0 {
        seq![Seq::empty()]
    } else {
        let front = pieces_of(text.drop_last(), separator);
        if text.last() == separator {
            front.push(Seq::empty())
        } else {
            front.drop_last().push(front.last().push(text.last()))
        }
    }
}

/// The pieces joined again, with `separator` between neighbours.
pub open spec fn joined(pieces: Seq<Seq<char>>, separator: char) -> Seq<char>
    decreases pieces.len(),
{
    if pieces.len() == 0 {
        Seq::empty()
    } else if pieces.len() == 1 {
        pieces[0]
    } else {
        joined(pieces.drop_last(), separator) + seq![separator] + pieces.last()
    }
}

/// The pieces of a text are at least one, none of them holds the separator,
/// and joined with the separator they give the text back.
pub proof fn lemma_pieces_join(text: Seq<char>, separator: char)
    ensures
        pieces_of(text, separator).len() >= 1,
        joined(pieces_of(text, separator), separator) == text,
        forall|i: int|
            0 <= i < pieces_of(text, separator).len() ==> !(#[trigger] pieces_of(
                text,
                separator,
            )[i]).contains(separator),
    decreases text.len(),
{
    let pieces = pieces_of(text, separator);
    if text.len() == 0 {
        assert(joined(pieces, separator) =~= text);
    } else {
        let front = pieces_of(text.drop_last(), separator);
        lemma_pieces_join(text.drop_last(), separator);
        assert(text =~= text.drop_last().push(text.last()));
        if text.last() == separator {
            assert(pieces.drop_last() =~= front);
            assert(joined(pieces, separator) =~= text);
        } else {
            let grown = front.last().push(text.last());
            assert(pieces.last() == grown);
            if front.len() == 1 {
                assert(joined(pieces, separator) =~= text);
            } else {
                assert(pieces.drop_last() =~= front.drop_last());
                assert(joined(pieces, separator) =~= text);
            }
            assert forall|i: int| 0 <= i < pieces.len() implies !(#[trigger] pieces[i]).contains(
                separator,
            ) by {
                if i < pieces.len() - 1 {
                    assert(pieces[i] == front[i]);
                } else {
                    if grown.contains(separator) {
                        let at = choose|at: int| 0 <= at < grown.len() && grown[at] == separator;
                        assert(front.last()[at] == separator);
                        assert(front[front.len() - 1].contains(separator));
                    }
                }
            }
        }
    }
}

/// The view of an optional text.
pub open spec fn optional_text(text: Option<String>) -> Option<Seq<char>> {
    match text {
        Some(t) => Some(t@),
        None => None,
    }
}

/// Calls `str::to_lowercase`. Trusted: the result is the lower-case form of
/// the argument, a function of the argument alone, named [`lowercase_of`].
#[verifier::external_body]
pub(crate) fn to_lowercase(text: &str) -> (lower: String)
    ensures
        lower@ == lowercase_of(text@),
{
    text.to_lowercase()
}

/// A copy of an optional text.
pub fn clone_optional_text(text: &Option<String>) -> (copy: Option<String>)
    ensures
        optional_text(copy) == optional_text(*text),
{
    match text {
        Some(t) => Some(t.clone()),
        None => None,
    }
}

/// The characters of a text.
pub fn chars_of(text: &str) -> (chars: Vec<char>)
    ensures
        chars@ == text@,
{
    let mut chars: Vec<char> = Vec::new();
    for c in it: text.chars()
        invariant
            chars@ == text@.take(it.index() as int),
            it.seq() == text@,
    {
        chars.push(c);
    }
    chars
}

/// Whether a text is among the given texts.
pub fn is_listed(texts: &Vec<String>, text: &String) -> (listed: bool)
    ensures
        listed == views(texts@).contains(text@),
{
    let mut i: usize = 0;
    while i < texts.len()
        invariant
            i <= texts.len(),
            forall|k: int| 0 <= k < i ==> #[trigger] views(texts@)[k] != text@,
        decreases texts.len() - i,
    {
        if texts[i] == *text {
            proof {
                assert(views(texts@)[i as int] == text@);
            }
            return true;
        }
        i += 1;
    }
    false
}

/// Whether `needle` stands in `haystack` at position `start`.
fn stands_at(haystack: &Vec<char>, needle: &Vec<char>, start: usize) -> (found: bool)
    requires
        start + needle.len() <= haystack.len(),
    ensures
        found == occurs_at(needle@, haystack@, start as int),
{
    let mut k: usize = 0;
    while k < needle.len()
        invariant
            k <= needle.len(),
            start + needle.len() <= haystack.len(),
            forall|j: int| 0 <= j < k ==> haystack@[start + j] == needle@[j],
        decreases needle.len() - k,
    {
        if haystack[start + k] != needle[k] {
            proof {
                let part = haystack@.subrange(start as int, start + needle.len());
                assert(part[k as int] == haystack@[start + k]);
            }
            return false;
        }
        k += 1;
    }
    proof {
        assert(haystack@.subrange(start as int, start + needle.len()) =~= needle@);
    }
    true
}

/// Whether `needle` is a contiguous part of `haystack`.
pub fn contains_text(haystack: &str, needle: &str) -> (found: bool)
    ensures
        found == occurs_in(needle@, haystack@),
{
    let hay = chars_of(haystack);
    let pin = chars_of(needle);
    if pin.len() > hay.len() {
        return false;
    }
    let last: usize = hay.len() - pin.len();
    let mut start: usize = 0;
    loop
        invariant
            start <= last,
            last == hay.len() - pin.len(),
            pin.len() <= hay.len(),
            hay@ == haystack@,
            pin@ == needle@,
            forall|s: int| 0 <= s < start ==> !occurs_at(pin@, hay@, s),
        decreases last - start,
    {
        if stands_at(&hay, &pin, start) {
            return true;
        }
        if start == last {
            return false;
        }
        start += 1;
    }
}

/// Cuts a text at every comma.
pub fn split_commas(text: &str) -> (pieces: Vec<String>)
    ensures
        views(pieces@) == pieces_of(text@, ','),
{
    let chars = chars_of(text);
    let mut pieces: Vec<String> = Vec::new();
    let mut start: usize = 0;
    let mut i: usize = 0;
    proof {
        assert(text@.take(0) =~= Seq::<char>::empty());
        assert(views(pieces@).push(text@.subrange(0, 0)) =~= pieces_of(text@.take(0), ','));
    }
    while i < chars.len()
        invariant
            start <= i <= chars.len(),
            chars@ == text@,
            views(pieces@).push(text@.subrange(start as int, i as int)) == pieces_of(
                text@.take(i as int),
                ',',
            ),
        decreases chars.len() - i,
    {
        let ghost before = views(pieces@);
        let ghost open = text@.subrange(start as int, i as int);
        proof {
            assert(text@.take(i + 1).drop_last() =~= text@.take(i as int));
            assert(before.push(open).drop_last() =~= before);
        }
        if chars[i] == ',' {
            let piece = String::from_str(text.substring_char(start, i));
            pieces.push(piece);
            proof {
                assert(views(pieces@) =~= before.push(open));
                assert(text@.subrange(i + 1, i + 1) =~= Seq::<char>::empty());
            }
            start = i + 1;
        } else {
            proof {
                assert(text@.subrange(start as int, i + 1) =~= open.push(text@[i as int]));
            }
        }
        i += 1;
    }
    let ghost before = views(pieces@);
    let ghost open = text@.subrange(start as int, i as int);
    let piece = String::from_str(text.substring_char(start, i));
    pieces.push(piece);
    proof {
        assert(views(pieces@) =~= before.push(open));
        assert(text@.take(i as int) =~= text@);
    }
    pieces
}

} // verus!
