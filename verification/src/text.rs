//! Cutting text at a separator.

use vstd::prelude::*;
use vstd::string::StrSliceExecFns;

verus! {

/// Where `mark` first stands in `text`, or the length of `text` if it
/// stands nowhere.
pub open spec fn first_index(text: Seq<char>, mark: char) -> int
    decreases text.len(),
{
    if text.len() == 0 || text[0] == mark {
        0
    } else {
        1 + first_index(text.drop_first(), mark)
    }
}

/// The pieces of `text` between the occurrences of `separator`, in their
/// order. There is one piece more than there are separators; a piece is empty
/// where two separators touch or one stands at an end.
pub open spec fn split(text: Seq<char>, separator: char) -> Seq<Seq<char>>
    decreases text.len(),
{
    let cut = first_index(text, separator);
    if 0 <= cut < text.len() {
        seq![text.take(cut)] + split(text.skip(cut + 1), separator)
    } else {
        seq![text]
    }
}

/// `pieces` put together again with `separator` between them.
pub open spec fn join(pieces: Seq<Seq<char>>, separator: char) -> Seq<char>
    decreases pieces.len(),
{
    if pieces.len() == 0 {
        Seq::empty()
    } else if pieces.len() == 1 {
        pieces[0]
    } else {
        pieces[0] + seq![separator] + join(pieces.drop_first(), separator)
    }
}

/// The first place of a mark is the place before which it does not stand
/// and at which it does, or the end.
pub proof fn lemma_first_index(text: Seq<char>, mark: char, place: int)
    requires
        0 <= place <= text.len(),
        forall|i: int| 0 <= i < place ==> text[i] != mark,
        place < text.len() ==> text[place] == mark,
    ensures
        first_index(text, mark) == place,
    decreases text.len(),
{
    if place > 0 {
        let rest = text.drop_first();
        assert forall|i: int| 0 <= i < place - 1 implies rest[i] != mark by {
            assert(rest[i] == text[i + 1]);
        }
        if place < text.len() {
            assert(rest[place - 1] == text[place]);
        }
        lemma_first_index(rest, mark, place - 1);
    }
}

/// The first place of a mark lies within the text or at its end, and the
/// mark does not stand before it.
pub proof fn lemma_first_index_bounds(text: Seq<char>, mark: char)
    ensures
        0 <= first_index(text, mark) <= text.len(),
        forall|i: int| 0 <= i < first_index(text, mark) ==> text[i] != mark,
        first_index(text, mark) < text.len() ==> text[first_index(text, mark)] == mark,
    decreases text.len(),
{
    if !(text.len() == 0 || text[0] == mark) {
        let rest = text.drop_first();
        lemma_first_index_bounds(rest, mark);
        assert forall|i: int| 0 <= i < first_index(text, mark) implies text[i] != mark by {
            if i > 0 {
                assert(rest[i - 1] == text[i]);
            }
        }
        if first_index(text, mark) < text.len() {
            assert(rest[first_index(rest, mark)] == text[first_index(text, mark)]);
        }
    }
}

/// Splitting loses nothing and leaves no separator behind: the pieces joined
/// again are the text, there is at least one, and none holds the separator.
pub proof fn lemma_split_joins(text: Seq<char>, separator: char)
    ensures
        split(text, separator).len() >= 1,
        join(split(text, separator), separator) == text,
        forall|i: int, j: int|
            0 <= i < split(text, separator).len() && 0 <= j < split(text, separator)[i].len()
                ==> split(text, separator)[i][j] != separator,
    decreases text.len(),
{
    let cut = first_index(text, separator);
    lemma_first_index_bounds(text, separator);
    if cut < text.len() {
        let rest = text.skip(cut + 1);
        lemma_split_joins(rest, separator);
        let pieces = split(text, separator);
        let tail = split(rest, separator);
        assert(pieces.drop_first() =~= tail);
        assert(pieces[0] == text.take(cut));
        assert(join(pieces, separator) =~= text.take(cut) + seq![separator] + rest);
        assert(text.take(cut) + seq![separator] + rest =~= text);
        assert forall|i: int, j: int|
            0 <= i < pieces.len() && 0 <= j < pieces[i].len() implies pieces[i][j]
            != separator by {
            if i > 0 {
                assert(pieces[i] == tail[i - 1]);
            }
        }
    }
}

/// The characters of `text`, one by one.
pub fn to_chars(text: &str) -> (chars: Vec<char>)
    ensures
        chars@ == text@,
{
    let mut chars: Vec<char> = Vec::new();
    for c in iter: text.chars()
        invariant
            chars@ == text@.take(iter.index() as int),
            iter.seq() == text@,
    {
        chars.push(c);
        assert(text@.take(iter.index() + 1) =~= text@.take(iter.index() as int).push(c));
    }
    assert(text@.take(text@.len() as int) =~= text@);
    chars
}

/// Cuts `text` at every `separator`.
pub fn split_text(text: &str, separator: char) -> (pieces: Vec<String>)
    ensures
        pieces.deep_view() == split(text@, separator),
{
    let chars = to_chars(text);
    let mut pieces: Vec<String> = Vec::new();
    let mut start: usize = 0;
    let mut index: usize = 0;
    assert(text@.skip(0) =~= text@);
    assert(pieces.deep_view() =~= Seq::<Seq<char>>::empty());
    while index < chars.len()
        invariant
            start <= index <= chars.len(),
            chars@ == text@,
            forall|i: int| start <= i < index ==> chars@[i] != separator,
            split(text@, separator) == pieces.deep_view() + split(
                text@.skip(start as int),
                separator,
            ),
        decreases chars.len() - index,
    {
        if chars[index] == separator {
            let piece = text.substring_char(start, index).to_owned();
            proof {
                let rest = text@.skip(start as int);
                assert forall|i: int| 0 <= i < index - start implies rest[i] != separator by {
                    assert(rest[i] == chars@[start + i]);
                }
                assert(rest[index - start] == chars@[index as int]);
                lemma_first_index(rest, separator, index - start);
                assert(rest.take(index - start) =~= text@.subrange(start as int, index as int));
                assert(rest.skip(index - start + 1) =~= text@.skip(index + 1));
                assert(pieces.deep_view().push(piece@) + split(text@.skip(index + 1), separator)
                    =~= pieces.deep_view() + (seq![piece@] + split(
                    text@.skip(index + 1),
                    separator,
                )));
            }
            let ghost before = pieces.deep_view();
            pieces.push(piece);
            assert(pieces.deep_view() =~= before.push(piece@));
            start = index + 1;
        }
        index += 1;
    }
    let piece = text.substring_char(start, index).to_owned();
    proof {
        let rest = text@.skip(start as int);
        assert forall|i: int| 0 <= i < rest.len() implies rest[i] != separator by {
            assert(rest[i] == chars@[start + i]);
        }
        lemma_first_index(rest, separator, rest.len() as int);
        assert(rest =~= text@.subrange(start as int, index as int));
    }
    let ghost before = pieces.deep_view();
    pieces.push(piece);
    assert(pieces.deep_view() =~= before.push(piece@));
    assert(before.push(piece@) =~= before + seq![piece@]);
    pieces
}

} // verus!
