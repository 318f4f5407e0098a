//! Sequences of characters cut at a separator and joined again.

use itertools::Itertools;
use vstd::prelude::*;
use vstd::std_specs::iter::IteratorSpec;
use vstd::string::StringExecFns;

verus! {

/// `String::push` appends the one character to the end of the string.
pub assume_specification[ String::push ](s: &mut String, ch: char)
    ensures
        final(s)@ == old(s)@.push(ch),
;

/// `==` on `str` holds exactly of two slices with the same characters.
pub assume_specification[ <str as PartialEq>::eq ](a: &str, b: &str) -> (r: bool)
    ensures
        r == (a@ == b@),
;

/// The models of the items of a sequence, in order.
pub open spec fn views<T: View>(items: Seq<T>) -> Seq<T::V> {
    Seq::new(items.len(), |i: int| items[i]@)
}

/// Whether `sep` occurs nowhere in `text`.
pub open spec fn free_of(text: Seq<char>, sep: char) -> bool {
    forall|i: int| 0 <= i < text.len() ==> text[i] != sep
}

/// The pieces of `text` that lie between the occurrences of `sep`, in order.
/// There is always at least one piece; a text without `sep` is its own only piece.
pub open spec fn split(text: Seq<char>, sep: char) -> Seq<Seq<char>>
    decreases text.len(),
{
    if text.len() == 0 {
        seq![Seq::empty()]
    } else {
        let before = split(text.drop_last(), sep);
        if text.last() == sep {
            before.push(Seq::empty())
        } else {
            before.drop_last().push(before.last().push(text.last()))
        }
    }
}

/// The pieces written one after the other with `sep` between each two.
pub open spec fn join(pieces: Seq<Seq<char>>, sep: char) -> Seq<char>
    decreases pieces.len(),
{
    if pieces.len() == 0 {
        Seq::empty()
    } else if pieces.len() == 1 {
        pieces[0]
    } else {
        join(pieces.drop_last(), sep).push(sep) + pieces.last()
    }
}

/// The pieces written one after the other with nothing between them.
pub open spec fn concat(pieces: Seq<Seq<char>>) -> Seq<char>
    decreases pieces.len(),
{
    if pieces.len() == 0 {
        Seq::empty()
    } else {
        concat(pieces.drop_last()) + pieces.last()
    }
}

/// The items with `sep` placed between each two of them.
pub open spec fn interspersed(items: Seq<Seq<char>>, sep: Seq<char>) -> Seq<Seq<char>> {
    Seq::new(
        if items.len() == 0 {
            0nat
        } else {
            (2 * items.len() - 1) as nat
        },
        |i: int|
            if i % 2 == 0 {
                items[i / 2]
            } else {
                sep
            },
    )
}

/// A split always yields at least one piece.
pub proof fn lemma_split_nonempty(text: Seq<char>, sep: char)
    ensures
        split(text, sep).len() >= 1,
    decreases text.len(),
{
    if text.len() > 0 {
        lemma_split_nonempty(text.drop_last(), sep);
    }
}

/// A text that is free of the separator is its own only piece.
pub proof fn lemma_split_plain(text: Seq<char>, sep: char)
    requires
        free_of(text, sep),
    ensures
        split(text, sep) == seq![text],
    decreases text.len(),
{
    if text.len() == 0 {
        assert(text =~= Seq::<char>::empty());
    } else {
        lemma_split_plain(text.drop_last(), sep);
        assert(text.drop_last().push(text.last()) =~= text);
        assert(seq![text.drop_last()].drop_last().push(text) =~= seq![text]);
    }
}

/// After a separator, a tail that is free of it is one more piece.
pub proof fn lemma_split_append(head: Seq<char>, tail: Seq<char>, sep: char)
    requires
        free_of(tail, sep),
    ensures
        split(head.push(sep) + tail, sep) == split(head, sep).push(tail),
    decreases tail.len(),
{
    let whole = head.push(sep) + tail;
    if tail.len() == 0 {
        assert(tail =~= Seq::<char>::empty());
        assert(whole =~= head.push(sep));
        assert(whole.drop_last() =~= head);
    } else {
        let shorter = tail.drop_last();
        lemma_split_append(head, shorter, sep);
        assert(whole.drop_last() =~= head.push(sep) + shorter);
        assert(whole.last() == tail[tail.len() - 1]);
        assert(split(head, sep).push(shorter).drop_last() =~= split(head, sep));
        assert(shorter.push(tail.last()) =~= tail);
    }
}

/// Splitting undoes joining: pieces that are free of the separator come back
/// as they were, provided there is at least one.
pub proof fn lemma_split_join(pieces: Seq<Seq<char>>, sep: char)
    requires
        pieces.len() >= 1,
        forall|i: int| 0 <= i < pieces.len() ==> free_of(#[trigger] pieces[i], sep),
    ensures
        split(join(pieces, sep), sep) == pieces,
    decreases pieces.len(),
{
    if pieces.len() == 1 {
        lemma_split_plain(pieces[0], sep);
        assert(seq![pieces[0]] =~= pieces);
    } else {
        let before = pieces.drop_last();
        assert forall|i: int| 0 <= i < before.len() implies free_of(#[trigger] before[i], sep) by {
            assert(before[i] == pieces[i]);
        }
        lemma_split_join(before, sep);
        lemma_split_append(join(before, sep), pieces.last(), sep);
        assert(before.push(pieces.last()) =~= pieces);
    }
}

/// Joining undoes splitting: the pieces of a text, joined, are the text, and
/// no piece holds the separator.
pub proof fn lemma_join_split(text: Seq<char>, sep: char)
    ensures
        join(split(text, sep), sep) == text,
        forall|i: int| 0 <= i < split(text, sep).len() ==> free_of(#[trigger] split(text, sep)[i], sep),
    decreases text.len(),
{
    lemma_split_nonempty(text, sep);
    if text.len() == 0 {
    } else {
        let shorter = text.drop_last();
        let before = split(shorter, sep);
        lemma_join_split(shorter, sep);
        lemma_split_nonempty(shorter, sep);
        let now = split(text, sep);
        if text.last() == sep {
            assert(now.drop_last() =~= before);
            assert(join(now, sep) =~= text);
        } else {
            let grown = before.last().push(text.last());
            assert(now.last() == grown);
            assert(now.drop_last() =~= before.drop_last());
            if before.len() == 1 {
                assert(before[0] == join(before, sep));
                assert(now.len() == 1);
                assert(grown =~= text);
                assert(join(now, sep) == now[0]);
            } else {
                let stem = join(before.drop_last(), sep).push(sep);
                assert(join(before, sep) == stem + before.last());
                assert(now.len() == before.len());
                assert(join(now, sep) == join(now.drop_last(), sep).push(sep) + now.last());
                assert(stem + grown =~= (stem + before.last()).push(text.last()));
                assert(shorter.push(text.last()) =~= text);
            }
            assert forall|i: int| 0 <= i < now.len() implies free_of(#[trigger] now[i], sep) by {
                if i < now.len() - 1 {
                    assert(now[i] == before[i]);
                } else {
                    assert(free_of(before[before.len() - 1], sep));
                }
            }
        }
    }
}

/// Writing the interspersed items one after the other is joining the items.
pub proof fn lemma_concat_interspersed(items: Seq<Seq<char>>, sep: char)
    ensures
        concat(interspersed(items, seq![sep])) == join(items, sep),
    decreases items.len(),
{
    let all = interspersed(items, seq![sep]);
    if items.len() == 0 {
    } else if items.len() == 1 {
        assert(all.len() == 1);
        assert(all.last() == items[0]);
        assert(concat(all.drop_last()) =~= Seq::<char>::empty());
        assert(concat(all) =~= items[0]);
    } else {
        let before = interspersed(items.drop_last(), seq![sep]);
        lemma_concat_interspersed(items.drop_last(), sep);
        assert(all.last() == items.last());
        assert(all.drop_last().last() == seq![sep]);
        assert(all.drop_last().drop_last() =~= before);
        assert(concat(all.drop_last()) == concat(all.drop_last().drop_last()) + seq![sep]);
        assert(concat(all) =~= join(items.drop_last(), sep).push(sep) + items.last());
    }
}

/// Calls `Itertools::intersperse` of itertools on the items and collects what
/// it yields: the items in their order, with a copy of `sep` between each two.
#[verifier::external_body]
fn intersperse(items: Vec<String>, sep: String) -> (out: Vec<String>)
    ensures
        views(out@) == interspersed(views(items@), sep@),
{
    Itertools::intersperse(items.into_iter(), sep).collect()
}

/// Whether `sep` occurs in `text`.
pub fn has_char(text: &str, sep: char) -> (r: bool)
    ensures
        r == !free_of(text@, sep),
{
    let mut rest = text.chars();
    let ghost mut seen: int = 0;
    loop
        invariant
            0 <= seen <= text@.len(),
            rest.remaining() == text@.skip(seen),
            free_of(text@.take(seen), sep),
        ensures
            seen == text@.len(),
        decreases text@.len() - seen,
    {
        match rest.next() {
            Some(c) => {
                proof {
                    assert(c == text@[seen]);
                    assert(text@.skip(seen).drop_first() =~= text@.skip(seen + 1));
                }
                if c == sep {
                    return true;
                }
                proof {
                    let longer = text@.take(seen + 1);
                    assert forall|i: int| 0 <= i < longer.len() implies #[trigger] longer[i]
                        != sep by {
                        if i < seen {
                            assert(text@.take(seen)[i] == text@[i]);
                        }
                    }
                    seen = seen + 1;
                }
            },
            None => {
                break ;
            },
        }
    }
    proof {
        assert(text@.take(seen) =~= text@);
    }
    false
}

/// Cuts `text` at every `sep`.
pub fn split_text(text: &str, sep: char) -> (pieces: Vec<String>)
    ensures
        views(pieces@) == split(text@, sep),
{
    let mut pieces: Vec<String> = Vec::new();
    let mut piece = String::new();
    let mut rest = text.chars();
    let ghost mut seen: int = 0;
    proof {
        assert(text@.take(0) =~= Seq::empty());
        assert(views(pieces@).push(piece@) =~= seq![Seq::<char>::empty()]);
    }
    loop
        invariant
            0 <= seen <= text@.len(),
            rest.remaining() == text@.skip(seen),
            split(text@.take(seen), sep) == views(pieces@).push(piece@),
        ensures
            seen == text@.len(),
        decreases text@.len() - seen,
    {
        let ghost earlier = views(pieces@);
        let ghost partial = piece@;
        match rest.next() {
            Some(c) => {
                proof {
                    assert(c == text@[seen]);
                    assert(text@.take(seen + 1).drop_last() =~= text@.take(seen));
                    assert(text@.skip(seen).drop_first() =~= text@.skip(seen + 1));
                    seen = seen + 1;
                }
                if c == sep {
                    pieces.push(piece);
                    piece = String::new();
                    proof {
                        assert(views(pieces@) =~= earlier.push(partial));
                    }
                } else {
                    piece.push(c);
                    proof {
                        assert(earlier.push(partial).drop_last() =~= earlier);
                    }
                }
            },
            None => {
                break ;
            },
        }
    }
    let ghost earlier = views(pieces@);
    pieces.push(piece);
    proof {
        assert(text@.take(seen) =~= text@);
        assert(views(pieces@) =~= earlier.push(piece@));
    }
    pieces
}

/// Writes the items one after the other with `sep` between each two.
pub fn join_texts(items: Vec<String>, sep: char) -> (text: String)
    ensures
        text@ == join(views(items@), sep),
{
    let mut between = String::new();
    between.push(sep);
    let ghost wanted = interspersed(views(items@), seq![sep]);
    proof {
        assert(between@ =~= seq![sep]);
        lemma_concat_interspersed(views(items@), sep);
    }
    let all = intersperse(items, between);
    let mut text = String::new();
    let mut i: usize = 0;
    proof {
        assert(wanted.take(0) =~= Seq::empty());
    }
    while i < all.len()
        invariant
            i <= all.len(),
            views(all@) == wanted,
            text@ == concat(wanted.take(i as int)),
        decreases all.len() - i,
    {
        proof {
            assert(wanted.take(i + 1).drop_last() =~= wanted.take(i as int));
            assert(wanted.take(i + 1).last() == all@[i as int]@);
        }
        text.append(all[i].as_str());
        i = i + 1;
    }
    proof {
        assert(wanted.take(i as int) =~= wanted);
    }
    text
}

} // verus!
