//! Building the free-text `extras` column: bracketed annotations, and the
//! joining of those that are present.
use vstd::prelude::*;
use vstd::string::*;
use crate::records::{or_empty, text};

verus! {

/// The annotation that records a `favorite` column: `[favourite:<value>]`.
pub open spec fn favourite_note(value: Seq<char>) -> Seq<char> {
    "[favourite:"@ + value + "]"@
}

/// The annotation that records a `reprompt` column: `[reprompt:<value>]`.
pub open spec fn reprompt_note(value: Seq<char>) -> Seq<char> {
    "[reprompt:"@ + value + "]"@
}

/// The items of `items` that are present, in their order.
pub open spec fn present(items: Seq<Option<Seq<char>>>) -> Seq<Seq<char>>
    decreases items.len(),
{
    if items.len() == 0 {
        Seq::empty()
    } else {
        let before = present(items.drop_last());
        match items.last() {
            Some(s) => before.push(s),
            None => before,
        }
    }
}

/// `parts` written one after another with `sep` between each two neighbours.
pub open spec fn joined(parts: Seq<Seq<char>>, sep: Seq<char>) -> Seq<char>
    decreases parts.len(),
{
    if parts.len() == 0 {
        Seq::empty()
    } else if parts.len() == 1 {
        parts[0]
    } else {
        joined(parts.drop_last(), sep) + sep + parts.last()
    }
}

/// The views of a list of optional strings.
pub open spec fn texts(items: Seq<Option<String>>) -> Seq<Option<Seq<char>>> {
    Seq::new(items.len(), |i: int| text(items[i]))
}

/// Joining what is present of two optional annotations gives one of four
/// texts, by which of them are there.
pub proof fn lemma_join_two(a: Option<Seq<char>>, b: Option<Seq<char>>, sep: Seq<char>)
    ensures
        joined(present(seq![a, b]), sep) == match (a, b) {
            (Some(x), Some(y)) => x + sep + y,
            (Some(x), None) => x,
            (None, Some(y)) => y,
            (None, None) => Seq::empty(),
        },
{
    let both = seq![a, b];
    let head = seq![a];
    assert(both.drop_last() =~= head);
    assert(head.drop_last() =~= Seq::<Option<Seq<char>>>::empty());
    assert(present(head.drop_last()) =~= Seq::<Seq<char>>::empty());
    match (a, b) {
        (Some(x), Some(y)) => {
            assert(present(head) =~= seq![x]);
            assert(present(both) =~= seq![x, y]);
            assert(present(both).drop_last() =~= seq![x]);
            assert(joined(seq![x], sep) == x);
            assert(joined(present(both), sep) == x + sep + y);
        },
        (Some(x), None) => {
            assert(present(head) =~= seq![x]);
            assert(present(both) =~= seq![x]);
            assert(joined(seq![x], sep) == x);
        },
        (None, Some(y)) => {
            assert(present(head) =~= Seq::<Seq<char>>::empty());
            assert(present(both) =~= seq![y]);
            assert(joined(seq![y], sep) == y);
        },
        (None, None) => {
            assert(present(head) =~= Seq::<Seq<char>>::empty());
            assert(present(both) =~= Seq::<Seq<char>>::empty());
        },
    }
}

/// Joining what is present of a single optional text gives that text, or the
/// empty text where it is absent.
pub proof fn lemma_join_one(a: Option<Seq<char>>, sep: Seq<char>)
    ensures
        joined(present(seq![a]), sep) == or_empty(a),
{
    let only = seq![a];
    assert(present(only.drop_last()) =~= Seq::<Seq<char>>::empty());
    match a {
        Some(x) => {
            assert(present(only) =~= seq![x]);
            assert(joined(seq![x], sep) == x);
        },
        None => {
            assert(present(only) =~= Seq::<Seq<char>>::empty());
        },
    }
}

/// `open`, then `value`, then a closing square bracket.
pub fn bracketed(open: &str, value: &str) -> (r: String)
    ensures
        r@ == open@ + value@ + "]"@,
{
    let mut r = String::from_str(open);
    r.append(value);
    r.append("]");
    r
}

/// Joins the items that are present with `sep`; absent items leave no trace,
/// and a list with nothing present gives the empty string.
pub fn join_present(items: &Vec<Option<String>>, sep: &str) -> (r: String)
    ensures
        r@ == joined(present(texts(items@)), sep@),
{
    let mut r = String::new();
    let mut any = false;
    let mut i: usize = 0;
    while i < items.len()
        invariant
            i <= items.len(),
            any == (present(texts(items@).take(i as int)).len() > 0),
            r@ == joined(present(texts(items@).take(i as int)), sep@),
        decreases items.len() - i,
    {
        let ghost done = texts(items@).take(i as int);
        let ghost next = texts(items@).take(i + 1);
        assert(next.drop_last() =~= done);
        assert(next.last() == text(items@[i as int]));
        match &items[i] {
            Some(s) => {
                assert(present(next) == present(done).push(s@));
                assert(present(next).drop_last() =~= present(done));
                if any {
                    r.append(sep);
                }
                r.append(s.as_str());
                any = true;
            },
            None => {},
        }
        i += 1;
    }
    assert(texts(items@).take(i as int) =~= texts(items@));
    r
}

} // verus!
