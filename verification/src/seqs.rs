//! Sequences read item by item, keeping what a choice function keeps.

use vstd::prelude::*;

verus! {

/// What `choice` makes of the items of `s` for which it gives something, in
/// the order of `s`.
pub open spec fn kept<A, B>(s: Seq<A>, choice: spec_fn(A) -> Option<B>) -> Seq<B>
    decreases s.len(),
{
    if s.len() == 0 {
        Seq::empty()
    } else {
        match choice(s.last()) {
            Some(b) => kept(s.drop_last(), choice).push(b),
            None => kept(s.drop_last(), choice),
        }
    }
}

/// Reading one sequence after another keeps what reading each one keeps.
pub proof fn lemma_kept_concat<A, B>(a: Seq<A>, b: Seq<A>, choice: spec_fn(A) -> Option<B>)
    ensures
        kept(a + b, choice) == kept(a, choice) + kept(b, choice),
    decreases b.len(),
{
    if b.len() == 0 {
        assert(a + b == a);
        assert(kept(a, choice) + kept(b, choice) == kept(a, choice));
    } else {
        assert((a + b).drop_last() == a + b.drop_last());
        assert((a + b).last() == b.last());
        lemma_kept_concat(a, b.drop_last(), choice);
        match choice(b.last()) {
            Some(x) => {
                assert((kept(a, choice) + kept(b.drop_last(), choice)).push(x) == kept(a, choice)
                    + kept(b.drop_last(), choice).push(x));
            },
            None => {},
        }
    }
}

/// A sequence read around its item `i`: what is kept of the items before
/// it, then what is kept of that item, then what is kept of the items after.
pub proof fn lemma_kept_split<A, B>(s: Seq<A>, i: int, choice: spec_fn(A) -> Option<B>)
    requires
        0 <= i < s.len(),
    ensures
        kept(s, choice) == kept(s.take(i), choice) + kept(seq![s[i]], choice) + kept(
            s.skip(i + 1),
            choice,
        ),
        kept(seq![s[i]], choice) == match choice(s[i]) {
            Some(b) => seq![b],
            None => Seq::empty(),
        },
{
    assert(s == s.take(i) + seq![s[i]] + s.skip(i + 1));
    lemma_kept_concat(s.take(i) + seq![s[i]], s.skip(i + 1), choice);
    lemma_kept_concat(s.take(i), seq![s[i]], choice);
    let one = seq![s[i]];
    assert(one.drop_last() == Seq::<A>::empty());
    assert(kept(one.drop_last(), choice) == Seq::<B>::empty());
    match choice(s[i]) {
        Some(b) => {
            assert(Seq::<B>::empty().push(b) == seq![b]);
        },
        None => {},
    }
}

/// An item that is kept stands in the result behind all that is kept of the
/// items before it, and before all that is kept of the items after it.
pub proof fn lemma_kept_place<A, B>(s: Seq<A>, i: int, choice: spec_fn(A) -> Option<B>)
    requires
        0 <= i < s.len(),
        choice(s[i]) is Some,
    ensures
        kept(s.take(i), choice).len() < kept(s, choice).len(),
        choice(s[i]) == Some(kept(s, choice)[kept(s.take(i), choice).len() as int]),
        kept(s.take(i + 1), choice).len() == kept(s.take(i), choice).len() + 1,
{
    lemma_kept_split(s, i, choice);
    assert(s.take(i + 1) == s.take(i) + seq![s[i]]);
    lemma_kept_concat(s.take(i), seq![s[i]], choice);
}

/// Putting an item that is not kept in the place of one that is kept takes
/// exactly that one out of the result and leaves the others as they were.
pub proof fn lemma_kept_without<A, B>(s: Seq<A>, i: int, other: A, choice: spec_fn(A) -> Option<B>)
    requires
        0 <= i < s.len(),
        choice(s[i]) is Some,
        choice(other) is None,
    ensures
        kept(s.update(i, other), choice).len() == kept(s, choice).len() - 1,
        kept(s.update(i, other), choice) == kept(s, choice).remove(
            kept(s.take(i), choice).len() as int,
        ),
{
    let t = s.update(i, other);
    lemma_kept_split(s, i, choice);
    lemma_kept_split(t, i, choice);
    assert(t.take(i) == s.take(i));
    assert(t.skip(i + 1) == s.skip(i + 1));
    let front = kept(s.take(i), choice);
    let back = kept(s.skip(i + 1), choice);
    let one = seq![choice(s[i])->0];
    assert(kept(t, choice) == front + back);
    assert((front + one + back).remove(front.len() as int) == front + back);
}

} // verus!
