//! Dictionary order on text, as sequences of characters.

use vstd::prelude::*;
use vstd::relations::total_ordering;
use vstd::std_specs::iter::IteratorSpec;

verus! {

/// `a` and `b` hold the same characters at every position below `k`.
pub open spec fn agree_before(a: Seq<char>, b: Seq<char>, k: int) -> bool {
    &&& 0 <= k <= a.len()
    &&& k <= b.len()
    &&& forall|i: int| 0 <= i < k ==> a[i] == b[i]
}

/// `a` and `b` first differ at position `k`, where `a` holds the smaller
/// character.
pub open spec fn smaller_at(a: Seq<char>, b: Seq<char>, k: int) -> bool {
    &&& agree_before(a, b, k)
    &&& k < a.len()
    &&& k < b.len()
    &&& a[k] < b[k]
}

/// Dictionary order by character code: `a` is a prefix of `b`, or holds the
/// smaller character where the two first differ.
pub open spec fn text_le(a: Seq<char>, b: Seq<char>) -> bool {
    ||| agree_before(a, b, a.len() as int)
    ||| exists|k: int| smaller_at(a, b, k)
}

/// Whether `a` comes before `b` in dictionary order, or equals it.
pub fn precedes(a: &str, b: &str) -> (le: bool)
    ensures
        le == text_le(a@, b@),
{
    let mut rest_a = a.chars();
    let mut rest_b = b.chars();
    let ghost mut n: int = 0;
    loop
        invariant
            agree_before(a@, b@, n),
            rest_a.remaining() == a@.skip(n),
            rest_b.remaining() == b@.skip(n),
        decreases a@.len() - n,
    {
        let next_a = rest_a.next();
        let next_b = rest_b.next();
        match (next_a, next_b) {
            (None, _) => {
                return true;
            },
            (Some(_), None) => {
                return false;
            },
            (Some(x), Some(y)) => {
                if x != y {
                    assert(x < y ==> smaller_at(a@, b@, n));
                    return x < y;
                }
                proof {
                    n = n + 1;
                }
            },
        }
    }
}

/// Every text comes before or equals itself.
pub proof fn text_le_reflexive(a: Seq<char>)
    ensures
        text_le(a, a),
{
}

/// Two texts that each come before or equal the other are the same text.
pub proof fn text_le_antisymmetric(a: Seq<char>, b: Seq<char>)
    requires
        text_le(a, b),
        text_le(b, a),
    ensures
        a == b,
{
}

/// The order is transitive.
pub proof fn text_le_transitive(a: Seq<char>, b: Seq<char>, c: Seq<char>)
    requires
        text_le(a, b),
        text_le(b, c),
    ensures
        text_le(a, c),
{
    if agree_before(a, b, a.len() as int) {
        if !agree_before(b, c, b.len() as int) {
            let k = choose|k: int| smaller_at(b, c, k);
            if k < a.len() {
                assert(smaller_at(a, c, k));
            }
        }
    } else {
        let j = choose|j: int| smaller_at(a, b, j);
        if agree_before(b, c, b.len() as int) {
            assert(smaller_at(a, c, j));
        } else {
            let k = choose|k: int| smaller_at(b, c, k);
            if j <= k {
                assert(smaller_at(a, c, j));
            } else {
                assert(smaller_at(a, c, k));
            }
        }
    }
}

/// Any two texts are ordered one way or the other.
pub proof fn text_le_total(a: Seq<char>, b: Seq<char>)
    ensures
        text_le(a, b) || text_le(b, a),
{
    first_difference(a, b, 0);
}

/// From a position up to which `a` and `b` agree, walks to their first
/// difference or to the end of the shorter one.
proof fn first_difference(a: Seq<char>, b: Seq<char>, n: int)
    requires
        agree_before(a, b, n),
    ensures
        text_le(a, b) || text_le(b, a),
    decreases a.len() - n,
{
    if n == a.len() {
    } else if n == b.len() {
    } else if a[n] == b[n] {
        first_difference(a, b, n + 1);
    } else if a[n] < b[n] {
        assert(smaller_at(a, b, n));
    } else {
        assert(smaller_at(b, a, n));
    }
}

/// Dictionary order, as a relation.
pub open spec fn text_order() -> spec_fn(Seq<char>, Seq<char>) -> bool {
    |a: Seq<char>, b: Seq<char>| text_le(a, b)
}

/// Dictionary order is a total order on texts.
pub proof fn text_order_is_total()
    ensures
        total_ordering(text_order()),
{
    let leq = text_order();
    assert forall|a: Seq<char>| #[trigger] leq(a, a) by {
        text_le_reflexive(a);
    }
    assert forall|a: Seq<char>, b: Seq<char>| #[trigger] leq(a, b) && #[trigger] leq(b, a) implies a
        == b by {
        text_le_antisymmetric(a, b);
    }
    assert forall|a: Seq<char>, b: Seq<char>, c: Seq<char>| #[trigger]
        leq(a, b) && #[trigger] leq(b, c) implies leq(a, c) by {
        text_le_transitive(a, b, c);
    }
    assert forall|a: Seq<char>, b: Seq<char>| #[trigger] leq(a, b) || #[trigger] leq(b, a) by {
        text_le_total(a, b);
    }
}

} // verus!
