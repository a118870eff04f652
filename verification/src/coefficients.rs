//! Dense coefficient vectors: what the engine keeps of one.
//!
//! A column is given by one coefficient for each row, a row by one for each
//! column. The engine stores the entries that differ from zero, each with its
//! position, and wants their number with the vector.

use vstd::prelude::*;
use crate::scalar::Real;

verus! {

/// How many entries of the vector differ from zero.
pub open spec fn nonzero_count(entries: Seq<Real>) -> nat
    decreases entries.len(),
{
    if entries.len() == 0 {
        0
    } else if entries.last().is_zero() {
        nonzero_count(entries.drop_last())
    } else {
        nonzero_count(entries.drop_last()) + 1
    }
}

/// How far the vector reaches: one more than the position of its last entry
/// that differs from zero, and 0 where no entry does.
pub open spec fn extent(entries: Seq<Real>) -> nat
    decreases entries.len(),
{
    if entries.len() == 0 {
        0
    } else if entries.last().is_zero() {
        extent(entries.drop_last())
    } else {
        entries.len()
    }
}

/// The extent of a vector is at most its length; behind it every entry is
/// zero, and the entry just before it is not.
pub proof fn lemma_extent(entries: Seq<Real>)
    ensures
        extent(entries) <= entries.len(),
        forall|i: int| extent(entries) <= i < entries.len() ==> (#[trigger] entries[i]).is_zero(),
        extent(entries) > 0 ==> !entries[extent(entries) - 1].is_zero(),
    decreases entries.len(),
{
    if entries.len() > 0 && entries.last().is_zero() {
        let front = entries.drop_last();
        lemma_extent(front);
        assert forall|i: int| extent(entries) <= i < entries.len() implies (#[trigger] entries[i]).is_zero() by {
            if i < front.len() {
                assert(front[i] == entries[i]);
            }
        }
        if extent(entries) > 0 {
            assert(front[extent(front) - 1] == entries[extent(entries) - 1]);
        }
    }
}

/// No vector has more entries that differ from zero than it reaches far, and
/// it has none exactly where its extent is 0.
pub proof fn lemma_nonzero_count(entries: Seq<Real>)
    ensures
        nonzero_count(entries) <= extent(entries),
        nonzero_count(entries) == 0 <==> extent(entries) == 0,
    decreases entries.len(),
{
    if entries.len() > 0 {
        let front = entries.drop_last();
        lemma_nonzero_count(front);
        lemma_extent(front);
    }
}

/// Counts the entries that differ from zero, and finds how far the vector
/// reaches: the two numbers in this order.
pub fn measure(entries: &[Real]) -> (m: (usize, usize))
    ensures
        m.0 == nonzero_count(entries@),
        m.1 == extent(entries@),
        m.0 <= m.1 <= entries.len(),
{
    let mut count: usize = 0;
    let mut reach: usize = 0;
    let mut i: usize = 0;
    proof {
        assert(entries@.take(0) =~= Seq::<Real>::empty());
    }
    while i < entries.len()
        invariant
            i <= entries.len(),
            count == nonzero_count(entries@.take(i as int)),
            reach == extent(entries@.take(i as int)),
            count <= reach <= i,
        decreases entries.len() - i,
    {
        proof {
            let next = entries@.take(i + 1);
            assert(next.drop_last() =~= entries@.take(i as int));
            assert(next.last() == entries@[i as int]);
        }
        if !entries[i].equals_zero() {
            count = count + 1;
            reach = i + 1;
        }
        i = i + 1;
    }
    proof {
        assert(entries@.take(i as int) =~= entries@);
    }
    (count, reach)
}

} // verus!
