//! Removal of the marked elements of a sequence.
//!
//! Deleting network elements removes a marked subset of a sequence and
//! shifts every later element down. The functions here describe that
//! operation: `masked` keeps the unmarked elements in order, and
//! `cnt_removed` counts the marked elements below a position, which is
//! exactly how far a kept element moves down.

use vstd::prelude::*;

verus! {

/// Number of marked positions among `mask[0 .. x]`.
pub open spec fn cnt_removed(mask: Seq<bool>, x: int) -> int
    decreases x,
{
    if x <= 0 {
        0
    } else {
        cnt_removed(mask, x - 1) + if mask[x - 1] {
            1int
        } else {
            0int
        }
    }
}

/// The unmarked elements of `s`, in order.
pub open spec fn masked<T>(s: Seq<T>, mask: Seq<bool>) -> Seq<T>
    decreases s.len(),
{
    if s.len() == 0 {
        Seq::empty()
    } else {
        masked(s.drop_last(), mask) + if mask[s.len() - 1] {
            Seq::empty()
        } else {
            seq![s.last()]
        }
    }
}

/// The count of marked positions never decreases and never exceeds the
/// range it counts.
pub proof fn lemma_cnt_bounds(mask: Seq<bool>, x: int)
    requires
        0 <= x,
    ensures
        0 <= cnt_removed(mask, x) <= x,
    decreases x,
{
    if x > 0 {
        lemma_cnt_bounds(mask, x - 1);
    }
}

/// The count of marked positions is monotone in the position.
pub proof fn lemma_cnt_monotone(mask: Seq<bool>, x: int, y: int)
    requires
        0 <= x <= y,
    ensures
        cnt_removed(mask, x) <= cnt_removed(mask, y),
    decreases y - x,
{
    if x < y {
        lemma_cnt_monotone(mask, x, y - 1);
    }
}

/// Removing the marked elements keeps exactly the unmarked count.
pub proof fn lemma_masked_len<T>(s: Seq<T>, mask: Seq<bool>)
    requires
        s.len() == mask.len(),
    ensures
        masked(s, mask).len() == s.len() - cnt_removed(mask, s.len() as int),
    decreases s.len(),
{
    lemma_masked_len_partial(s, mask, s.len() as int);
    assert(s.take(s.len() as int) =~= s);
}

/// Removing the marked elements of a prefix keeps exactly its unmarked
/// count.
proof fn lemma_masked_len_partial<T>(s: Seq<T>, mask: Seq<bool>, x: int)
    requires
        0 <= x <= s.len(),
    ensures
        masked(s.take(x), mask).len() == x - cnt_removed(mask, x),
    decreases x,
{
    if x > 0 {
        lemma_masked_len_partial(s, mask, x - 1);
        assert(s.take(x).drop_last() =~= s.take(x - 1));
        assert(s.take(x).len() == x);
    } else {
        assert(s.take(0) =~= Seq::<T>::empty());
    }
}

/// An unmarked element at position `x` survives the removal and lands at
/// position `x` minus the number of marked positions below it.
pub proof fn lemma_masked_index<T>(s: Seq<T>, mask: Seq<bool>, x: int)
    requires
        s.len() == mask.len(),
        0 <= x < s.len(),
        !mask[x],
    ensures
        0 <= x - cnt_removed(mask, x) < masked(s, mask).len(),
        masked(s, mask)[x - cnt_removed(mask, x)] == s[x],
    decreases s.len(),
{
    lemma_cnt_bounds(mask, x);
    lemma_masked_len(s, mask);
    lemma_cnt_monotone(mask, x + 1, s.len() as int);
    if x == s.len() - 1 {
        assert(masked(s, mask) == masked(s.drop_last(), mask) + seq![s.last()]);
        assert(s.drop_last().len() == mask.len() - 1);
        lemma_masked_len_prefix(s, mask);
    } else {
        let s2 = s.drop_last();
        let m2 = mask.drop_last();
        assert(s2.len() == m2.len());
        lemma_masked_same(s2, mask, m2);
        lemma_masked_index(s2, m2, x);
        assert(cnt_removed(m2, x) == cnt_removed(mask, x)) by {
            lemma_cnt_prefix_agree(mask, m2, x);
        }
        if mask[s.len() - 1] {
            assert(masked(s, mask) == masked(s2, mask));
        } else {
            assert(masked(s, mask) == masked(s2, mask) + seq![s.last()]);
        }
        assert(masked(s2, mask) == masked(s2, m2));
        assert(masked(s, mask)[x - cnt_removed(mask, x)] == masked(s2, m2)[x - cnt_removed(
            mask,
            x,
        )]);
    }
}

/// The removal result of a prefix has the prefix's kept length.
proof fn lemma_masked_len_prefix<T>(s: Seq<T>, mask: Seq<bool>)
    requires
        s.len() == mask.len(),
        s.len() > 0,
    ensures
        masked(s.drop_last(), mask).len() == s.len() - 1 - cnt_removed(mask, s.len() - 1),
{
    assert(s.drop_last() =~= s.take(s.len() - 1));
    lemma_masked_len_partial(s, mask, s.len() - 1);
}

/// Counting below a position only reads the mask below it.
proof fn lemma_cnt_prefix_agree(mask: Seq<bool>, m2: Seq<bool>, x: int)
    requires
        0 <= x <= m2.len(),
        forall|k: int| 0 <= k < m2.len() ==> m2[k] == mask[k],
    ensures
        cnt_removed(m2, x) == cnt_removed(mask, x),
    decreases x,
{
    if x > 0 {
        lemma_cnt_prefix_agree(mask, m2, x - 1);
    }
}

/// The removal only reads the mask below the sequence's length.
proof fn lemma_masked_same<T>(s: Seq<T>, mask: Seq<bool>, m2: Seq<bool>)
    requires
        s.len() <= mask.len(),
        s.len() <= m2.len(),
        forall|k: int| 0 <= k < s.len() ==> mask[k] == m2[k],
    ensures
        masked(s, mask) == masked(s, m2),
    decreases s.len(),
{
    if s.len() > 0 {
        lemma_masked_same(s.drop_last(), mask, m2);
    }
}

/// Every element of the removal result comes from an unmarked position.
pub proof fn lemma_masked_elements<T>(s: Seq<T>, mask: Seq<bool>)
    requires
        s.len() == mask.len(),
    ensures
        forall|j: int|
            0 <= j < masked(s, mask).len() ==> exists|x: int|
                0 <= x < s.len() && !mask[x] && (#[trigger] masked(s, mask)[j]) == (
                #[trigger] s[x]),
    decreases s.len(),
{
    if s.len() > 0 {
        let s2 = s.drop_last();
        let m2 = mask.drop_last();
        lemma_masked_same_pub(s2, mask, m2);
        lemma_masked_elements(s2, m2);
        assert forall|j: int| 0 <= j < masked(s, mask).len() implies exists|x: int|
            0 <= x < s.len() && !mask[x] && (#[trigger] masked(s, mask)[j]) == (
        #[trigger] s[x]) by {
            if j < masked(s2, m2).len() {
                assert(masked(s, mask)[j] == masked(s2, m2)[j]);
                let x = choose|x: int|
                    0 <= x < s2.len() && !m2[x] && masked(s2, m2)[j] == s2[x];
                assert(s[x] == s2[x]);
                assert(0 <= x < s.len() && !mask[x] && masked(s, mask)[j] == s[x]);
            } else {
                assert(!mask[s.len() - 1]);
                assert(masked(s, mask)[j] == s[s.len() - 1]);
            }
        }
    }
}

/// The removal only reads the mask below the sequence's length.
pub proof fn lemma_masked_same_pub<T>(s: Seq<T>, mask: Seq<bool>, m2: Seq<bool>)
    requires
        s.len() <= mask.len(),
        s.len() <= m2.len(),
        forall|k: int| 0 <= k < s.len() ==> mask[k] == m2[k],
    ensures
        masked(s, mask) == masked(s, m2),
    decreases s.len(),
{
    if s.len() > 0 {
        lemma_masked_same_pub(s.drop_last(), mask, m2);
    }
}

} // verus!
