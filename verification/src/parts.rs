//! Completed parts, and their ordering for finalization.
//!
//! Parts complete in an arbitrary order under concurrency, but the
//! remote completion protocol requires them listed in ascending
//! part-number order; the coordinator therefore collects results
//! unordered and sorts once at that boundary.

use vstd::prelude::*;

verus! {

/// Result of one successful part upload.
pub struct CompletedPart {
    /// 1-based number assigned to the chunk when it was submitted.
    pub part_number: usize,
    /// Opaque identifier the remote store returned for this part.
    pub e_tag: String,
}

/// No two parts share a part number.
pub open spec fn distinct_part_numbers(s: Seq<CompletedPart>) -> bool {
    forall|i: int, j: int|
        0 <= i < j < s.len() ==> (#[trigger] s[i]).part_number != (#[trigger] s[j]).part_number
}

/// Part numbers strictly ascend from left to right.
pub open spec fn strictly_sorted_by_part_number(s: Seq<CompletedPart>) -> bool {
    forall|i: int, j: int|
        0 <= i < j < s.len() ==> (#[trigger] s[i]).part_number < (#[trigger] s[j]).part_number
}

/// Index bookkeeping for removing one element of a sequence: every
/// remaining element keeps its identity, nothing else leaves, and
/// nothing new appears.
proof fn lemma_remove_maps(s: Seq<CompletedPart>, m: int)
    requires
        0 <= m < s.len(),
    ensures
        s.remove(m).len() == s.len() - 1,
        forall|i: int| 0 <= i < m ==> #[trigger] s.remove(m)[i] == s[i],
        forall|i: int| m <= i < s.len() - 1 ==> #[trigger] s.remove(m)[i] == s[i + 1],
        forall|p: CompletedPart| #[trigger] s.remove(m).contains(p) ==> s.contains(p),
        forall|j: int| 0 <= j < s.len() && j != m ==> s.remove(m).contains(#[trigger] s[j]),
{
    s.remove_ensures(m);
    assert forall|p: CompletedPart| #[trigger] s.remove(m).contains(p) implies s.contains(p) by {
        let t = choose|t: int| 0 <= t < s.remove(m).len() && s.remove(m)[t] == p;
        if t < m {
            assert(s[t] == p);
        } else {
            assert(s[t + 1] == p);
        }
    }
    assert forall|j: int| 0 <= j < s.len() && j != m implies s.remove(m).contains(
        #[trigger] s[j],
    ) by {
        if j < m {
            assert(s.remove(m)[j] == s[j]);
        } else {
            assert(s.remove(m)[j - 1] == s[j]);
        }
    }
}

/// Sort completed parts into ascending part-number order.
///
/// Completion order is arbitrary, but every part was numbered once, so
/// the numbers are pairwise distinct.  The result holds exactly the
/// parts given, with part numbers strictly ascending.
pub fn sort_parts(parts: Vec<CompletedPart>) -> (sorted: Vec<CompletedPart>)
    requires
        distinct_part_numbers(parts@),
    ensures
        sorted@.len() == parts@.len(),
        strictly_sorted_by_part_number(sorted@),
        forall|p: CompletedPart| #[trigger] sorted@.contains(p) <==> parts@.contains(p),
{
    let ghost orig = parts@;
    let mut rest = parts;
    let mut sorted: Vec<CompletedPart> = Vec::new();
    while rest.len() > 0
        invariant
            distinct_part_numbers(rest@),
            strictly_sorted_by_part_number(sorted@),
            sorted@.len() + rest@.len() == orig.len(),
            forall|p: CompletedPart| #[trigger] orig.contains(p) <==> (sorted@.contains(p)
                || rest@.contains(p)),
            forall|p: CompletedPart| #[trigger] sorted@.contains(p) ==> orig.contains(p),
            forall|p: CompletedPart| #[trigger] rest@.contains(p) ==> orig.contains(p),
            forall|i: int, j: int|
                0 <= i < sorted@.len() && 0 <= j < rest@.len() ==> (#[trigger] sorted@[i]).part_number
                    < (#[trigger] rest@[j]).part_number,
        decreases rest.len(),
    {
        let mut m: usize = 0;
        let mut i: usize = 1;
        while i < rest.len()
            invariant
                rest@.len() > 0,
                m < i <= rest@.len(),
                forall|k: int|
                    0 <= k < i ==> (#[trigger] rest@[k]).part_number >= rest@[m as int].part_number,
            decreases rest@.len() - i,
        {
            if rest[i].part_number < rest[m].part_number {
                m = i;
            }
            i = i + 1;
        }
        let ghost prev_rest = rest@;
        let ghost prev_sorted = sorted@;
        let p = rest.remove(m);
        sorted.push(p);
        proof {
            lemma_remove_maps(prev_rest, m as int);
            assert(rest@ == prev_rest.remove(m as int));
            // The element removed bears the strictly smallest number left.
            assert forall|j: int| 0 <= j < rest@.len() implies p.part_number < (
            #[trigger] rest@[j]).part_number by {
                assert(rest@[j] == prev_rest.remove(m as int)[j]);
                if j < m {
                    assert(rest@[j] == prev_rest[j]);
                } else {
                    assert(rest@[j] == prev_rest[j + 1]);
                }
            }
            // Distinctness survives the removal.
            assert forall|i2: int, j2: int| 0 <= i2 < j2 < rest@.len() implies (
            #[trigger] rest@[i2]).part_number != (#[trigger] rest@[j2]).part_number by {
                assert(rest@[i2] == prev_rest.remove(m as int)[i2]);
                assert(rest@[j2] == prev_rest.remove(m as int)[j2]);
            }
            // The freshly placed part extends the sorted run.
            assert forall|i2: int, j2: int| 0 <= i2 < j2 < sorted@.len() implies (
            #[trigger] sorted@[i2]).part_number < (#[trigger] sorted@[j2]).part_number by {
                assert(sorted@ == prev_sorted.push(p));
                if j2 < prev_sorted.len() {
                    assert(sorted@[i2] == prev_sorted[i2]);
                    assert(sorted@[j2] == prev_sorted[j2]);
                } else {
                    assert(sorted@[j2] == p);
                    assert(sorted@[i2] == prev_sorted[i2]);
                    assert(prev_rest.contains(prev_rest[m as int]));
                }
            }
            // Everything still sorted sits below everything still waiting.
            assert forall|i2: int, j2: int|
                0 <= i2 < sorted@.len() && 0 <= j2 < rest@.len() implies (
            #[trigger] sorted@[i2]).part_number < (#[trigger] rest@[j2]).part_number by {
                if i2 < prev_sorted.len() {
                    assert(sorted@[i2] == prev_sorted[i2]);
                    assert(rest@.contains(rest@[j2]));
                    assert(prev_rest.contains(rest@[j2]));
                    let t = choose|t: int|
                        0 <= t < prev_rest.len() && prev_rest[t] == rest@[j2];
                } else {
                    assert(sorted@[i2] == p);
                }
            }
            // Membership is conserved across the move.
            assert(sorted@.contains(p)) by {
                assert(sorted@[sorted@.len() - 1] == p);
            }
            assert forall|q: CompletedPart| #[trigger] orig.contains(q) implies (sorted@.contains(q)
                || rest@.contains(q)) by {
                if prev_sorted.contains(q) {
                    let t = choose|t: int| 0 <= t < prev_sorted.len() && prev_sorted[t] == q;
                    assert(sorted@[t] == q);
                } else if prev_rest.contains(q) {
                    let t = choose|t: int| 0 <= t < prev_rest.len() && prev_rest[t] == q;
                    if t == m {
                        assert(q == p);
                    } else {
                        assert(prev_rest.remove(m as int).contains(prev_rest[t]));
                    }
                }
            }
            assert forall|q: CompletedPart| #[trigger] sorted@.contains(q) implies orig.contains(
                q,
            ) by {
                let t = choose|t: int| 0 <= t < sorted@.len() && sorted@[t] == q;
                if t < prev_sorted.len() {
                    assert(prev_sorted[t] == q);
                    assert(prev_sorted.contains(q));
                } else {
                    assert(q == p);
                    assert(prev_rest.contains(prev_rest[m as int]));
                }
            }
            assert forall|q: CompletedPart| #[trigger] rest@.contains(q) implies orig.contains(
                q,
            ) by {
                assert(prev_rest.contains(q));
            }
        }
    }
    sorted
}

/// Part numbers of a full, strictly sorted batch are exactly
/// `1..=n`: in a strictly ascending sequence of `n` parts whose
/// numbers all lie in `1..=n`, the part at index `i` bears number
/// `i + 1` — no gap, no duplicate.
pub proof fn lemma_consecutive_part_numbers(s: Seq<CompletedPart>)
    requires
        strictly_sorted_by_part_number(s),
        forall|i: int| 0 <= i < s.len() ==> 1 <= (#[trigger] s[i]).part_number <= s.len(),
    ensures
        forall|i: int| 0 <= i < s.len() ==> (#[trigger] s[i]).part_number == i + 1,
{
    assert forall|i: int| 0 <= i < s.len() implies (#[trigger] s[i]).part_number == i + 1 by {
        lemma_strict_chain(s, 0, i);
        lemma_strict_chain(s, i, s.len() - 1);
    }
}

/// Between two positions of a strictly ascending sequence, the numbers
/// grow at least as fast as the indices.
proof fn lemma_strict_chain(s: Seq<CompletedPart>, i: int, j: int)
    requires
        strictly_sorted_by_part_number(s),
        0 <= i <= j < s.len(),
    ensures
        s[i].part_number + (j - i) <= s[j].part_number,
    decreases j - i,
{
    if i < j {
        lemma_strict_chain(s, i, j - 1);
        assert(s[j - 1].part_number < s[j].part_number);
    }
}

} // verus!
