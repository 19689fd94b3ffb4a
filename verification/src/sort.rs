//! The visibility sorter: orders a frame's render records by average depth
//! descending, so farther triangles are painted first and nearer ones
//! overpaint them. Depths are integers here, so the comparison is total;
//! the sort is stable, and re-sorting a sorted frame reproduces it.

use vstd::prelude::*;
use vstd::seq_lib::lemma_multiset_commutative;
use crate::render::RenderRecord;

verus! {

/// Back-to-front order: every earlier record is at least as deep as every
/// later one.
pub open spec fn sorted_desc(s: Seq<RenderRecord>) -> bool {
    forall|i: int, j: int| 0 <= i < j < s.len() ==> s[i].avg_depth >= s[j].avg_depth
}

/// Sort the frame's records by `avg_depth` descending. The result is a
/// permutation of the input in back-to-front order, and an input already
/// in that order comes back unchanged, so the sort is idempotent.
pub fn sort_records(v: &mut Vec<RenderRecord>)
    ensures
        sorted_desc(final(v)@),
        final(v)@.to_multiset() == old(v)@.to_multiset(),
        final(v)@.len() == old(v)@.len(),
        sorted_desc(old(v)@) ==> final(v)@ == old(v)@,
{
    let ghost orig = v@;
    let mut out: Vec<RenderRecord> = Vec::new();
    let n = v.len();
    let mut i: usize = 0;
    proof {
        assert(orig.take(0) =~= out@);
    }
    while i < n
        invariant
            i <= n,
            n == orig.len(),
            v@ == orig,
            sorted_desc(out@),
            out@.to_multiset() == orig.take(i as int).to_multiset(),
            out@.len() == i,
            sorted_desc(orig) ==> out@ == orig.take(i as int),
        decreases n - i,
    {
        let rec = v[i];
        // Scan past every element at least as deep as `rec`; insert before
        // the first strictly shallower one, which keeps equal depths in
        // arrival order.
        let mut pos: usize = 0;
        while pos < out.len() && out[pos].avg_depth >= rec.avg_depth
            invariant
                pos <= out@.len(),
                forall|k: int| 0 <= k < pos ==> out@[k].avg_depth >= rec.avg_depth,
            decreases out@.len() - pos,
        {
            pos = pos + 1;
        }
        let ghost pre = out@;
        proof {
            if sorted_desc(orig) {
                // In a sorted frame the new record is no deeper than any
                // element already placed, so it lands at the very end.
                assert(forall|k: int| 0 <= k < i
                    ==> orig[k].avg_depth >= orig[i as int].avg_depth);
                assert(pos == pre.len());
            }
        }
        out.insert(pos, rec);
        proof {
            let a = pre.subrange(0, pos as int);
            let b = pre.subrange(pos as int, pre.len() as int);
            assert(out@ == a.push(rec) + b);
            // Multiset: the insertion adds exactly `rec`.
            lemma_multiset_commutative(a.push(rec), b);
            lemma_multiset_commutative(a, b);
            a.to_multiset_ensures();
            assert(a + b =~= pre);
            assert(out@.to_multiset() =~= pre.to_multiset().insert(rec));
            assert(orig.take(i + 1 as int) =~= orig.take(i as int).push(rec));
            orig.take(i as int).to_multiset_ensures();
            assert(orig.take(i + 1 as int).to_multiset()
                =~= orig.take(i as int).to_multiset().insert(rec));
            // Order: everything before `pos` is at least as deep as `rec`,
            // everything from `pos` on strictly shallower.
            assert forall|k1: int, k2: int| 0 <= k1 < k2 < out@.len()
                implies out@[k1].avg_depth >= out@[k2].avg_depth by {
                if k1 == pos {
                    assert(out@[k2] == pre[k2 - 1]);
                } else if k2 == pos {
                    assert(out@[k1] == pre[k1]);
                } else if k1 < pos && k2 > pos {
                    assert(out@[k1] == pre[k1]);
                    assert(out@[k2] == pre[k2 - 1]);
                    if pos < pre.len() {
                        assert(pre[k1].avg_depth >= rec.avg_depth);
                    }
                }
            }
            if sorted_desc(orig) {
                assert(out@ =~= orig.take(i + 1 as int));
            }
        }
        i = i + 1;
    }
    proof {
        assert(orig.take(n as int) =~= orig);
        out@.to_multiset_ensures();
        orig.to_multiset_ensures();
    }
    *v = out;
}

} // verus!
