use vstd::prelude::*;
use std::collections::VecDeque;
use crate::event::WindowId;

verus! {

/// The windows of a redraw queue, each once, in order of first request.
pub open spec fn coalesced(q: Seq<WindowId>) -> Seq<WindowId>
    decreases q.len(),
{
    if q.len() == 0 {
        Seq::empty()
    } else {
        let p = coalesced(q.drop_last());
        if p.contains(q.last()) {
            p
        } else {
            p.push(q.last())
        }
    }
}

/// Coalescing keeps every requested window and names each one once, so each
/// window gets exactly one redraw per batch however often it was requested.
pub proof fn lemma_coalesced_once_each(q: Seq<WindowId>)
    ensures
        coalesced(q).no_duplicates(),
        forall|w: WindowId| #[trigger] coalesced(q).contains(w) <==> q.contains(w),
    decreases q.len(),
{
    if q.len() > 0 {
        let p = coalesced(q.drop_last());
        lemma_coalesced_once_each(q.drop_last());
        assert forall|w: WindowId| #[trigger] coalesced(q).contains(w) <==> q.contains(w) by {
            if q.contains(w) && w != q.last() {
                let i = choose|i: int| 0 <= i < q.len() && q[i] == w;
                assert(q.drop_last()[i] == w);
            }
            if q.drop_last().contains(w) {
                let i = choose|i: int| 0 <= i < q.drop_last().len() && q.drop_last()[i] == w;
                assert(q[i] == w);
            }
            if !p.contains(q.last()) {
                assert(p.push(q.last()).last() == q.last());
                if p.push(q.last()).contains(w) && w != q.last() {
                    let i = choose|i: int| 0 <= i < p.push(q.last()).len() && p.push(q.last())[i] == w;
                    assert(p[i] == w);
                }
                if p.contains(w) {
                    let i = choose|i: int| 0 <= i < p.len() && p[i] == w;
                    assert(p.push(q.last())[i] == w);
                }
            }
        }
    }
}

/// Collapses a redraw queue into the windows it names, each once.
pub fn coalesce_redraws(q: &VecDeque<WindowId>) -> (r: Vec<WindowId>)
    ensures
        r@ == coalesced(q@),
{
    let mut out: Vec<WindowId> = Vec::new();
    let mut i: usize = 0;
    while i < q.len()
        invariant
            i <= q@.len(),
            out@ == coalesced(q@.subrange(0, i as int)),
        decreases q@.len() - i,
    {
        let w = q[i];
        proof {
            assert(q@.subrange(0, i as int + 1).drop_last() =~= q@.subrange(0, i as int));
        }
        let mut j: usize = 0;
        let mut seen = false;
        while j < out.len()
            invariant
                j <= out@.len(),
                seen <==> exists|k: int| 0 <= k < j && out@[k] == w,
            decreases out@.len() - j,
        {
            if out[j] == w {
                seen = true;
            }
            j = j + 1;
        }
        if !seen {
            out.push(w);
        }
        i = i + 1;
    }
    assert(q@.subrange(0, q@.len() as int) =~= q@);
    out
}

} // verus!
