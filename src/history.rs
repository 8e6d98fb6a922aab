//! Timestamped samples and the capped first-in-first-out window that keeps
//! the most recent of them.

use vstd::prelude::*;

verus! {

/// One observation: a Unix timestamp in seconds and the value seen then.
#[derive(Clone, Copy, Debug, PartialEq, Eq)]
pub struct Sample<T> {
    pub timestamp: i64,
    pub value: T,
}

/// The window after appending `s` to `h`: when the window then holds more
/// than `cap` entries its oldest entry (index 0) is dropped.
pub open spec fn push_window<T>(h: Seq<T>, s: T, cap: nat) -> Seq<T> {
    let p = h.push(s);
    if p.len() > cap {
        p.drop_first()
    } else {
        p
    }
}

/// The window after appending each of `xs` in order, starting from `h`.
pub open spec fn fold_window<T>(h: Seq<T>, xs: Seq<T>, cap: nat) -> Seq<T>
    decreases xs.len(),
{
    if xs.len() == 0 {
        h
    } else {
        push_window(fold_window(h, xs.drop_last(), cap), xs.last(), cap)
    }
}

/// The last `n` entries of `s` (all of `s` when it is shorter).
pub open spec fn last_n<T>(s: Seq<T>, n: nat) -> Seq<T> {
    if s.len() <= n {
        s
    } else {
        s.subrange(s.len() - n, s.len() as int)
    }
}

/// Appends `sample` to `history` and, when the history then exceeds `cap`
/// entries, drops its oldest entry.
pub fn push_capped<T: Copy>(history: &mut Vec<Sample<T>>, sample: Sample<T>, cap: usize)
    ensures
        final(history)@ == push_window(old(history)@, sample, cap as nat),
{
    history.push(sample);
    if history.len() > cap {
        history.remove(0);
        assert(final(history)@ =~= push_window(old(history)@, sample, cap as nat));
    }
}

/// Folding any number of samples into a window that starts within its cap
/// keeps exactly the `cap` most recent entries of everything ever appended:
/// the window never grows past `cap`, and entries leave strictly in the
/// order in which they arrived.
pub proof fn lemma_window_keeps_most_recent<T>(h: Seq<T>, xs: Seq<T>, cap: nat)
    requires
        h.len() <= cap,
    ensures
        fold_window(h, xs, cap) == last_n(h + xs, cap),
        fold_window(h, xs, cap).len() <= cap,
    decreases xs.len(),
{
    if xs.len() == 0 {
        assert(h + xs =~= h);
    } else {
        let prev = xs.drop_last();
        lemma_window_keeps_most_recent(h, prev, cap);
        let a = h + prev;
        let w = last_n(a, cap);
        assert(h + xs =~= a.push(xs.last()));
        let b = a.push(xs.last());
        if a.len() + 1 <= cap {
            assert(push_window(w, xs.last(), cap) =~= last_n(b, cap));
        } else if a.len() <= cap {
            assert(push_window(w, xs.last(), cap) =~= last_n(b, cap));
        } else {
            assert(push_window(w, xs.last(), cap) =~= last_n(b, cap));
        }
    }
}

/// Whether the samples' timestamps never decrease along the sequence.
pub open spec fn time_ordered<T>(s: Seq<Sample<T>>) -> bool {
    forall|i: int, j: int| 0 <= i <= j < s.len() ==> #[trigger] s[i].timestamp <= #[trigger] s[j].timestamp
}

/// When samples arrive in time order, every sample that has left the window
/// is at least as old as every sample still in it: eviction always takes the
/// lowest timestamp first.
pub proof fn lemma_window_evicts_oldest<T>(h: Seq<Sample<T>>, xs: Seq<Sample<T>>, cap: nat)
    requires
        h.len() <= cap,
        time_ordered(h + xs),
    ensures
        ({
            let all = h + xs;
            let w = fold_window(h, xs, cap);
            let gone = all.len() - w.len();
            &&& w == all.subrange(gone, all.len() as int)
            &&& forall|i: int, j: int|
                0 <= i < gone && 0 <= j < w.len() ==> #[trigger] all[i].timestamp
                    <= #[trigger] w[j].timestamp
        }),
{
    lemma_window_keeps_most_recent(h, xs, cap);
    let all = h + xs;
    let w = fold_window(h, xs, cap);
    let gone = all.len() - w.len();
    assert(w =~= all.subrange(gone, all.len() as int));
    assert forall|i: int, j: int|
        0 <= i < gone && 0 <= j < w.len() implies #[trigger] all[i].timestamp
            <= #[trigger] w[j].timestamp by {
        assert(w[j] == all[gone + j]);
    }
}

} // verus!
