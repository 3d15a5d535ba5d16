//! Choosing the process that best represents the game being played.

use vstd::prelude::*;

verus! {

/// One running process considered as the game's process, with what the
/// process query reported about its windows.
#[derive(Clone, Copy, Debug, PartialEq, Eq, Structural)]
pub struct ProcessCandidate {
    pub pid: u32,
    pub is_foreground: bool,
    pub has_visible_window: bool,
}

/// The pid of the first candidate that owns the foreground window.
pub open spec fn first_foreground(c: Seq<ProcessCandidate>) -> Option<u32>
    decreases c.len(),
{
    if c.len() == 0 {
        None
    } else if c[0].is_foreground {
        Some(c[0].pid)
    } else {
        first_foreground(c.drop_first())
    }
}

/// The pid of the first candidate that owns a visible window.
pub open spec fn first_windowed(c: Seq<ProcessCandidate>) -> Option<u32>
    decreases c.len(),
{
    if c.len() == 0 {
        None
    } else if c[0].has_visible_window {
        Some(c[0].pid)
    } else {
        first_windowed(c.drop_first())
    }
}

/// The selection policy, first match wins: the original pid when it is in the
/// foreground; the original pid when there is no candidate; the first
/// foreground candidate; the first candidate with a visible window; the first
/// candidate.
pub open spec fn best_pid(
    original_pid: u32,
    original_is_foreground: bool,
    candidates: Seq<ProcessCandidate>,
) -> u32 {
    if original_is_foreground || candidates.len() == 0 {
        original_pid
    } else if first_foreground(candidates) is Some {
        first_foreground(candidates)->0
    } else if first_windowed(candidates) is Some {
        first_windowed(candidates)->0
    } else {
        candidates[0].pid
    }
}

/// Picks the pid to watch from a snapshot: whether `original_pid` owns the
/// foreground window, and the processes found under the game's directory, in
/// the order the process table listed them.
pub fn select_best_pid(
    original_pid: u32,
    original_is_foreground: bool,
    candidates: &Vec<ProcessCandidate>,
) -> (r: u32)
    ensures
        r == best_pid(original_pid, original_is_foreground, candidates@),
{
    if original_is_foreground {
        return original_pid;
    }
    if candidates.len() == 0 {
        return original_pid;
    }
    let n = candidates.len();
    assert(candidates@.subrange(0, n as int) =~= candidates@);
    let mut i: usize = 0;
    while i < n
        invariant
            n == candidates@.len(),
            n > 0,
            !original_is_foreground,
            i <= n,
            first_foreground(candidates@) == first_foreground(candidates@.subrange(i as int, n as int)),
        decreases n - i,
    {
        assert(candidates@.subrange(i as int, n as int).drop_first() =~= candidates@.subrange(
            i + 1,
            n as int,
        ));
        assert(candidates@.subrange(i as int, n as int)[0] == candidates@[i as int]);
        if candidates[i].is_foreground {
            assert(first_foreground(candidates@.subrange(i as int, n as int)) == Some(
                candidates@[i as int].pid,
            ));
            return candidates[i].pid;
        }
        i = i + 1;
    }
    let mut j: usize = 0;
    while j < n
        invariant
            n == candidates@.len(),
            n > 0,
            !original_is_foreground,
            j <= n,
            first_foreground(candidates@) is None,
            first_windowed(candidates@) == first_windowed(candidates@.subrange(j as int, n as int)),
        decreases n - j,
    {
        assert(candidates@.subrange(j as int, n as int).drop_first() =~= candidates@.subrange(
            j + 1,
            n as int,
        ));
        assert(candidates@.subrange(j as int, n as int)[0] == candidates@[j as int]);
        if candidates[j].has_visible_window {
            assert(first_windowed(candidates@.subrange(j as int, n as int)) == Some(
                candidates@[j as int].pid,
            ));
            return candidates[j].pid;
        }
        j = j + 1;
    }
    candidates[0].pid
}

/// The first candidate with a property, as an index: `first_foreground` names
/// the earliest foreground candidate.
proof fn lemma_first_foreground_index(c: Seq<ProcessCandidate>)
    ensures
        first_foreground(c) is Some <==> exists|i: int| 0 <= i < c.len() && c[i].is_foreground,
        first_foreground(c) is Some ==> exists|i: int|
            0 <= i < c.len() && c[i].is_foreground && c[i].pid == first_foreground(c)->0 && (
            forall|k: int| 0 <= k < i ==> !(#[trigger] c[k]).is_foreground),
    decreases c.len(),
{
    if c.len() > 0 {
        let d = c.drop_first();
        lemma_first_foreground_index(d);
        if !c[0].is_foreground {
            if exists|i: int| 0 <= i < c.len() && c[i].is_foreground {
                let i = choose|i: int| 0 <= i < c.len() && c[i].is_foreground;
                assert(d[i - 1] == c[i]);
            }
            if first_foreground(d) is Some {
                let i = choose|i: int|
                    0 <= i < d.len() && d[i].is_foreground && d[i].pid == first_foreground(d)->0
                        && (forall|k: int| 0 <= k < i ==> !(#[trigger] d[k]).is_foreground);
                assert forall|k: int| 0 <= k < i + 1 implies !(#[trigger] c[k]).is_foreground by {
                    if k > 0 {
                        assert(c[k] == d[k - 1]);
                    }
                }
                assert(c[i + 1] == d[i]);
            }
        } else {
            assert(c[0].is_foreground);
        }
    }
}

proof fn lemma_first_windowed_index(c: Seq<ProcessCandidate>)
    ensures
        first_windowed(c) is Some <==> exists|i: int| 0 <= i < c.len() && c[i].has_visible_window,
        first_windowed(c) is Some ==> exists|i: int|
            0 <= i < c.len() && c[i].has_visible_window && c[i].pid == first_windowed(c)->0 && (
            forall|k: int| 0 <= k < i ==> !(#[trigger] c[k]).has_visible_window),
    decreases c.len(),
{
    if c.len() > 0 {
        let d = c.drop_first();
        lemma_first_windowed_index(d);
        if !c[0].has_visible_window {
            if exists|i: int| 0 <= i < c.len() && c[i].has_visible_window {
                let i = choose|i: int| 0 <= i < c.len() && c[i].has_visible_window;
                assert(d[i - 1] == c[i]);
            }
            if first_windowed(d) is Some {
                let i = choose|i: int|
                    0 <= i < d.len() && d[i].has_visible_window && d[i].pid == first_windowed(d)->0
                        && (forall|k: int| 0 <= k < i ==> !(#[trigger] d[k]).has_visible_window);
                assert forall|k: int| 0 <= k < i + 1 implies !(#[trigger] c[k]).has_visible_window by {
                    if k > 0 {
                        assert(c[k] == d[k - 1]);
                    }
                }
                assert(c[i + 1] == d[i]);
            }
        } else {
            assert(c[0].has_visible_window);
        }
    }
}

/// The selection is a function of the snapshot alone and follows the priority
/// order: a foreground original pid; then, when there are candidates, the
/// earliest foreground candidate; else the earliest candidate with a visible
/// window; else the first candidate; with no candidate, the original pid.
pub proof fn lemma_selection_priority(
    original_pid: u32,
    original_is_foreground: bool,
    candidates: Seq<ProcessCandidate>,
)
    ensures
        ({
            let r = best_pid(original_pid, original_is_foreground, candidates);
            &&& original_is_foreground ==> r == original_pid
            &&& candidates.len() == 0 ==> r == original_pid
            &&& (!original_is_foreground && (exists|i: int|
                0 <= i < candidates.len() && candidates[i].is_foreground)) ==> exists|i: int|
                0 <= i < candidates.len() && candidates[i].is_foreground && r == candidates[i].pid
                    && forall|k: int| 0 <= k < i ==> !(#[trigger] candidates[k]).is_foreground
            &&& (!original_is_foreground && (forall|i: int|
                0 <= i < candidates.len() ==> !(#[trigger] candidates[i]).is_foreground) && (exists|i: int|
                0 <= i < candidates.len() && candidates[i].has_visible_window)) ==> exists|i: int|
                0 <= i < candidates.len() && candidates[i].has_visible_window && r
                    == candidates[i].pid && forall|k: int|
                    0 <= k < i ==> !(#[trigger] candidates[k]).has_visible_window
            &&& (!original_is_foreground && candidates.len() > 0 && (forall|i: int|
                0 <= i < candidates.len() ==> !(#[trigger] candidates[i]).is_foreground
                    && !candidates[i].has_visible_window)) ==> r == candidates[0].pid
        }),
{
    lemma_first_foreground_index(candidates);
    lemma_first_windowed_index(candidates);
}

} // verus!
