use vstd::prelude::*;
use crate::tree::WindowHandle;

verus! {

/// What the polling loop does after looking at one snapshot.
#[derive(Clone, Copy, PartialEq, Eq, Structural, Debug)]
pub enum WaitAction {
    /// A window matched: the wait is over and this is the window.
    Proceed(WindowHandle),
    /// Nothing matched: sleep this many milliseconds, take a fresh snapshot and look again.
    Sleep(u64),
}

/// Index of the first `true` verdict, if any.
pub open spec fn first_accepted(verdicts: Seq<bool>) -> Option<int>
    decreases verdicts.len(),
{
    if verdicts.len() == 0 {
        None
    } else if verdicts[0] {
        Some(0)
    } else {
        match first_accepted(verdicts.drop_first()) {
            Some(k) => Some(k + 1),
            None => None,
        }
    }
}

/// The first handle, in the given order, whose verdict is `true`.
pub fn first_match(candidates: &Vec<WindowHandle>, verdicts: &Vec<bool>) -> (r: Option<
    WindowHandle,
>)
    requires
        candidates@.len() == verdicts@.len(),
    ensures
        match first_accepted(verdicts@) {
            Some(k) => r == Some(candidates@[k]),
            None => r.is_none(),
        },
{
    let mut i: usize = 0;
    assert(verdicts@.subrange(0, verdicts@.len() as int) =~= verdicts@);
    while i < verdicts.len()
        invariant
            i <= verdicts@.len(),
            candidates@.len() == verdicts@.len(),
            first_accepted(verdicts@) == match first_accepted(verdicts@.subrange(i as int, verdicts@.len() as int)) {
                Some(k) => Some(k + i),
                None => None,
            },
        decreases verdicts@.len() - i,
    {
        assert(verdicts@.subrange(i as int, verdicts@.len() as int).drop_first() =~= verdicts@.subrange(
            i + 1,
            verdicts@.len() as int,
        ));
        if verdicts[i] {
            return Some(candidates[i]);
        }
        i = i + 1;
    }
    assert(verdicts@.subrange(i as int, verdicts@.len() as int) =~= Seq::<bool>::empty());
    None
}

/// One round of waiting: `candidates` is a snapshot's handles in pre-order and `verdicts`
/// says which of them the caller's predicate accepts.
pub fn wait_step(candidates: &Vec<WindowHandle>, verdicts: &Vec<bool>, poll_ms: u64) -> (r:
    WaitAction)
    requires
        candidates@.len() == verdicts@.len(),
    ensures
        match first_accepted(verdicts@) {
            Some(k) => r == WaitAction::Proceed(candidates@[k]),
            None => r == WaitAction::Sleep(poll_ms),
        },
{
    match first_match(candidates, verdicts) {
        Some(h) => WaitAction::Proceed(h),
        None => WaitAction::Sleep(poll_ms),
    }
}

/// The earliest match wins: when the windows at `i < j` are both accepted, the wait settles
/// on a window no later than `i`, the first accepted one, and never on `j`; when `i` is the
/// first accepted, it settles on `i` itself.
pub proof fn lemma_earliest_match_wins(verdicts: Seq<bool>, i: int, j: int)
    requires
        0 <= i < j < verdicts.len(),
        verdicts[i],
        verdicts[j],
    ensures
        first_accepted(verdicts) is Some,
        0 <= first_accepted(verdicts)->Some_0 <= i,
        first_accepted(verdicts)->Some_0 != j,
        verdicts[first_accepted(verdicts)->Some_0],
        forall|k: int| 0 <= k < first_accepted(verdicts)->Some_0 ==> !verdicts[k],
        (forall|k: int| 0 <= k < i ==> !verdicts[k]) ==> first_accepted(verdicts) == Some(i),
    decreases verdicts.len(),
{
    if i > 0 && !verdicts[0] {
        let rest = verdicts.drop_first();
        assert(rest[i - 1] && rest[j - 1]);
        lemma_earliest_match_wins(rest, i - 1, j - 1);
        let m = first_accepted(rest)->Some_0;
        assert(first_accepted(verdicts) == Some(m + 1));
        assert(verdicts[m + 1] == rest[m]);
        assert forall|k: int| 0 <= k < m + 1 implies !verdicts[k] by {
            if k > 0 {
                assert(verdicts[k] == rest[k - 1]);
            }
        }
        if forall|k: int| 0 <= k < i ==> !verdicts[k] {
            assert forall|k: int| 0 <= k < i - 1 implies !rest[k] by {
                assert(rest[k] == verdicts[k + 1]);
            }
        }
    }
}

} // verus!
