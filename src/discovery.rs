use vstd::prelude::*;
use crate::tree::{Found, WindowHandle};

verus! {

/// The question discovery asks the window system next: the child of `parent` that follows
/// `after` in enumeration order (the first child when `after` is `None`).
#[derive(Clone, Copy, PartialEq, Eq, Structural, Debug)]
pub struct ChildQuery {
    pub parent: WindowHandle,
    pub after: Option<WindowHandle>,
}

/// Depth-first, pre-order enumeration of a window tree, driven one answer at a time.
///
/// `stack[0]` is the root under construction and each later frame is a window whose children
/// are still being enumerated; a frame is attached to the one below it once the window
/// system reports no further child for it.
pub struct Discovery {
    pub stack: Vec<Found>,
}

/// `new` is `old` with the top frame popped and appended, as the last child, to the frame
/// below it.
pub open spec fn attached(old: Seq<Found>, new: Seq<Found>) -> bool {
    &&& old.len() >= 2
    &&& new.len() == old.len() - 1
    &&& forall|k: int| 0 <= k < new.len() - 1 ==> new[k] == old[k]
    &&& new.last().value == old[old.len() - 2].value
    &&& new.last().children@ == old[old.len() - 2].children@.push(old.last())
}

/// One answer of the window system, as `Discovery::receive` handles it: a child opens a
/// new frame; the end of the children completes the top frame, which is either attached
/// below or, for the root, the finished tree.
pub open spec fn receive_step(
    old: Seq<Found>,
    child: Option<WindowHandle>,
    new: Seq<Found>,
    done: Option<Found>,
) -> bool {
    match child {
        Some(c) => done.is_none() && new.len() == old.len() + 1 && new.drop_last() == old
            && new.last().value == c && new.last().children@.len() == 0,
        None => if old.len() == 1 {
            done == Some(old[0]) && new.len() == 0
        } else {
            done.is_none() && attached(old, new)
        },
    }
}

impl Discovery {
    /// Begins the enumeration of `root`.
    pub fn start(root: WindowHandle) -> (r: Self)
        ensures
            r.stack@.len() == 1,
            r.stack@[0].value == root,
            r.stack@[0].children@.len() == 0,
    {
        let mut stack: Vec<Found> = Vec::new();
        stack.push(Found::new(root));
        Discovery { stack }
    }

    /// The query whose answer `receive` expects: the next child of the top frame after
    /// the last child found for it so far.
    pub fn next_query(&self) -> (r: ChildQuery)
        requires
            self.stack@.len() > 0,
        ensures
            r.parent == self.stack@.last().value,
            self.stack@.last().children@.len() == 0 ==> r.after.is_none(),
            self.stack@.last().children@.len() > 0 ==> r.after == Some(
                self.stack@.last().children@.last().value,
            ),
    {
        let top = &self.stack[self.stack.len() - 1];
        let n = top.children.len();
        if n == 0 {
            ChildQuery { parent: top.value, after: None }
        } else {
            ChildQuery { parent: top.value, after: Some(top.children[n - 1].value) }
        }
    }

    /// Takes the window system's answer to `next_query`; returns the finished tree once the
    /// root has no further child.
    pub fn receive(&mut self, child: Option<WindowHandle>) -> (r: Option<Found>)
        requires
            old(self).stack@.len() > 0,
        ensures
            receive_step(old(self).stack@, child, final(self).stack@, r),
    {
        match child {
            Some(c) => {
                self.stack.push(Found::new(c));
                assert(self.stack@.drop_last() =~= old(self).stack@);
                None
            },
            None => {
                let top = self.stack.pop().unwrap();
                if self.stack.len() == 0 {
                    Some(top)
                } else {
                    let mut parent = self.stack.pop().unwrap();
                    parent.add_child(top);
                    self.stack.push(parent);
                    None
                }
            },
        }
    }

    /// Whether the enumeration has handed out its tree.
    pub fn is_finished(&self) -> (r: bool)
        ensures
            r == (self.stack@.len() == 0),
    {
        self.stack.len() == 0
    }
}

/// Children keep the order in which they were reported: a child `c` reported for the top
/// frame and then found to have no children of its own becomes that frame's last child,
/// after every child reported before it, and the frames below are untouched.
pub proof fn lemma_reported_child_appended(
    s0: Seq<Found>,
    c: WindowHandle,
    s1: Seq<Found>,
    s2: Seq<Found>,
    done: Option<Found>,
)
    requires
        s0.len() >= 1,
        receive_step(s0, Some(c), s1, None),
        receive_step(s1, None, s2, done),
    ensures
        done.is_none(),
        s2.len() == s0.len(),
        forall|k: int| 0 <= k < s0.len() - 1 ==> s2[k] == s0[k],
        s2.last().value == s0.last().value,
        s2.last().children@.len() == s0.last().children@.len() + 1,
        s2.last().children@.drop_last() == s0.last().children@,
        s2.last().children@.last().value == c,
        s2.last().children@.last().children@.len() == 0,
{
    assert(s1[s1.len() - 2] == s0.last());
    assert(s2.last().children@.drop_last() =~= s0.last().children@);
}

/// Children are kept in the exact order reported: when the window system reports `cs[0]`,
/// `cs[1]`, ... for the top frame, each followed by the end of its own (empty) child list,
/// the frame's children are the ones it had, followed by `cs` in that order.
pub proof fn lemma_children_in_report_order(states: Seq<Seq<Found>>, cs: Seq<WindowHandle>)
    requires
        states.len() == 2 * cs.len() + 1,
        states[0].len() >= 1,
        forall|k: int|
            0 <= k < cs.len() ==> receive_step(
                #[trigger] states[2 * k],
                Some(cs[k]),
                states[2 * k + 1],
                None,
            ) && receive_step(states[2 * k + 1], None, states[2 * k + 2], None),
    ensures
        states.last().len() == states[0].len(),
        states.last().last().value == states[0].last().value,
        states.last().last().children@.len() == states[0].last().children@.len() + cs.len(),
        states.last().last().children@.subrange(0, states[0].last().children@.len() as int)
            == states[0].last().children@,
        forall|k: int|
            0 <= k < cs.len() ==> (#[trigger] states.last().last().children@[states[0].last().children@.len() + k]).value
                == cs[k],
    decreases cs.len(),
{
    let n0 = states[0].last().children@.len() as int;
    if cs.len() == 0 {
        assert(states.last().last().children@.subrange(0, n0) =~= states[0].last().children@);
    } else {
        let m = cs.len() - 1;
        let prefix = states.subrange(0, 2 * m + 1);
        let rest = cs.drop_last();
        assert forall|k: int| 0 <= k < rest.len() implies receive_step(
            #[trigger] prefix[2 * k],
            Some(rest[k]),
            prefix[2 * k + 1],
            None,
        ) && receive_step(prefix[2 * k + 1], None, prefix[2 * k + 2], None) by {
            assert(states[2 * k] == prefix[2 * k]);
        }
        lemma_children_in_report_order(prefix, rest);
        assert(receive_step(states[2 * m], Some(cs[m]), states[2 * m + 1], None));
        let s0 = states[2 * m];
        let s2 = states[2 * m + 2];
        assert(s0 == prefix.last());
        lemma_reported_child_appended(s0, cs[m], states[2 * m + 1], s2, None);
        assert(s2 == states.last());
        let before = s0.last().children@;
        let after = s2.last().children@;
        assert(after.drop_last() == before);
        assert forall|k: int| 0 <= k < cs.len() implies (#[trigger] after[n0 + k]).value == cs[k] by {
            if k < m {
                assert(after[n0 + k] == before[n0 + k]);
                assert(prefix.last().last().children@[n0 + k].value == rest[k]);
            }
        }
        assert(after.subrange(0, n0) =~= states[0].last().children@) by {
            assert forall|i: int| 0 <= i < n0 implies after[i] == states[0].last().children@[i] by {
                assert(after[i] == before[i]);
                assert(before.subrange(0, n0)[i] == before[i]);
            }
        }
    }
}

} // verus!
