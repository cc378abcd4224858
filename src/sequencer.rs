use vstd::prelude::*;
use crate::text::TextMatch;
use crate::tree::Found;
use crate::wait::WaitAction;

verus! {

/// How a step finds the window it acts on.
pub enum Target {
    /// The first window, in pre-order, whose text meets the condition.
    Text(TextMatch),
    /// The window at this path under the root, once it exists.
    Path(Vec<usize>),
    /// The window at this path, once it exists and its text meets the condition.
    PathWithText(Vec<usize>, TextMatch),
}

/// What a step does to the window once found.
#[derive(Clone, Copy, PartialEq, Eq, Structural, Debug)]
pub enum StepAction {
    /// Left button press and release on the window.
    Click,
    /// One wheel message with this many notches (negative scrolls down).
    Scroll(i32),
    /// The drag-probe gesture over the window, repeated this many times.
    Drag(u32),
    /// Nothing: the step only waits for its target.
    Await,
}

/// One wait-then-act step of an automation script.
pub struct Step {
    pub target: Target,
    pub action: StepAction,
}

/// Runs the steps of a script strictly one after another.
pub struct Sequencer {
    pub steps: Vec<Step>,
    pub next: usize,
}

impl Sequencer {
    pub open spec fn wf(&self) -> bool {
        self.next <= self.steps@.len()
    }

    pub fn new(steps: Vec<Step>) -> (r: Self)
        ensures
            r.wf(),
            r.next == 0,
            r.steps@ == steps@,
    {
        Sequencer { steps, next: 0 }
    }

    /// The step whose wait or action is under way, or `None` once the script is done.
    pub fn current(&self) -> (r: Option<&Step>)
        requires
            self.wf(),
        ensures
            self.next < self.steps@.len() ==> r == Some(&self.steps@[self.next as int]),
            self.next == self.steps@.len() ==> r.is_none(),
    {
        if self.next < self.steps.len() {
            Some(&self.steps[self.next])
        } else {
            None
        }
    }

    /// Marks the current step's action as returned; only then does the next step begin.
    pub fn complete(&mut self)
        requires
            old(self).wf(),
            old(self).next < old(self).steps.len(),
        ensures
            final(self).wf(),
            final(self).next == old(self).next + 1,
            final(self).steps@ == old(self).steps@,
    {
        self.next = self.next + 1;
    }

    pub fn is_done(&self) -> (r: bool)
        requires
            self.wf(),
        ensures
            r == (self.next == self.steps@.len()),
    {
        self.next == self.steps.len()
    }
}

/// One round of waiting for the window at `path`: proceed with it when it exists in
/// `snapshot`, else sleep `poll_ms` and look again. Absence is never an error.
pub fn path_step(snapshot: &Found, path: &Vec<usize>, poll_ms: u64) -> (r: WaitAction)
    ensures
        match snapshot.at_path(path@) {
            Some(f) => r == WaitAction::Proceed(f.value),
            None => r == WaitAction::Sleep(poll_ms),
        },
{
    match snapshot.lookup_by_path(path) {
        Some(f) => WaitAction::Proceed(f.value),
        None => WaitAction::Sleep(poll_ms),
    }
}

} // verus!
