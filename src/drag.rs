use vstd::prelude::*;
use crate::snapshot::{Point, Rect};

verus! {

/// Where a drag-probe gesture stands.
#[derive(Clone, Copy, PartialEq, Eq, Structural, Debug)]
pub enum DragPhase {
    /// The pointer still has to be put on the start point.
    Positioning,
    /// The pointer walks up one step at a time until the label shows.
    Probing,
    /// The label showed: a click is owed.
    Committed,
    /// Every repetition has been clicked.
    Finished,
}

/// A gesture that walks the pointer upwards from the top middle of a control, one `step`
/// at a time, until the watched label shows, then clicks; `remaining` times in a row.
///
/// Before each step it compares the real pointer with where the last synthetic move left
/// it; a difference means someone else moved the pointer, and the caller sleeps
/// `cooldown_ms` before going on.
pub struct DragProbe {
    pub x: i32,
    pub y: i32,
    pub step: i32,
    pub cooldown_ms: u64,
    pub settle_ms: u64,
    pub remaining: u32,
    pub previous: Option<Point>,
    pub phase: DragPhase,
}

/// The x coordinate halfway across `r`, rounded towards its left edge as integer division
/// does.
pub open spec fn middle_x(r: Rect) -> int {
    r.left + (r.right - r.left) / 2
}

/// The real pointer is not where one synthetic step up from the previous reading puts it.
pub open spec fn interfered(previous: Option<Point>, observed: Point, step: int) -> bool {
    match previous {
        Some(p) => p.y - step != observed.y,
        None => false,
    }
}

impl DragProbe {
    /// A gesture over the control `bounds`, to be repeated `repetitions` times.
    pub fn new(bounds: Rect, repetitions: u32, step: i32, cooldown_ms: u64, settle_ms: u64) -> (r:
        Self)
        requires
            bounds.left <= bounds.right,
        ensures
            r.x == middle_x(bounds),
            r.y == bounds.top,
            r.step == step,
            r.cooldown_ms == cooldown_ms,
            r.settle_ms == settle_ms,
            r.remaining == repetitions,
            r.previous.is_none(),
            r.phase == DragPhase::Positioning,
    {
        let width: i64 = bounds.right as i64 - bounds.left as i64;
        let x: i64 = bounds.left as i64 + width / 2;
        DragProbe {
            x: x as i32,
            y: bounds.top,
            step,
            cooldown_ms,
            settle_ms,
            remaining: repetitions,
            previous: None,
            phase: DragPhase::Positioning,
        }
    }

    /// Puts the gesture into probing (or straight to finished when nothing is to be done)
    /// and returns the start point the pointer must be moved to.
    pub fn start(&mut self) -> (r: Point)
        requires
            old(self).phase == DragPhase::Positioning,
        ensures
            r == (Point { x: old(self).x, y: old(self).y }),
            final(self).phase == (if old(self).remaining > 0 {
                DragPhase::Probing
            } else {
                DragPhase::Finished
            }),
            final(self).x == old(self).x,
            final(self).y == old(self).y,
            final(self).step == old(self).step,
            final(self).cooldown_ms == old(self).cooldown_ms,
            final(self).settle_ms == old(self).settle_ms,
            final(self).remaining == old(self).remaining,
            final(self).previous == old(self).previous,
    {
        self.phase = if self.remaining > 0 {
            DragPhase::Probing
        } else {
            DragPhase::Finished
        };
        Point { x: self.x, y: self.y }
    }

    /// Compares the real pointer with the previous reading: `Some(cooldown_ms)` when it did
    /// not move by exactly one step up, which means manual interference.
    pub fn check_pointer(&self, observed: Point) -> (r: Option<u64>)
        ensures
            interfered(self.previous, observed, self.step as int) ==> r == Some(self.cooldown_ms),
            !interfered(self.previous, observed, self.step as int) ==> r.is_none(),
    {
        match self.previous {
            Some(p) => {
                if p.y as i64 - self.step as i64 != observed.y as i64 {
                    Some(self.cooldown_ms)
                } else {
                    None
                }
            },
            None => None,
        }
    }

    /// Remembers the pointer as read just before the next synthetic step.
    pub fn record_pointer(&mut self, observed: Point)
        ensures
            final(self).previous == Some(observed),
            final(self).x == old(self).x,
            final(self).y == old(self).y,
            final(self).step == old(self).step,
            final(self).cooldown_ms == old(self).cooldown_ms,
            final(self).settle_ms == old(self).settle_ms,
            final(self).remaining == old(self).remaining,
            final(self).phase == old(self).phase,
    {
        self.previous = Some(observed);
    }

    /// Moves the probe one step up and returns where the pointer must go; `None`, with
    /// nothing changed, when that point is off the coordinate range.
    pub fn advance(&mut self) -> (r: Option<Point>)
        requires
            old(self).phase == DragPhase::Probing,
        ensures
            i32::MIN <= old(self).y - old(self).step <= i32::MAX ==> {
                &&& r == Some(Point { x: old(self).x, y: (old(self).y - old(self).step) as i32 })
                &&& final(self).y == old(self).y - old(self).step
            },
            !(i32::MIN <= old(self).y - old(self).step <= i32::MAX) ==> r.is_none()
                && final(self).y == old(self).y,
            final(self).x == old(self).x,
            final(self).step == old(self).step,
            final(self).cooldown_ms == old(self).cooldown_ms,
            final(self).settle_ms == old(self).settle_ms,
            final(self).remaining == old(self).remaining,
            final(self).previous == old(self).previous,
            final(self).phase == old(self).phase,
    {
        match self.y.checked_sub(self.step) {
            Some(y) => {
                self.y = y;
                Some(Point { x: self.x, y })
            },
            None => None,
        }
    }

    /// Takes whether the watched label shows after the last step; when it does, the gesture
    /// commits and the caller must click. Returns whether to click.
    pub fn observe_label(&mut self, label_shown: bool) -> (r: bool)
        requires
            old(self).phase == DragPhase::Probing,
        ensures
            r == label_shown,
            final(self).phase == (if label_shown {
                DragPhase::Committed
            } else {
                DragPhase::Probing
            }),
            final(self).x == old(self).x,
            final(self).y == old(self).y,
            final(self).step == old(self).step,
            final(self).cooldown_ms == old(self).cooldown_ms,
            final(self).settle_ms == old(self).settle_ms,
            final(self).remaining == old(self).remaining,
            final(self).previous == old(self).previous,
    {
        if label_shown {
            self.phase = DragPhase::Committed;
        }
        label_shown
    }

    /// Records the click of a committed repetition; returns how long to let the
    /// application settle. Probing resumes while repetitions remain.
    pub fn clicked(&mut self) -> (r: u64)
        requires
            old(self).phase == DragPhase::Committed,
            old(self).remaining > 0,
        ensures
            r == old(self).settle_ms,
            final(self).remaining == old(self).remaining - 1,
            final(self).phase == (if old(self).remaining > 1 {
                DragPhase::Probing
            } else {
                DragPhase::Finished
            }),
            final(self).x == old(self).x,
            final(self).y == old(self).y,
            final(self).step == old(self).step,
            final(self).cooldown_ms == old(self).cooldown_ms,
            final(self).settle_ms == old(self).settle_ms,
            final(self).previous == old(self).previous,
    {
        self.remaining = self.remaining - 1;
        self.phase = if self.remaining > 0 {
            DragPhase::Probing
        } else {
            DragPhase::Finished
        };
        self.settle_ms
    }

    /// Whether every repetition is done.
    pub fn is_finished(&self) -> (r: bool)
        ensures
            r == (self.phase == DragPhase::Finished),
    {
        self.phase == DragPhase::Finished
    }
}

} // verus!
