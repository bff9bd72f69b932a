//! The two-pick pipe run: pick the start structure, then the end one.
//!
//! The viewport reports each object pick with the picked entity's handle;
//! this state machine says what the interactive command does next. Where the
//! pipe is drawn (the picked points) stays with the caller.

use vstd::prelude::*;

verus! {

/// Which structure the pipe run waits for.
#[derive(Clone, Copy, Debug, PartialEq, Eq, Structural)]
pub enum PipePickStep {
    PickStart,
    PickEnd,
}

/// What the interactive command does after a pick.
#[derive(Clone, Copy, Debug, PartialEq, Eq, Structural)]
pub enum PickAction {
    /// Wait for the next pick.
    NeedPoint,
    /// End without drawing: both picks hit the same structure.
    Cancel,
    /// Draw the pipe between these structures and end.
    Commit { from: u64, to: u64 },
}

/// The state of a pipe run being picked.
pub struct PipePick {
    pub step: PipePickStep,
    /// Handle of the start structure, once picked.
    pub start: Option<u64>,
}

impl PipePick {
    pub fn new() -> (r: Self)
        ensures
            r.step == PipePickStep::PickStart,
            r.start is None,
    {
        PipePick { step: PipePickStep::PickStart, start: None }
    }

    /// A structure with `handle` was picked. The first pick becomes the
    /// start; the second ends the run, drawing the pipe unless it picked the
    /// start structure again.
    pub fn on_object_pick(&mut self, handle: u64) -> (r: PickAction)
        ensures
            old(self).step == PipePickStep::PickStart ==> {
                &&& r == PickAction::NeedPoint
                &&& final(self).step == PipePickStep::PickEnd
                &&& final(self).start == Some(handle)
            },
            old(self).step == PipePickStep::PickEnd ==> {
                let from = match old(self).start {
                    Some(h) => h,
                    None => 0u64,
                };
                &&& *final(self) == *old(self)
                &&& r == (if from == handle {
                    PickAction::Cancel
                } else {
                    PickAction::Commit { from, to: handle }
                })
            },
            r matches PickAction::Commit { from, to } ==> from != to,
    {
        match self.step {
            PipePickStep::PickStart => {
                self.start = Some(handle);
                self.step = PipePickStep::PickEnd;
                PickAction::NeedPoint
            },
            PipePickStep::PickEnd => {
                let from = match self.start {
                    Some(h) => h,
                    None => 0,
                };
                if from == handle {
                    PickAction::Cancel
                } else {
                    PickAction::Commit { from, to: handle }
                }
            },
        }
    }
}

} // verus!
