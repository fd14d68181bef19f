//! The lock on the network preferences.

use crate::proxy::Sysproxy;
use crate::system::{Action, ActionView, Reply, ReplyView, Step, StepView, Task};
use vstd::prelude::*;

verus! {

/// Trying the lock: it is taken without waiting, and given back at once.
#[derive(Debug, Clone, Copy)]
pub enum LockProbe {
    Locking,
    Unlocking,
}

impl View for LockProbe {
    type V = LockProbe;

    open spec fn view(&self) -> LockProbe {
        *self
    }
}

impl Task for LockProbe {
    type Output = bool;

    type Seen = bool;

    open spec fn seen(output: bool) -> bool {
        output
    }

    open spec fn wanted(state: LockProbe) -> ActionView {
        match state {
            LockProbe::Locking => ActionView::Lock,
            LockProbe::Unlocking => ActionView::Unlock,
        }
    }

    open spec fn after(state: LockProbe, reply: ReplyView) -> StepView<LockProbe, bool> {
        match state {
            LockProbe::Locking => if reply.accepted() {
                StepView::Ask(LockProbe::Unlocking)
            } else {
                StepView::Done(false)
            },
            LockProbe::Unlocking => StepView::Done(true),
        }
    }

    fn action(&self) -> (action: Action) {
        match self {
            LockProbe::Locking => Action::Lock,
            LockProbe::Unlocking => Action::Unlock,
        }
    }

    fn reply(self, reply: Reply) -> (step: Step<LockProbe, bool>) {
        match self {
            LockProbe::Locking => if reply.accepted() {
                Step::Ask(LockProbe::Unlocking)
            } else {
                Step::Done(false)
            },
            LockProbe::Unlocking => Step::Done(true),
        }
    }
}

impl Sysproxy {
    /// Starts to try the lock on the preferences.
    ///
    /// This does not predict whether authorized `networksetup` writes will succeed.
    pub fn can_lock_scpreferences() -> (step: Step<LockProbe, bool>)
        ensures
            step == Step::<LockProbe, bool>::Ask(LockProbe::Locking),
    {
        Step::Ask(LockProbe::Locking)
    }
}

} // verus!
