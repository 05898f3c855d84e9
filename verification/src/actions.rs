//! What a layout answers after handling input: the stack transition it
//! requests, or a deferred side effect for the engine's caller to run.

use crate::layouts::Layout;
use crate::layouts::LayoutV;
use crate::volume::Volume;
use vstd::prelude::*;

verus! {

/// A deferred side-effecting request.  The engine owns no device or mixer
/// handle, so it hands the command back to its caller, which performs it at
/// the point the engine would have run a callback.
#[derive(Clone, Copy, Debug, PartialEq, Eq, Structural)]
pub enum Command {
    /// Ask the host mixer to take this volume.
    SetVolume(Volume),
}

/// The result vocabulary of a layout's `input` and of the engine's action
/// application.  A pushed or replaced layout moves with the action: each
/// stack slot owns its layout exclusively.
pub enum Action {
    /// No stack change, nothing to run.
    Nothing,
    /// Remove the active layout; refused on the root.
    PopLayout,
    /// Put a new layout above the active one.
    PushLayout(Box<Layout>),
    /// Swap the active layout out for a new one, at the same depth.
    ReplaceLayout(Box<Layout>),
    /// Run a deferred command, with no stack change.
    Run(Command),
}

/// Ghost mirror of [`Action`], over layout models.
pub enum ActionV {
    Nothing,
    PopLayout,
    PushLayout(LayoutV),
    ReplaceLayout(LayoutV),
    Run(Command),
}

impl View for Action {
    type V = ActionV;

    open spec fn view(&self) -> ActionV {
        match self {
            Action::Nothing => ActionV::Nothing,
            Action::PopLayout => ActionV::PopLayout,
            Action::PushLayout(l) => ActionV::PushLayout(l@),
            Action::ReplaceLayout(l) => ActionV::ReplaceLayout(l@),
            Action::Run(c) => ActionV::Run(*c),
        }
    }
}

impl Action {
    /// A layout that travels with the action is itself well-formed.
    pub open spec fn wf(self) -> bool {
        match self {
            Action::PushLayout(l) => l.wf(),
            Action::ReplaceLayout(l) => l.wf(),
            _ => true,
        }
    }
}

/// The actions a button can bind.  A binding is looked up and returned by
/// copy on every press, so it carries no layout value of its own; stack
/// growth is requested by the engine's callers.
#[derive(Clone, Copy, Debug, PartialEq, Eq, Structural)]
pub enum BoundAction {
    Nothing,
    PopLayout,
    Run(Command),
}

impl BoundAction {
    pub open spec fn to_action_spec(self) -> ActionV {
        match self {
            BoundAction::Nothing => ActionV::Nothing,
            BoundAction::PopLayout => ActionV::PopLayout,
            BoundAction::Run(c) => ActionV::Run(c),
        }
    }

    /// The same request as a full [`Action`].
    pub fn to_action(self) -> (a: Action)
        ensures
            a@ == self.to_action_spec(),
            a.wf(),
    {
        match self {
            BoundAction::Nothing => Action::Nothing,
            BoundAction::PopLayout => Action::PopLayout,
            BoundAction::Run(c) => Action::Run(c),
        }
    }
}

} // verus!
