//! The window lifecycle guard: closing the main window hides it unless the
//! user has asked to quit.
use vstd::prelude::*;

verus! {

/// What becomes of a request to close the main window.
#[derive(Clone, Copy, Debug, PartialEq, Eq, Structural)]
pub enum CloseAction {
    /// Cancel the close and hide the window.
    Hide,
    /// Let the window close.
    Close,
}

/// The process-wide lifecycle state: whether an explicit quit was asked for.
#[derive(Debug)]
pub struct AppLifecycleState {
    quitting: bool,
}

impl AppLifecycleState {
    pub closed spec fn is_quitting(&self) -> bool {
        self.quitting
    }

    pub fn new() -> (r: AppLifecycleState)
        ensures
            !r.is_quitting(),
    {
        AppLifecycleState { quitting: false }
    }

    pub fn request_quit(&mut self)
        ensures
            final(self).is_quitting(),
    {
        self.quitting = true;
    }

    pub fn quitting(&self) -> (r: bool)
        ensures
            r == self.is_quitting(),
    {
        self.quitting
    }

    /// Hide unless quitting; only a quit lets the window be destroyed.
    pub fn on_close_requested(&self) -> (r: CloseAction)
        ensures
            r == close_action(self.is_quitting()),
    {
        close_action_for(self.quitting)
    }
}

pub open spec fn close_action(quitting: bool) -> CloseAction {
    if quitting {
        CloseAction::Close
    } else {
        CloseAction::Hide
    }
}

pub fn close_action_for(quitting: bool) -> (r: CloseAction)
    ensures
        r == close_action(quitting),
        !quitting ==> r == CloseAction::Hide,
        quitting ==> r == CloseAction::Close,
{
    if quitting {
        CloseAction::Close
    } else {
        CloseAction::Hide
    }
}

/// Whether a close request may proceed.
pub fn should_close_window(quitting: bool) -> (r: bool)
    ensures
        r == (close_action(quitting) == CloseAction::Close),
{
    match close_action_for(quitting) {
        CloseAction::Close => true,
        CloseAction::Hide => false,
    }
}

} // verus!
