//! The outcome that the running state hands to the pod's lifecycle.

use vstd::prelude::*;

verus! {

/// Where the pod goes when it leaves the running state. There is no third
/// way out.
#[derive(Debug, PartialEq, Eq)]
pub enum Transition {
    /// The pod's work is over and no container has failed.
    Completed,
    /// A container stopped with an error; `message` is the one it reported.
    Error { message: String },
}

/// Mathematical value of a [`Transition`].
pub enum TransitionView {
    Completed,
    Error { message: Seq<char> },
}

impl View for Transition {
    type V = TransitionView;

    open spec fn view(&self) -> TransitionView {
        match self {
            Transition::Completed => TransitionView::Completed,
            Transition::Error { message } => TransitionView::Error { message: message@ },
        }
    }
}

impl Clone for Transition {
    fn clone(&self) -> (copy: Self)
        ensures
            copy == *self,
    {
        match self {
            Transition::Completed => Transition::Completed,
            Transition::Error { message } => Transition::Error { message: message.clone() },
        }
    }
}

impl Transition {
    /// Whether the pod leaves the running state in error.
    pub fn is_error(&self) -> (error: bool)
        ensures
            error == (self@ is Error),
    {
        match self {
            Transition::Completed => false,
            Transition::Error { .. } => true,
        }
    }
}

} // verus!
