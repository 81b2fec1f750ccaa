//! What the supervisor asks of the status store, and what the store answers.
//! A write is attempted once for each status event; the supervisor goes on
//! whether or not the store took it.

use vstd::prelude::*;
use crate::status::{ContainerKey, ContainerKeyView, Status, StatusEvent, StatusEventView, StatusView};

verus! {

/// One write to the status store: the container it is about and the status to
/// record for it.
#[derive(Debug, PartialEq, Eq)]
pub struct ReportRequest {
    pub key: ContainerKey,
    pub status: Status,
}

/// Mathematical value of a [`ReportRequest`].
pub struct ReportRequestView {
    pub key: ContainerKeyView,
    pub status: StatusView,
}

impl View for ReportRequest {
    type V = ReportRequestView;

    open spec fn view(&self) -> ReportRequestView {
        ReportRequestView { key: self.key@, status: self.status@ }
    }
}

impl Clone for ReportRequest {
    fn clone(&self) -> (copy: Self)
        ensures
            copy == *self,
    {
        ReportRequest { key: self.key.clone(), status: self.status.clone() }
    }
}

impl ReportRequestView {
    /// The write that a status event calls for: the event's status, recorded
    /// for the application container of the event's name.
    pub open spec fn of(event: StatusEventView) -> ReportRequestView {
        ReportRequestView { key: ContainerKeyView::App(event.name), status: event.status }
    }
}

impl ReportRequest {
    /// The write that a status event calls for.
    pub fn for_event(event: StatusEvent) -> (request: ReportRequest)
        ensures
            request@ == ReportRequestView::of(event@),
    {
        ReportRequest { key: ContainerKey::App(event.name), status: event.status }
    }
}

/// Why a write to the status store did not go through.
#[derive(Debug, PartialEq, Eq)]
pub struct ReportError {
    pub reason: String,
}

/// Mathematical value of a [`ReportError`].
pub struct ReportErrorView {
    pub reason: Seq<char>,
}

impl View for ReportError {
    type V = ReportErrorView;

    open spec fn view(&self) -> ReportErrorView {
        ReportErrorView { reason: self.reason@ }
    }
}

impl Clone for ReportError {
    fn clone(&self) -> (copy: Self)
        ensures
            copy == *self,
    {
        ReportError { reason: self.reason.clone() }
    }
}

/// Mathematical value of the answer to a write.
pub open spec fn outcome_view(outcome: Result<(), ReportError>) -> Result<(), ReportErrorView> {
    match outcome {
        Ok(_) => Ok(()),
        Err(error) => Err(error@),
    }
}

/// A copy of the answer to a write.
pub fn copy_outcome(outcome: &Result<(), ReportError>) -> (copy: Result<(), ReportError>)
    ensures
        outcome_view(copy) == outcome_view(*outcome),
{
    match outcome {
        Ok(_) => Ok(()),
        Err(error) => Err(error.clone()),
    }
}

} // verus!
