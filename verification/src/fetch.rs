//! The order of work in fetching one file, and what each failure is
//! reported as. The work itself (files, the network) is the caller's.

use vstd::prelude::*;

verus! {

/// Why a file could not be fetched.
#[derive(Debug, Clone, Copy, PartialEq, Eq, Structural)]
pub enum FetchError {
    /// The destination is there already; nothing is overwritten.
    AlreadyExists,
    /// No response, or one that reports failure.
    TransportError,
    /// The destination could not be created, or reading the body or
    /// writing it out failed midway. What was written so far stays.
    IoError,
}

/// What the caller is to do next.
#[derive(Debug, Clone, Copy, PartialEq, Eq, Structural)]
pub enum FetchAction {
    /// Create the destination as a new file.
    CreateFile,
    /// Send the request for the URL.
    SendRequest,
    /// Read the next piece of the body.
    ReadPiece,
    /// Write the piece just read to the end of the file.
    WritePiece,
}

/// What has just happened.
#[derive(Debug, Clone, Copy, PartialEq, Eq, Structural)]
pub enum FetchEvent {
    /// The fetch was asked for.
    Begin,
    Created,
    DestinationExists,
    CreateFailed,
    /// A response has arrived whose status reports success.
    Responded,
    /// No response has arrived, or one whose status reports no success.
    RequestFailed,
    PieceRead,
    BodyEnded,
    ReadFailed,
    PieceWritten,
    WriteFailed,
}

/// How a fetch goes on after an event.
#[derive(Debug, Clone, Copy, PartialEq, Eq, Structural)]
pub enum FetchStep {
    Do(FetchAction),
    /// The whole body is in the file.
    Done,
    Fail(FetchError),
}

/// The step that follows an event: the file is created first, then the
/// request is sent, then pieces are read and written in turn, each written
/// before the next is read, until the body ends. Every failure ends the
/// fetch at once.
pub open spec fn next_step(event: FetchEvent) -> FetchStep {
    match event {
        FetchEvent::Begin => FetchStep::Do(FetchAction::CreateFile),
        FetchEvent::Created => FetchStep::Do(FetchAction::SendRequest),
        FetchEvent::DestinationExists => FetchStep::Fail(FetchError::AlreadyExists),
        FetchEvent::CreateFailed => FetchStep::Fail(FetchError::IoError),
        FetchEvent::Responded => FetchStep::Do(FetchAction::ReadPiece),
        FetchEvent::RequestFailed => FetchStep::Fail(FetchError::TransportError),
        FetchEvent::PieceRead => FetchStep::Do(FetchAction::WritePiece),
        FetchEvent::BodyEnded => FetchStep::Done,
        FetchEvent::ReadFailed => FetchStep::Fail(FetchError::IoError),
        FetchEvent::PieceWritten => FetchStep::Do(FetchAction::ReadPiece),
        FetchEvent::WriteFailed => FetchStep::Fail(FetchError::IoError),
    }
}

/// What the arrival of a response with the given status amounts to: a
/// status from 200 through 299 is a success, every other one is a failed
/// request, whatever body comes with it.
pub open spec fn status_event(status: u16) -> FetchEvent {
    if 200 <= status && status <= 299 {
        FetchEvent::Responded
    } else {
        FetchEvent::RequestFailed
    }
}

/// Tells which event the arrival of a response is, by its status.
pub fn response_event(status: u16) -> (r: FetchEvent)
    ensures
        r == status_event(status),
{
    if 200 <= status && status <= 299 {
        FetchEvent::Responded
    } else {
        FetchEvent::RequestFailed
    }
}

/// A response without a success status ends the fetch with a transport
/// error: no piece of its body is read or written. One with a success
/// status is read.
pub proof fn status_decides(status: u16)
    ensures
        !(200 <= status <= 299) ==> next_step(status_event(status)) == FetchStep::Fail(
            FetchError::TransportError,
        ),
        200 <= status <= 299 ==> next_step(status_event(status)) == FetchStep::Do(
            FetchAction::ReadPiece,
        ),
{
}

/// Decides the step that follows an event.
pub fn fetch_step(event: FetchEvent) -> (r: FetchStep)
    ensures
        r == next_step(event),
{
    match event {
        FetchEvent::Begin => FetchStep::Do(FetchAction::CreateFile),
        FetchEvent::Created => FetchStep::Do(FetchAction::SendRequest),
        FetchEvent::DestinationExists => FetchStep::Fail(FetchError::AlreadyExists),
        FetchEvent::CreateFailed | FetchEvent::ReadFailed | FetchEvent::WriteFailed => FetchStep::Fail(
            FetchError::IoError,
        ),
        FetchEvent::Responded | FetchEvent::PieceWritten => FetchStep::Do(FetchAction::ReadPiece),
        FetchEvent::RequestFailed => FetchStep::Fail(FetchError::TransportError),
        FetchEvent::PieceRead => FetchStep::Do(FetchAction::WritePiece),
        FetchEvent::BodyEnded => FetchStep::Done,
    }
}

/// A fetch succeeds only by the body ending, which only reading can
/// report; and a request is sent only after the file was newly created, so
/// that a destination already there is never requested for, let alone
/// written to.
pub proof fn fetch_order(event: FetchEvent)
    ensures
        next_step(event) == FetchStep::Done <==> event == FetchEvent::BodyEnded,
        next_step(event) == FetchStep::Do(FetchAction::SendRequest) <==> event
            == FetchEvent::Created,
        next_step(event) == FetchStep::Do(FetchAction::WritePiece) <==> event
            == FetchEvent::PieceRead,
        next_step(event) == FetchStep::Fail(FetchError::AlreadyExists) <==> event
            == FetchEvent::DestinationExists,
        next_step(event) == FetchStep::Fail(FetchError::TransportError) <==> event
            == FetchEvent::RequestFailed,
        next_step(event) == FetchStep::Fail(FetchError::IoError) <==> (event
            == FetchEvent::CreateFailed || event == FetchEvent::ReadFailed || event
            == FetchEvent::WriteFailed),
{
}

} // verus!
