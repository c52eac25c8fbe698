//! The driver: the lifecycle of the one background context that runs the
//! observer. Starting succeeds only on a completed handshake; tearing down
//! raises the stop flag and says whether a background context is left to
//! be joined.

use crate::error::{ClipboardError, ErrorView};
use vstd::prelude::*;

verus! {

/// How the start-up handshake with the background context ended.
#[derive(Debug, Clone, PartialEq, Eq)]
pub enum Handshake {
    /// The platform monitor is set up and the observer runs.
    Ready,
    /// The platform monitor could not be set up; the text says why.
    SetupFailed(String),
    /// The background context went away without an answer.
    Lost(String),
}

/// The mathematical value of a [`Handshake`].
pub enum HandshakeView {
    Ready,
    SetupFailed(Seq<char>),
    Lost(Seq<char>),
}

impl View for Handshake {
    type V = HandshakeView;

    open spec fn view(&self) -> HandshakeView {
        match self {
            Handshake::Ready => HandshakeView::Ready,
            Handshake::SetupFailed(reason) => HandshakeView::SetupFailed(reason@),
            Handshake::Lost(reason) => HandshakeView::Lost(reason@),
        }
    }
}

/// The lifecycle of one driver.
#[derive(Debug, PartialEq, Eq)]
pub struct Driver {
    /// The stop flag: false from the start, raised once by the teardown.
    pub stop: bool,
    /// Whether the background context has still to be joined.
    pub attached: bool,
}

/// What starting a driver gives for each end of the handshake.
pub open spec fn start_outcome(handshake: HandshakeView) -> Result<Driver, ErrorView> {
    match handshake {
        HandshakeView::Ready => Ok(Driver { stop: false, attached: true }),
        HandshakeView::SetupFailed(reason) => Err(ErrorView::InitializationError(reason)),
        HandshakeView::Lost(reason) => Err(ErrorView::TryRecvError(reason)),
    }
}

/// The view of the result of starting.
pub open spec fn started_view(started: Result<Driver, ClipboardError>) -> Result<
    Driver,
    ErrorView,
> {
    match started {
        Ok(driver) => Ok(driver),
        Err(error) => Err(error@),
    }
}

impl Driver {
    /// The driver for a background context whose handshake ended as given:
    /// a running driver exactly when the handshake completed, else the
    /// initialization error or the lost-handshake error with the reason.
    pub fn new(handshake: Handshake) -> (started: Result<Self, ClipboardError>)
        ensures
            started_view(started) == start_outcome(handshake@),
    {
        match handshake {
            Handshake::Ready => Ok(Driver { stop: false, attached: true }),
            Handshake::SetupFailed(reason) => Err(ClipboardError::InitializationError(reason)),
            Handshake::Lost(reason) => Err(ClipboardError::TryRecvError(reason)),
        }
    }

    /// Tears the driver down: raises the stop flag and detaches the
    /// background context. The answer says whether the caller has a context
    /// to join, which is so the first time only.
    pub fn teardown(&mut self) -> (join: bool)
        ensures
            join == old(self).attached,
            final(self).stop,
            !final(self).attached,
    {
        let join = self.attached;
        self.stop = true;
        self.attached = false;
        join
    }
}

} // verus!
