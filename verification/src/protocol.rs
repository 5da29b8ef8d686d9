//! The life of a mount in mathematical terms: what it asks for, what it may be
//! told, and where that takes it.
use vstd::prelude::*;

use crate::config::ConfigView;
use crate::error::ErrorView;
use crate::fifo::{self, OpenOutcomeView};
use crate::http::{self, RequestView};

verus! {

/// The mathematical value of what a mount asks for.
pub enum ActionView {
    Probe(Seq<u8>),
    Make(Seq<u8>, u32),
    Open,
    AskCancelled,
    Sleep(u64),
    ClearNonblock,
    Send(RequestView),
    Next,
    Write(Seq<u8>),
    Close,
    Unlink(Seq<u8>),
    Return(ErrorView),
}

/// The mathematical value of what came of an action.
pub enum ReplyView {
    Probed(bool),
    Made(Result<(), Seq<char>>),
    Attempted(OpenOutcomeView),
    CancelState(bool),
    Slept,
    NonblockCleared(Result<(), Seq<char>>),
    SendFailed(Seq<char>),
    Answered(u16, Seq<char>),
    Chunk(Seq<u8>),
    ChunkFailed(Seq<char>),
    End,
    Cancelled,
    Written(Result<(), Seq<char>>),
    Closed,
    Unlinked,
}

/// The mathematical value of what a mount does once its FIFO is gone.
pub enum AfterView {
    Again,
    Fail(ErrorView),
}

/// The mathematical value of where a mount stands. A guard is the path of its
/// FIFO.
pub enum PhaseView {
    Probing,
    Making,
    Opening(Seq<u8>),
    AskingCancelled(Seq<u8>),
    Sleeping(Seq<u8>),
    Clearing(Seq<u8>),
    Sending(Seq<u8>),
    Streaming(Seq<u8>),
    Writing(Seq<u8>),
    Closing(Seq<u8>, AfterView),
    Unlinking(AfterView),
    Over,
}

/// The mathematical value of a mount under way.
pub struct MountView {
    pub config: ConfigView,
    pub phase: PhaseView,
}

impl MountView {
    /// A mount of `config` that has just asked for its first action.
    pub open spec fn start(config: ConfigView) -> MountView {
        MountView { config, phase: PhaseView::Probing }
    }

    /// Whether `reply` is one to the action that is under way.
    pub open spec fn awaits(self, reply: ReplyView) -> bool {
        match self.phase {
            PhaseView::Probing => reply is Probed,
            PhaseView::Making => reply is Made,
            PhaseView::Opening(_) => reply is Attempted,
            PhaseView::AskingCancelled(_) => reply is CancelState,
            PhaseView::Sleeping(_) => reply is Slept,
            PhaseView::Clearing(_) => reply is NonblockCleared,
            PhaseView::Sending(_) => reply is SendFailed || reply is Answered,
            PhaseView::Streaming(_) => reply is Chunk || reply is ChunkFailed || reply is End
                || reply is Cancelled,
            PhaseView::Writing(_) => reply is Written,
            PhaseView::Closing(_, _) => reply is Closed,
            PhaseView::Unlinking(_) => reply is Unlinked,
            PhaseView::Over => false,
        }
    }

    pub open spec fn turn(self, phase: PhaseView, action: ActionView) -> (MountView, ActionView) {
        (MountView { config: self.config, phase }, action)
    }

    /// Ends with `e`, when there is no FIFO to clean up.
    pub open spec fn give_up(self, e: ErrorView) -> (MountView, ActionView) {
        self.turn(PhaseView::Over, ActionView::Return(e))
    }

    /// Unlinks the FIFO and goes on as `after` says.
    pub open spec fn unlink(self, guard: Seq<u8>, after: AfterView) -> (MountView, ActionView) {
        self.turn(PhaseView::Unlinking(after), ActionView::Unlink(guard))
    }

    /// Closes the write end, then unlinks the FIFO and goes on as `after` says.
    pub open spec fn close(self, guard: Seq<u8>, after: AfterView) -> (MountView, ActionView) {
        self.turn(PhaseView::Closing(guard, after), ActionView::Close)
    }

    /// Where a mount stands after a reply that it awaits, and what it asks for
    /// next.
    pub open spec fn step(self, reply: ReplyView) -> (MountView, ActionView) {
        let path = self.config.fifo_path;
        match (self.phase, reply) {
            (PhaseView::Probing, ReplyView::Probed(occupied)) => if occupied {
                self.give_up(ErrorView::FifoAlreadyExists(path))
            } else {
                self.turn(PhaseView::Making, ActionView::Make(path, fifo::FIFO_MODE))
            },
            (PhaseView::Making, ReplyView::Made(made)) => match made {
                Ok(()) => self.turn(PhaseView::Opening(path), ActionView::Open),
                Err(detail) => self.give_up(ErrorView::FifoCreate(detail)),
            },
            (PhaseView::Opening(guard), ReplyView::Attempted(outcome)) => match outcome {
                OpenOutcomeView::Opened => self.turn(
                    PhaseView::Clearing(guard),
                    ActionView::ClearNonblock,
                ),
                OpenOutcomeView::NoReader => self.turn(
                    PhaseView::AskingCancelled(guard),
                    ActionView::AskCancelled,
                ),
                OpenOutcomeView::Failed(detail) => self.unlink(
                    guard,
                    AfterView::Fail(ErrorView::Io(detail)),
                ),
            },
            (PhaseView::AskingCancelled(guard), ReplyView::CancelState(cancelled)) => if cancelled {
                self.unlink(guard, AfterView::Fail(ErrorView::Cancelled))
            } else {
                self.turn(PhaseView::Sleeping(guard), ActionView::Sleep(fifo::POLL_MILLIS))
            },
            (PhaseView::Sleeping(guard), ReplyView::Slept) => self.turn(
                PhaseView::Opening(guard),
                ActionView::Open,
            ),
            (PhaseView::Clearing(guard), ReplyView::NonblockCleared(cleared)) => match cleared {
                Ok(()) => self.turn(
                    PhaseView::Sending(guard),
                    ActionView::Send(self.config.request()),
                ),
                Err(detail) => self.close(guard, AfterView::Fail(ErrorView::Io(detail))),
            },
            (PhaseView::Sending(guard), ReplyView::SendFailed(detail)) => self.close(
                guard,
                AfterView::Fail(ErrorView::Http(detail)),
            ),
            (PhaseView::Sending(guard), ReplyView::Answered(status, detail)) => if http::success(
                status,
            ) {
                self.turn(PhaseView::Streaming(guard), ActionView::Next)
            } else {
                self.close(guard, AfterView::Fail(ErrorView::Http(detail)))
            },
            (PhaseView::Streaming(guard), ReplyView::Chunk(bytes)) => self.turn(
                PhaseView::Writing(guard),
                ActionView::Write(bytes),
            ),
            (PhaseView::Streaming(guard), ReplyView::ChunkFailed(detail)) => self.close(
                guard,
                AfterView::Fail(ErrorView::Http(detail)),
            ),
            (PhaseView::Streaming(guard), ReplyView::End) => self.close(guard, AfterView::Again),
            (PhaseView::Streaming(guard), ReplyView::Cancelled) => self.close(
                guard,
                AfterView::Fail(ErrorView::Cancelled),
            ),
            (PhaseView::Writing(guard), ReplyView::Written(written)) => match written {
                Ok(()) => self.turn(PhaseView::Streaming(guard), ActionView::Next),
                Err(detail) => self.close(guard, AfterView::Fail(ErrorView::Io(detail))),
            },
            (PhaseView::Closing(guard, after), ReplyView::Closed) => self.unlink(guard, after),
            (PhaseView::Unlinking(after), ReplyView::Unlinked) => match after {
                AfterView::Again => self.turn(PhaseView::Probing, ActionView::Probe(path)),
                AfterView::Fail(e) => self.give_up(e),
            },
            _ => arbitrary(),
        }
    }
}

} // verus!
