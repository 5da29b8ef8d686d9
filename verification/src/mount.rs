//! One mount, as a machine: it says what to do next, is told what came of it,
//! and decides. Doing it is up to the caller.
use vstd::prelude::*;

use crate::config::Config;
use crate::error::Error;
use crate::fifo::{self, FifoGuard, NewFifo, OpenOutcome};
use crate::http::{self, Request};
use crate::protocol::{ActionView, AfterView, MountView, PhaseView, ReplyView};
use crate::text;

verus! {

/// What a mount asks for.
#[derive(Debug)]
pub enum Action {
    /// See whether any filesystem entry exists at this path.
    Probe(Vec<u8>),
    /// Make this FIFO.
    Make(NewFifo),
    /// Try to open the write end of the FIFO, without blocking.
    Open,
    /// See whether the mount has been cancelled.
    AskCancelled,
    /// Sleep for this many milliseconds.
    Sleep(u64),
    /// Make writes to the write end block.
    ClearNonblock,
    /// Send this request.
    Send(Request),
    /// Wait for the next chunk of the response body, or for cancellation.
    Next,
    /// Write these bytes to the write end, all of them.
    Write(Vec<u8>),
    /// Drop the response and close the write end.
    Close,
    /// Unlink the FIFO of this guard, if it is still there.
    Unlink(FifoGuard),
    /// The mount is over, with this error.
    Return(Error),
}

/// What came of an action.
#[derive(Debug)]
pub enum Reply {
    /// To [`Action::Probe`]: whether an entry exists.
    Probed(bool),
    /// To [`Action::Make`].
    Made(Result<(), String>),
    /// To [`Action::Open`].
    Attempted(OpenOutcome),
    /// To [`Action::AskCancelled`].
    CancelState(bool),
    /// To [`Action::Sleep`].
    Slept,
    /// To [`Action::ClearNonblock`].
    NonblockCleared(Result<(), String>),
    /// To [`Action::Send`]: the request could not be sent.
    SendFailed(String),
    /// To [`Action::Send`]: the status of the answer, and what to say of it
    /// should it not be a success.
    Answered(u16, String),
    /// To [`Action::Next`]: a chunk.
    Chunk(Vec<u8>),
    /// To [`Action::Next`]: a chunk could not be read.
    ChunkFailed(String),
    /// To [`Action::Next`]: the body has ended.
    End,
    /// To [`Action::Next`]: the mount was cancelled.
    Cancelled,
    /// To [`Action::Write`].
    Written(Result<(), String>),
    /// To [`Action::Close`].
    Closed,
    /// To [`Action::Unlink`].
    Unlinked,
}

/// What a mount does once its FIFO is gone.
#[derive(Debug)]
enum After {
    /// Start over, for the next reader.
    Again,
    /// End with this error.
    Fail(Error),
}

/// Where a mount stands: which action is under way, and the guard of the FIFO
/// while there is one.
#[derive(Debug)]
enum Phase {
    Probing,
    Making,
    Opening(FifoGuard),
    AskingCancelled(FifoGuard),
    Sleeping(FifoGuard),
    Clearing(FifoGuard),
    Sending(FifoGuard),
    Streaming(FifoGuard),
    Writing(FifoGuard),
    Closing(FifoGuard, After),
    Unlinking(After),
    Over,
}

/// A mount under way.
#[derive(Debug)]
pub struct Mount {
    config: Config,
    phase: Phase,
}

/// The mathematical value of what an operating system call gave.
pub open spec fn done(result: Result<(), String>) -> Result<(), Seq<char>> {
    match result {
        Ok(()) => Ok(()),
        Err(detail) => Err(detail@),
    }
}

impl View for Action {
    type V = ActionView;

    open spec fn view(&self) -> ActionView {
        match self {
            Action::Probe(path) => ActionView::Probe(path@),
            Action::Make(fifo) => ActionView::Make(fifo.path@, fifo.mode),
            Action::Open => ActionView::Open,
            Action::AskCancelled => ActionView::AskCancelled,
            Action::Sleep(millis) => ActionView::Sleep(*millis),
            Action::ClearNonblock => ActionView::ClearNonblock,
            Action::Send(request) => ActionView::Send(request@),
            Action::Next => ActionView::Next,
            Action::Write(bytes) => ActionView::Write(bytes@),
            Action::Close => ActionView::Close,
            Action::Unlink(guard) => ActionView::Unlink(guard@),
            Action::Return(e) => ActionView::Return(e@),
        }
    }
}

impl View for Reply {
    type V = ReplyView;

    open spec fn view(&self) -> ReplyView {
        match self {
            Reply::Probed(occupied) => ReplyView::Probed(*occupied),
            Reply::Made(made) => ReplyView::Made(done(*made)),
            Reply::Attempted(outcome) => ReplyView::Attempted(outcome@),
            Reply::CancelState(cancelled) => ReplyView::CancelState(*cancelled),
            Reply::Slept => ReplyView::Slept,
            Reply::NonblockCleared(cleared) => ReplyView::NonblockCleared(done(*cleared)),
            Reply::SendFailed(detail) => ReplyView::SendFailed(detail@),
            Reply::Answered(status, detail) => ReplyView::Answered(*status, detail@),
            Reply::Chunk(bytes) => ReplyView::Chunk(bytes@),
            Reply::ChunkFailed(detail) => ReplyView::ChunkFailed(detail@),
            Reply::End => ReplyView::End,
            Reply::Cancelled => ReplyView::Cancelled,
            Reply::Written(written) => ReplyView::Written(done(*written)),
            Reply::Closed => ReplyView::Closed,
            Reply::Unlinked => ReplyView::Unlinked,
        }
    }
}

impl View for After {
    type V = AfterView;

    closed spec fn view(&self) -> AfterView {
        match self {
            After::Again => AfterView::Again,
            After::Fail(e) => AfterView::Fail(e@),
        }
    }
}

impl View for Phase {
    type V = PhaseView;

    closed spec fn view(&self) -> PhaseView {
        match self {
            Phase::Probing => PhaseView::Probing,
            Phase::Making => PhaseView::Making,
            Phase::Opening(guard) => PhaseView::Opening(guard@),
            Phase::AskingCancelled(guard) => PhaseView::AskingCancelled(guard@),
            Phase::Sleeping(guard) => PhaseView::Sleeping(guard@),
            Phase::Clearing(guard) => PhaseView::Clearing(guard@),
            Phase::Sending(guard) => PhaseView::Sending(guard@),
            Phase::Streaming(guard) => PhaseView::Streaming(guard@),
            Phase::Writing(guard) => PhaseView::Writing(guard@),
            Phase::Closing(guard, after) => PhaseView::Closing(guard@, after@),
            Phase::Unlinking(after) => PhaseView::Unlinking(after@),
            Phase::Over => PhaseView::Over,
        }
    }
}

impl View for Mount {
    type V = MountView;

    closed spec fn view(&self) -> MountView {
        MountView { config: self.config@, phase: self.phase@ }
    }
}

/// Starts a mount of `config`: the mount and its first action.
///
/// A mount makes the FIFO (and fails if its path is occupied), waits for a
/// reader, sends the request, and forwards every chunk of the response body to
/// the FIFO. When the stream ends it unlinks the FIFO and starts over for the
/// next reader. When anything fails, or the mount is cancelled while it waits
/// for a reader or streams, it unlinks the FIFO and ends with the error.
pub fn mount(config: Config) -> (r: (Mount, Action))
    ensures
        r.0@ == MountView::start(config@),
        r.1@ == ActionView::Probe(config@.fifo_path),
        r.0@.config == config@,
        r.1 matches Action::Probe(path) && path@ == config.fifo_path@,
{
    let path = text::copy_bytes(&config.fifo_path);
    (Mount { config, phase: Phase::Probing }, Action::Probe(path))
}

impl Mount {
    /// Whether `reply` is one to the action that is under way.
    pub fn awaits(&self, reply: &Reply) -> (r: bool)
        ensures
            r == self@.awaits(reply@),
    {
        match (&self.phase, reply) {
            (Phase::Probing, Reply::Probed(_)) => true,
            (Phase::Making, Reply::Made(_)) => true,
            (Phase::Opening(_), Reply::Attempted(_)) => true,
            (Phase::AskingCancelled(_), Reply::CancelState(_)) => true,
            (Phase::Sleeping(_), Reply::Slept) => true,
            (Phase::Clearing(_), Reply::NonblockCleared(_)) => true,
            (Phase::Sending(_), Reply::SendFailed(_)) => true,
            (Phase::Sending(_), Reply::Answered(_, _)) => true,
            (Phase::Streaming(_), Reply::Chunk(_)) => true,
            (Phase::Streaming(_), Reply::ChunkFailed(_)) => true,
            (Phase::Streaming(_), Reply::End) => true,
            (Phase::Streaming(_), Reply::Cancelled) => true,
            (Phase::Writing(_), Reply::Written(_)) => true,
            (Phase::Closing(_, _), Reply::Closed) => true,
            (Phase::Unlinking(_), Reply::Unlinked) => true,
            _ => false,
        }
    }

    fn turn(config: Config, phase: Phase, action: Action) -> (r: (Mount, Action))
        ensures
            r.0@ == (MountView { config: config@, phase: phase@ }),
            r.1 == action,
    {
        (Mount { config, phase }, action)
    }

    fn unlink(config: Config, guard: FifoGuard, after: After) -> (r: (Mount, Action))
        ensures
            r.0@ == (MountView { config: config@, phase: PhaseView::Unlinking(after@) }),
            r.1@ == ActionView::Unlink(guard@),
    {
        Mount::turn(config, Phase::Unlinking(after), Action::Unlink(guard))
    }

    fn close(config: Config, guard: FifoGuard, after: After) -> (r: (Mount, Action))
        ensures
            r.0@ == (MountView { config: config@, phase: PhaseView::Closing(guard@, after@) }),
            r.1@ == ActionView::Close,
    {
        Mount::turn(config, Phase::Closing(guard, after), Action::Close)
    }

    /// Goes on after `reply` to the action that is under way: the mount and the
    /// next action.
    pub fn step(self, reply: Reply) -> (r: (Mount, Action))
        requires
            self@.awaits(reply@),
        ensures
            (r.0@, r.1@) == self@.step(reply@),
            r.0@.config == self@.config,
            match reply {
                Reply::Probed(occupied) => if occupied {
                    r.1 matches Action::Return(Error::FifoAlreadyExists(path)) && path@
                        == self@.config.fifo_path
                } else {
                    r.1 matches Action::Make(new) && new.path@ == self@.config.fifo_path
                        && new.mode == 0o600
                },
                Reply::Made(Ok(_)) => r.1 is Open,
                Reply::Made(Err(detail)) => r.1 matches Action::Return(Error::FifoCreate(said))
                    && said@ == detail@,
                Reply::Attempted(OpenOutcome::Opened) => r.1 is ClearNonblock,
                Reply::Attempted(OpenOutcome::NoReader) => r.1 is AskCancelled,
                Reply::Attempted(OpenOutcome::Failed(_)) => r.1 is Unlink,
                Reply::CancelState(cancelled) => if cancelled {
                    r.1 is Unlink
                } else {
                    r.1 matches Action::Sleep(millis) && millis == 50
                },
                Reply::Slept => r.1 is Open,
                Reply::NonblockCleared(Ok(_)) => r.1 matches Action::Send(request) && {
                    &&& request.method@ == self@.config.method
                    &&& request.url@ == self@.config.url
                    &&& request.headers@.len() == self@.config.headers.len()
                    &&& forall|i: int|
                        0 <= i < request.headers@.len() ==> (
                            (#[trigger] request.headers@[i]).0@,
                            request.headers@[i].1@,
                        ) == self@.config.headers[i]
                    &&& match self@.config.body {
                        Some(body) => request.body matches Some(sent) && sent@ == body,
                        None => request.body is None,
                    }
                },
                Reply::NonblockCleared(Err(_)) => r.1 is Close,
                Reply::SendFailed(_) => r.1 is Close,
                Reply::Answered(status, _) => if 200 <= status <= 299 {
                    r.1 is Next
                } else {
                    r.1 is Close
                },
                Reply::Chunk(bytes) => r.1 matches Action::Write(given) && given@ == bytes@,
                Reply::ChunkFailed(_) => r.1 is Close,
                Reply::End => r.1 is Close,
                Reply::Cancelled => r.1 is Close,
                Reply::Written(Ok(_)) => r.1 is Next,
                Reply::Written(Err(_)) => r.1 is Close,
                Reply::Closed => r.1 is Unlink,
                Reply::Unlinked => r.1 is Return || (r.1 matches Action::Probe(path) && path@
                    == self@.config.fifo_path),
            },
    {
        let Mount { config, phase } = self;
        match (phase, reply) {
            (Phase::Probing, Reply::Probed(occupied)) => {
                match fifo::create_fifo(&config.fifo_path, occupied) {
                    Ok(new) => Mount::turn(config, Phase::Making, Action::Make(new)),
                    Err(e) => Mount::turn(config, Phase::Over, Action::Return(e)),
                }
            },
            (Phase::Making, Reply::Made(made)) => {
                match fifo::fifo_created(&config.fifo_path, made) {
                    Ok(guard) => Mount::turn(config, Phase::Opening(guard), Action::Open),
                    Err(e) => Mount::turn(config, Phase::Over, Action::Return(e)),
                }
            },
            (Phase::Opening(guard), Reply::Attempted(outcome)) => {
                match fifo::open_fifo_write(outcome) {
                    Ok(true) => Mount::turn(
                        config,
                        Phase::Clearing(guard),
                        Action::ClearNonblock,
                    ),
                    Ok(false) => Mount::turn(
                        config,
                        Phase::AskingCancelled(guard),
                        Action::AskCancelled,
                    ),
                    Err(e) => Mount::unlink(config, guard, After::Fail(e)),
                }
            },
            (Phase::AskingCancelled(guard), Reply::CancelState(cancelled)) => {
                match fifo::wait_for_reader(cancelled) {
                    Ok(millis) => Mount::turn(
                        config,
                        Phase::Sleeping(guard),
                        Action::Sleep(millis),
                    ),
                    Err(e) => Mount::unlink(config, guard, After::Fail(e)),
                }
            },
            (Phase::Sleeping(guard), Reply::Slept) => Mount::turn(
                config,
                Phase::Opening(guard),
                Action::Open,
            ),
            (Phase::Clearing(guard), Reply::NonblockCleared(cleared)) => {
                match cleared {
                    Ok(()) => {
                        let request = http::fetch_stream(&config);
                        Mount::turn(config, Phase::Sending(guard), Action::Send(request))
                    },
                    Err(detail) => Mount::close(config, guard, After::Fail(Error::Io(detail))),
                }
            },
            (Phase::Sending(guard), Reply::SendFailed(detail)) => Mount::close(
                config,
                guard,
                After::Fail(Error::Http(detail)),
            ),
            (Phase::Sending(guard), Reply::Answered(status, detail)) => {
                match http::check_status(status, detail) {
                    Ok(()) => Mount::turn(config, Phase::Streaming(guard), Action::Next),
                    Err(e) => Mount::close(config, guard, After::Fail(e)),
                }
            },
            (Phase::Streaming(guard), Reply::Chunk(bytes)) => Mount::turn(
                config,
                Phase::Writing(guard),
                Action::Write(bytes),
            ),
            (Phase::Streaming(guard), Reply::ChunkFailed(detail)) => Mount::close(
                config,
                guard,
                After::Fail(Error::Http(detail)),
            ),
            (Phase::Streaming(guard), Reply::End) => Mount::close(config, guard, After::Again),
            (Phase::Streaming(guard), Reply::Cancelled) => Mount::close(
                config,
                guard,
                After::Fail(Error::Cancelled),
            ),
            (Phase::Writing(guard), Reply::Written(written)) => {
                match written {
                    Ok(()) => Mount::turn(config, Phase::Streaming(guard), Action::Next),
                    Err(detail) => Mount::close(config, guard, After::Fail(Error::Io(detail))),
                }
            },
            (Phase::Closing(guard, after), Reply::Closed) => Mount::unlink(config, guard, after),
            (Phase::Unlinking(After::Again), Reply::Unlinked) => mount(config),
            (Phase::Unlinking(After::Fail(e)), Reply::Unlinked) => Mount::turn(
                config,
                Phase::Over,
                Action::Return(e),
            ),
            _ => vstd::pervasive::unreached(),
        }
    }
}

} // verus!
