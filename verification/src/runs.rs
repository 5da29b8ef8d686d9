//! What holds of every run of a mount, whatever the replies.
use vstd::prelude::*;

use crate::config::ConfigView;
use crate::error::ErrorView;
use crate::fifo::{self, OpenOutcomeView};
use crate::http;
use crate::protocol::{ActionView, AfterView, MountView, PhaseView, ReplyView};

verus! {

/// Where a mount of `config` stands after `replies`, and the action that it asked
/// for last.
pub open spec fn run(config: ConfigView, replies: Seq<ReplyView>) -> (MountView, ActionView)
    decreases replies.len(),
{
    if replies.len() == 0 {
        (MountView::start(config), ActionView::Probe(config.fifo_path))
    } else {
        run(config, replies.drop_last()).0.step(replies.last())
    }
}

/// Whether each of `replies` is one to the action that was under way.
pub open spec fn follows(config: ConfigView, replies: Seq<ReplyView>) -> bool
    decreases replies.len(),
{
    replies.len() > 0 ==> follows(config, replies.drop_last()) && run(
        config,
        replies.drop_last(),
    ).0.awaits(replies.last())
}

/// How many FIFOs were made.
pub open spec fn made(replies: Seq<ReplyView>) -> nat
    decreases replies.len(),
{
    if replies.len() == 0 {
        0
    } else {
        made(replies.drop_last()) + match replies.last() {
            ReplyView::Made(Ok(_)) => 1nat,
            _ => 0,
        }
    }
}

/// How many FIFOs the mount asked to unlink.
pub open spec fn unlinked(config: ConfigView, replies: Seq<ReplyView>) -> nat
    decreases replies.len(),
{
    if replies.len() == 0 {
        0
    } else {
        unlinked(config, replies.drop_last()) + if run(config, replies).1 is Unlink {
            1nat
        } else {
            0
        }
    }
}

/// How often the write end of a FIFO was opened.
pub open spec fn opened(replies: Seq<ReplyView>) -> nat
    decreases replies.len(),
{
    if replies.len() == 0 {
        0
    } else {
        opened(replies.drop_last()) + match replies.last() {
            ReplyView::Attempted(OpenOutcomeView::Opened) => 1nat,
            _ => 0,
        }
    }
}

/// How often the mount asked to close the write end.
pub open spec fn closed(config: ConfigView, replies: Seq<ReplyView>) -> nat
    decreases replies.len(),
{
    if replies.len() == 0 {
        0
    } else {
        closed(config, replies.drop_last()) + if run(config, replies).1 is Close {
            1nat
        } else {
            0
        }
    }
}

/// The bytes of the chunks that came in since the last FIFO was made.
pub open spec fn received(replies: Seq<ReplyView>) -> Seq<u8>
    decreases replies.len(),
{
    if replies.len() == 0 {
        Seq::empty()
    } else {
        match replies.last() {
            ReplyView::Made(_) => Seq::empty(),
            ReplyView::Chunk(bytes) => received(replies.drop_last()) + bytes,
            _ => received(replies.drop_last()),
        }
    }
}

/// The bytes that the mount asked to write since the last FIFO was made.
pub open spec fn written(config: ConfigView, replies: Seq<ReplyView>) -> Seq<u8>
    decreases replies.len(),
{
    if replies.len() == 0 || replies.last() is Made {
        Seq::empty()
    } else {
        match run(config, replies).1 {
            ActionView::Write(bytes) => written(config, replies.drop_last()) + bytes,
            _ => written(config, replies.drop_last()),
        }
    }
}

/// The error that `reply` is, for a FIFO at `path`.
pub open spec fn cause(path: Seq<u8>, reply: ReplyView) -> Option<ErrorView> {
    match reply {
        ReplyView::Probed(true) => Some(ErrorView::FifoAlreadyExists(path)),
        ReplyView::Made(Err(detail)) => Some(ErrorView::FifoCreate(detail)),
        ReplyView::Attempted(OpenOutcomeView::Failed(detail)) => Some(ErrorView::Io(detail)),
        ReplyView::CancelState(true) => Some(ErrorView::Cancelled),
        ReplyView::NonblockCleared(Err(detail)) => Some(ErrorView::Io(detail)),
        ReplyView::SendFailed(detail) => Some(ErrorView::Http(detail)),
        ReplyView::Answered(status, detail) => if http::success(status) {
            None
        } else {
            Some(ErrorView::Http(detail))
        },
        ReplyView::ChunkFailed(detail) => Some(ErrorView::Http(detail)),
        ReplyView::Cancelled => Some(ErrorView::Cancelled),
        ReplyView::Written(Err(detail)) => Some(ErrorView::Io(detail)),
        _ => None,
    }
}

/// The error that the mount has met: that of the last reply which is not one to
/// cleaning up.
pub open spec fn fault(path: Seq<u8>, replies: Seq<ReplyView>) -> Option<ErrorView>
    decreases replies.len(),
{
    if replies.len() == 0 {
        None
    } else if replies.last() is Closed || replies.last() is Unlinked {
        fault(path, replies.drop_last())
    } else {
        cause(path, replies.last())
    }
}

/// The path in the guard that the mount holds.
spec fn guarded(phase: PhaseView) -> Option<Seq<u8>> {
    match phase {
        PhaseView::Opening(guard) => Some(guard),
        PhaseView::AskingCancelled(guard) => Some(guard),
        PhaseView::Sleeping(guard) => Some(guard),
        PhaseView::Clearing(guard) => Some(guard),
        PhaseView::Sending(guard) => Some(guard),
        PhaseView::Streaming(guard) => Some(guard),
        PhaseView::Writing(guard) => Some(guard),
        PhaseView::Closing(guard, _) => Some(guard),
        _ => None,
    }
}

/// Whether the write end is open and the mount has not asked to close it.
spec fn writable(phase: PhaseView) -> bool {
    phase is Clearing || phase is Sending || phase is Streaming || phase is Writing
}

/// What the mount is going to do once it has cleaned up.
spec fn ending(phase: PhaseView) -> Option<AfterView> {
    match phase {
        PhaseView::Closing(_, after) => Some(after),
        PhaseView::Unlinking(after) => Some(after),
        _ => None,
    }
}

/// The action that is under way in a phase.
spec fn under_way(config: ConfigView, phase: PhaseView, action: ActionView) -> bool {
    match phase {
        PhaseView::Probing => action == ActionView::Probe(config.fifo_path),
        PhaseView::Making => action == ActionView::Make(config.fifo_path, fifo::FIFO_MODE),
        PhaseView::Opening(_) => action is Open,
        PhaseView::AskingCancelled(_) => action is AskCancelled,
        PhaseView::Sleeping(_) => action == ActionView::Sleep(fifo::POLL_MILLIS),
        PhaseView::Clearing(_) => action is ClearNonblock,
        PhaseView::Sending(_) => action == ActionView::Send(config.request()),
        PhaseView::Streaming(_) => action is Next,
        PhaseView::Writing(_) => action is Write,
        PhaseView::Closing(_, _) => action is Close,
        PhaseView::Unlinking(_) => action == ActionView::Unlink(config.fifo_path),
        PhaseView::Over => action is Return,
    }
}

/// What holds at every point of a run.
proof fn lemma_run(config: ConfigView, replies: Seq<ReplyView>)
    requires
        follows(config, replies),
    ensures
        run(config, replies).0.config == config,
        guarded(run(config, replies).0.phase) matches Some(guard) ==> guard == config.fifo_path,
        under_way(config, run(config, replies).0.phase, run(config, replies).1),
        made(replies) == unlinked(config, replies) + if guarded(
            run(config, replies).0.phase,
        ) is Some {
            1nat
        } else {
            0
        },
        opened(replies) == closed(config, replies) + if writable(run(config, replies).0.phase) {
            1nat
        } else {
            0
        },
        written(config, replies) == received(replies),
        match ending(run(config, replies).0.phase) {
            Some(AfterView::Fail(e)) => fault(config.fifo_path, replies) == Some(e),
            Some(AfterView::Again) => fault(config.fifo_path, replies) is None,
            None => run(config, replies).0.phase is Over || fault(config.fifo_path, replies)
                is None,
        },
        run(config, replies).1 matches ActionView::Return(e) ==> fault(config.fifo_path, replies)
            == Some(e),
    decreases replies.len(),
{
    if replies.len() > 0 {
        lemma_run(config, replies.drop_last());
    }
}

/// A further reply.
proof fn lemma_push(config: ConfigView, replies: Seq<ReplyView>, reply: ReplyView)
    requires
        follows(config, replies),
        run(config, replies).0.awaits(reply),
    ensures
        follows(config, replies.push(reply)),
        run(config, replies.push(reply)) == run(config, replies).0.step(reply),
{
    assert(replies.push(reply).drop_last() =~= replies);
}

/// The FIFO is unlinked on all exit paths: when a mount is over, it has asked to
/// unlink every FIFO that it made. At any time there is at most one that it has
/// not, and that one is gone before the next is made. It only ever makes and
/// unlinks the configured path, and unlinks nothing that it has not made.
pub proof fn law_fifo_always_unlinked(config: ConfigView, replies: Seq<ReplyView>)
    requires
        follows(config, replies),
    ensures
        run(config, replies).1 is Return ==> made(replies) == unlinked(config, replies),
        unlinked(config, replies) <= made(replies) <= unlinked(config, replies) + 1,
        run(config, replies).1 matches ActionView::Make(path, mode) ==> path == config.fifo_path
            && mode == 0o600 && made(replies) == unlinked(config, replies),
        run(config, replies).1 matches ActionView::Unlink(path) ==> path == config.fifo_path,
{
    lemma_run(config, replies);
}

/// The write end is closed on all exit paths, before the FIFO is unlinked: a
/// mount that is over, or that asks to unlink a FIFO, has asked to close every
/// write end that was opened, so that the reader sees the end of the stream.
pub proof fn law_write_end_closed_before_unlink(config: ConfigView, replies: Seq<ReplyView>)
    requires
        follows(config, replies),
    ensures
        run(config, replies).1 is Return || run(config, replies).1 is Unlink ==> opened(replies)
            == closed(config, replies),
        closed(config, replies) <= opened(replies) <= closed(config, replies) + 1,
{
    lemma_run(config, replies);
}

/// An entry that is already at the path is never overwritten: a FIFO is made only
/// right after the path was found free, and a path that was found occupied ends
/// the mount at once.
pub proof fn law_existing_entry_never_overwritten(config: ConfigView, replies: Seq<ReplyView>)
    requires
        follows(config, replies),
    ensures
        run(config, replies).1 is Make <==> replies.len() > 0 && replies.last()
            == ReplyView::Probed(false),
        replies.len() > 0 && replies.last() == ReplyView::Probed(true) ==> run(config, replies).1
            == ActionView::Return(ErrorView::FifoAlreadyExists(config.fifo_path)),
{
    if replies.len() > 0 {
        lemma_run(config, replies.drop_last());
    }
}

/// What the reader of a FIFO gets is the body of the response, byte for byte: the
/// bytes written to a FIFO are those of the chunks, all of them and in order.
pub proof fn law_stream_delivered_byte_for_byte(config: ConfigView, replies: Seq<ReplyView>)
    requires
        follows(config, replies),
    ensures
        written(config, replies) == received(replies),
{
    lemma_run(config, replies);
}

/// The stream is read no faster than the FIFO takes it: the next chunk is asked
/// for only when the answer has just come in, or the last chunk has been written.
pub proof fn law_backpressure(config: ConfigView, replies: Seq<ReplyView>)
    requires
        follows(config, replies),
        run(config, replies).1 is Next,
    ensures
        replies.len() > 0,
        match replies.last() {
            ReplyView::Written(result) => result is Ok,
            ReplyView::Answered(status, _) => 200 <= status <= 299,
            _ => false,
        },
{
    if replies.len() > 0 {
        lemma_run(config, replies.drop_last());
    }
}

/// The request is sent only once a reader has opened the FIFO and writes to it
/// block, and it is the one that the configuration describes: with its method, its
/// URL, all of its headers and its body.
pub proof fn law_request_waits_for_reader(config: ConfigView, replies: Seq<ReplyView>)
    requires
        follows(config, replies),
        run(config, replies).1 is Send,
    ensures
        run(config, replies).1 == ActionView::Send(config.request()),
        replies.len() >= 2,
        replies[replies.len() - 1] matches ReplyView::NonblockCleared(result) && result is Ok,
        replies[replies.len() - 2] == ReplyView::Attempted(OpenOutcomeView::Opened),
        run(config, replies).1 matches ActionView::Send(request) && {
            &&& request.method == config.method
            &&& request.url == config.url
            &&& request.headers == config.headers
            &&& request.body == config.body
        },
{
    reveal_with_fuel(follows, 3);
    reveal_with_fuel(run, 3);
    if replies.len() > 0 {
        let before = replies.drop_last();
        lemma_run(config, before);
        if before.len() > 0 {
            lemma_run(config, before.drop_last());
            assert(before.last() == replies[replies.len() - 2]);
        }
    }
}

/// A stream goes on until it ends: after an answer that is a success, and after
/// each chunk that was written, the next chunk is asked for; every chunk is
/// written as it came; and the write end is closed only when the body has ended,
/// the mount was cancelled, or something failed.
pub proof fn law_streams_until_the_end(config: ConfigView, replies: Seq<ReplyView>)
    requires
        follows(config, replies),
    ensures
        run(config, replies).1 is Next <==> replies.len() > 0 && match replies.last() {
            ReplyView::Written(result) => result is Ok,
            ReplyView::Answered(status, _) => 200 <= status <= 299,
            _ => false,
        },
        run(config, replies).1 is Write <==> replies.len() > 0 && replies.last() is Chunk,
        run(config, replies).1 matches ActionView::Write(bytes) ==> replies.last()
            == ReplyView::Chunk(bytes),
        run(config, replies).1 is Close <==> replies.len() > 0 && match replies.last() {
            ReplyView::End => true,
            ReplyView::Cancelled => true,
            ReplyView::ChunkFailed(_) => true,
            ReplyView::SendFailed(_) => true,
            ReplyView::Answered(status, _) => !(200 <= status <= 299),
            ReplyView::NonblockCleared(result) => result is Err,
            ReplyView::Written(result) => result is Err,
            _ => false,
        },
{
    lemma_run(config, replies);
    if replies.len() > 0 {
        lemma_run(config, replies.drop_last());
    }
}

/// A mount starts over only once a body has come to its end, and then the reader
/// has got all of it: what was written is every chunk since the FIFO was made.
pub proof fn law_starts_over_only_after_the_whole_body(
    config: ConfigView,
    replies: Seq<ReplyView>,
)
    requires
        follows(config, replies),
        run(config, replies).1 is Probe,
        replies.len() > 0,
    ensures
        replies.len() >= 3,
        replies[replies.len() - 3] is End,
        replies[replies.len() - 2] is Closed,
        replies[replies.len() - 1] is Unlinked,
        written(config, replies) == received(replies),
        written(config, replies) == written(config, replies.take(replies.len() - 3)),
        received(replies) == received(replies.take(replies.len() - 3)),
{
    reveal_with_fuel(follows, 4);
    reveal_with_fuel(run, 4);
    reveal_with_fuel(written, 4);
    reveal_with_fuel(received, 4);
    lemma_run(config, replies);
    let closed = replies.drop_last();
    lemma_run(config, closed);
    assert(closed.len() > 0);
    let ended = closed.drop_last();
    lemma_run(config, ended);
    assert(closed.last() == replies[replies.len() - 2]);
    assert(ended.len() > 0);
    assert(ended.last() == replies[replies.len() - 3]);
    lemma_run(config, ended.drop_last());
    assert(ended.drop_last() =~= replies.take(replies.len() - 3));
}

/// What a mount does until a reader is there, and for what reason: it opens the
/// FIFO once that is made and after each sleep; without a reader it sees whether
/// it has been cancelled, and sleeps for 50 milliseconds if not; with one it makes
/// writes block, and only then sends the request.
pub proof fn law_waits_for_a_reader(config: ConfigView, replies: Seq<ReplyView>)
    requires
        follows(config, replies),
    ensures
        run(config, replies).1 is Open <==> replies.len() > 0 && match replies.last() {
            ReplyView::Made(result) => result is Ok,
            ReplyView::Slept => true,
            _ => false,
        },
        run(config, replies).1 is AskCancelled <==> replies.len() > 0 && replies.last()
            == ReplyView::Attempted(OpenOutcomeView::NoReader),
        run(config, replies).1 is Sleep <==> replies.len() > 0 && replies.last()
            == ReplyView::CancelState(false),
        run(config, replies).1 matches ActionView::Sleep(millis) ==> millis == 50,
        run(config, replies).1 is ClearNonblock <==> replies.len() > 0 && replies.last()
            == ReplyView::Attempted(OpenOutcomeView::Opened),
        run(config, replies).1 is Send <==> replies.len() > 0 && (replies.last() matches
            ReplyView::NonblockCleared(result) && result is Ok),
{
    lemma_run(config, replies);
    if replies.len() > 0 {
        lemma_run(config, replies.drop_last());
    }
}

/// A FIFO is unlinked once its write end is closed, or when none could be opened
/// or the mount was cancelled before. A mount looks at its path at the start and
/// once a FIFO is gone, and ends only there or where no FIFO came to be.
pub proof fn law_unlinks_and_ends_when_due(config: ConfigView, replies: Seq<ReplyView>)
    requires
        follows(config, replies),
    ensures
        run(config, replies).1 is Unlink <==> replies.len() > 0 && match replies.last() {
            ReplyView::Closed => true,
            ReplyView::Attempted(OpenOutcomeView::Failed(_)) => true,
            ReplyView::CancelState(cancelled) => cancelled,
            _ => false,
        },
        run(config, replies).1 is Probe || run(config, replies).1 is Return <==> replies.len()
            == 0 || match replies.last() {
            ReplyView::Unlinked => true,
            ReplyView::Probed(occupied) => occupied,
            ReplyView::Made(result) => result is Err,
            _ => false,
        },
        replies.len() == 0 ==> run(config, replies).1 is Probe,
        run(config, replies).1 matches ActionView::Probe(path) ==> path == config.fifo_path,
{
    lemma_run(config, replies);
    if replies.len() > 0 {
        lemma_run(config, replies.drop_last());
    }
}

/// Every outcome of an action is one that the mount can be told, and nothing else
/// is; a mount that is over is told nothing.
pub proof fn law_awaits_every_outcome_of_its_action(
    config: ConfigView,
    replies: Seq<ReplyView>,
    reply: ReplyView,
)
    requires
        follows(config, replies),
    ensures
        run(config, replies).0.awaits(reply) <==> match run(config, replies).1 {
            ActionView::Probe(_) => reply is Probed,
            ActionView::Make(_, _) => reply is Made,
            ActionView::Open => reply is Attempted,
            ActionView::AskCancelled => reply is CancelState,
            ActionView::Sleep(_) => reply is Slept,
            ActionView::ClearNonblock => reply is NonblockCleared,
            ActionView::Send(_) => reply is SendFailed || reply is Answered,
            ActionView::Next => reply is Chunk || reply is ChunkFailed || reply is End || reply
                is Cancelled,
            ActionView::Write(_) => reply is Written,
            ActionView::Close => reply is Closed,
            ActionView::Unlink(_) => reply is Unlinked,
            ActionView::Return(_) => false,
        },
{
    lemma_run(config, replies);
}

/// Whether a mount that has got `replies` closes the write end, unlinks the FIFO
/// and ends with `e`.
pub open spec fn closes_and_ends(
    config: ConfigView,
    replies: Seq<ReplyView>,
    e: ErrorView,
) -> bool {
    let closed = replies.push(ReplyView::Closed);
    &&& follows(config, replies)
    &&& run(config, replies).1 is Close
    &&& unlinks_and_ends(config, closed, e)
}

/// Whether a mount that has got `replies` unlinks the FIFO and ends with `e`.
pub open spec fn unlinks_and_ends(
    config: ConfigView,
    replies: Seq<ReplyView>,
    e: ErrorView,
) -> bool {
    let unlinked = replies.push(ReplyView::Unlinked);
    &&& follows(config, replies)
    &&& run(config, replies).1 == ActionView::Unlink(config.fifo_path)
    &&& follows(config, unlinked)
    &&& run(config, unlinked).1 == ActionView::Return(e)
}

/// Each failure ends the mount with an error of its own kind that says what was
/// said of it, once what is there has been cleaned up.
pub proof fn law_each_failure_ends_with_its_error(
    config: ConfigView,
    replies: Seq<ReplyView>,
    status: u16,
    detail: Seq<char>,
)
    requires
        follows(config, replies),
    ensures
        match run(config, replies).1 {
            ActionView::Probe(_) => run(config, replies.push(ReplyView::Probed(true))).1
                == ActionView::Return(ErrorView::FifoAlreadyExists(config.fifo_path)),
            ActionView::Make(_, _) => run(config, replies.push(ReplyView::Made(Err(detail)))).1
                == ActionView::Return(ErrorView::FifoCreate(detail)),
            ActionView::Open => unlinks_and_ends(
                config,
                replies.push(ReplyView::Attempted(OpenOutcomeView::Failed(detail))),
                ErrorView::Io(detail),
            ),
            ActionView::AskCancelled => unlinks_and_ends(
                config,
                replies.push(ReplyView::CancelState(true)),
                ErrorView::Cancelled,
            ),
            ActionView::ClearNonblock => closes_and_ends(
                config,
                replies.push(ReplyView::NonblockCleared(Err(detail))),
                ErrorView::Io(detail),
            ),
            ActionView::Send(_) => {
                &&& closes_and_ends(
                    config,
                    replies.push(ReplyView::SendFailed(detail)),
                    ErrorView::Http(detail),
                )
                &&& !(200 <= status <= 299) ==> closes_and_ends(
                    config,
                    replies.push(ReplyView::Answered(status, detail)),
                    ErrorView::Http(detail),
                )
            },
            ActionView::Next => {
                &&& closes_and_ends(
                    config,
                    replies.push(ReplyView::ChunkFailed(detail)),
                    ErrorView::Http(detail),
                )
                &&& closes_and_ends(
                    config,
                    replies.push(ReplyView::Cancelled),
                    ErrorView::Cancelled,
                )
            },
            ActionView::Write(_) => closes_and_ends(
                config,
                replies.push(ReplyView::Written(Err(detail))),
                ErrorView::Io(detail),
            ),
            _ => true,
        },
{
    lemma_run(config, replies);
    match run(config, replies).1 {
        ActionView::Probe(_) => {
            lemma_push(config, replies, ReplyView::Probed(true));
        },
        ActionView::Make(_, _) => {
            lemma_push(config, replies, ReplyView::Made(Err(detail)));
        },
        ActionView::Open => {
            let failed = ReplyView::Attempted(OpenOutcomeView::Failed(detail));
            lemma_push(config, replies, failed);
            lemma_push(config, replies.push(failed), ReplyView::Unlinked);
        },
        ActionView::AskCancelled => {
            let told = ReplyView::CancelState(true);
            lemma_push(config, replies, told);
            lemma_push(config, replies.push(told), ReplyView::Unlinked);
        },
        ActionView::ClearNonblock => {
            lemma_closes_and_ends(
                config,
                replies,
                ReplyView::NonblockCleared(Err(detail)),
                ErrorView::Io(detail),
            );
        },
        ActionView::Send(_) => {
            lemma_closes_and_ends(
                config,
                replies,
                ReplyView::SendFailed(detail),
                ErrorView::Http(detail),
            );
            if !(200 <= status <= 299) {
                lemma_closes_and_ends(
                    config,
                    replies,
                    ReplyView::Answered(status, detail),
                    ErrorView::Http(detail),
                );
            }
        },
        ActionView::Next => {
            lemma_closes_and_ends(
                config,
                replies,
                ReplyView::ChunkFailed(detail),
                ErrorView::Http(detail),
            );
            lemma_closes_and_ends(config, replies, ReplyView::Cancelled, ErrorView::Cancelled);
        },
        ActionView::Write(_) => {
            lemma_closes_and_ends(
                config,
                replies,
                ReplyView::Written(Err(detail)),
                ErrorView::Io(detail),
            );
        },
        _ => {},
    }
}

proof fn lemma_closes_and_ends(
    config: ConfigView,
    replies: Seq<ReplyView>,
    reply: ReplyView,
    e: ErrorView,
)
    requires
        follows(config, replies),
        run(config, replies).0.awaits(reply),
        writable(run(config, replies).0.phase),
        cause(config.fifo_path, reply) == Some(e),
    ensures
        closes_and_ends(config, replies.push(reply), e),
{
    let told = replies.push(reply);
    let closed = told.push(ReplyView::Closed);
    lemma_run(config, replies);
    lemma_push(config, replies, reply);
    lemma_push(config, told, ReplyView::Closed);
    lemma_push(config, closed, ReplyView::Unlinked);
}

/// As long as there is no reader and no cancellation, a mount sleeps and tries
/// again: it comes back to where it was.
pub proof fn law_polls_until_reader(config: ConfigView, replies: Seq<ReplyView>)
    requires
        follows(config, replies),
        run(config, replies).1 is Open,
    ensures
        ({
            let asked = replies.push(ReplyView::Attempted(OpenOutcomeView::NoReader));
            let asleep = asked.push(ReplyView::CancelState(false));
            let awake = asleep.push(ReplyView::Slept);
            &&& follows(config, awake)
            &&& run(config, asked).1 is AskCancelled
            &&& run(config, asleep).1 == ActionView::Sleep(50)
            &&& run(config, awake) == run(config, replies)
        }),
{
    lemma_run(config, replies);
    let asked = replies.push(ReplyView::Attempted(OpenOutcomeView::NoReader));
    let asleep = asked.push(ReplyView::CancelState(false));
    let awake = asleep.push(ReplyView::Slept);
    lemma_push(config, replies, ReplyView::Attempted(OpenOutcomeView::NoReader));
    lemma_push(config, asked, ReplyView::CancelState(false));
    lemma_push(config, asleep, ReplyView::Slept);
}

/// When the stream ends, the mount closes the write end, unlinks the FIFO and
/// starts over: it stands where it stood at the very start.
pub proof fn law_serves_next_reader(config: ConfigView, replies: Seq<ReplyView>)
    requires
        follows(config, replies.push(ReplyView::End)),
    ensures
        ({
            let ended = replies.push(ReplyView::End);
            let closed = ended.push(ReplyView::Closed);
            let unlinked = closed.push(ReplyView::Unlinked);
            &&& follows(config, unlinked)
            &&& run(config, ended).1 is Close
            &&& run(config, closed).1 == ActionView::Unlink(config.fifo_path)
            &&& run(config, unlinked) == run(config, Seq::empty())
        }),
{
    let ended = replies.push(ReplyView::End);
    let closed = ended.push(ReplyView::Closed);
    assert(ended.drop_last() =~= replies);
    lemma_run(config, replies);
    lemma_push(config, ended, ReplyView::Closed);
    lemma_push(config, closed, ReplyView::Unlinked);
}

/// A mount that is cancelled while it waits for a reader unlinks its FIFO and
/// ends with [`ErrorView::Cancelled`].
pub proof fn law_cancelled_while_waiting(config: ConfigView, replies: Seq<ReplyView>)
    requires
        follows(config, replies),
        run(config, replies).1 is AskCancelled,
    ensures
        ({
            let told = replies.push(ReplyView::CancelState(true));
            let unlinked = told.push(ReplyView::Unlinked);
            &&& follows(config, unlinked)
            &&& run(config, told).1 == ActionView::Unlink(config.fifo_path)
            &&& run(config, unlinked).1 == ActionView::Return(ErrorView::Cancelled)
        }),
{
    let told = replies.push(ReplyView::CancelState(true));
    lemma_run(config, replies);
    lemma_push(config, replies, ReplyView::CancelState(true));
    lemma_push(config, told, ReplyView::Unlinked);
}

/// A mount that is cancelled while it streams closes the write end, unlinks its
/// FIFO and ends with [`ErrorView::Cancelled`].
pub proof fn law_cancelled_while_streaming(config: ConfigView, replies: Seq<ReplyView>)
    requires
        follows(config, replies),
        run(config, replies).1 is Next,
    ensures
        ({
            let told = replies.push(ReplyView::Cancelled);
            let closed = told.push(ReplyView::Closed);
            let unlinked = closed.push(ReplyView::Unlinked);
            &&& follows(config, unlinked)
            &&& run(config, told).1 is Close
            &&& run(config, closed).1 == ActionView::Unlink(config.fifo_path)
            &&& run(config, unlinked).1 == ActionView::Return(ErrorView::Cancelled)
        }),
{
    let told = replies.push(ReplyView::Cancelled);
    let closed = told.push(ReplyView::Closed);
    lemma_run(config, replies);
    lemma_push(config, replies, ReplyView::Cancelled);
    lemma_push(config, told, ReplyView::Closed);
    lemma_push(config, closed, ReplyView::Unlinked);
}

/// A mount ends if and only if something went wrong, and with that error: when
/// it is over, its error is the one it met; once it has met one, it cleans up and
/// ends, and asks for nothing else; and as long as it has met none, it goes on.
pub proof fn law_ends_with_the_error_it_met(config: ConfigView, replies: Seq<ReplyView>)
    requires
        follows(config, replies),
    ensures
        match fault(config.fifo_path, replies) {
            Some(e) => {
                let action = run(config, replies).1;
                action is Close || action is Unlink || action == ActionView::Return(e)
            },
            None => !(run(config, replies).1 is Return),
        },
{
    lemma_run(config, replies);
}

} // verus!
