//! What is left to say when all mounts are over: the errors, and the exit code.
use vstd::prelude::*;
use vstd::string::*;
use vstd::utf8::*;

use crate::error::{Error, ErrorView};
use crate::mount_all;
use crate::text;

verus! {

/// The exit code for a command line that cannot be made sense of.
pub const USAGE_EXIT_CODE: i32 = 1;

/// The signals that end the program.
#[derive(Debug, Clone, Copy)]
pub enum Signal {
    /// SIGINT
    Interrupt,
    /// SIGTERM
    Terminate,
}

/// Which signals have been received.
#[derive(Debug, Clone, Copy)]
pub struct Received {
    pub sigint: bool,
    pub sigterm: bool,
}

/// What a signal does when `first` is the first one that came before it, if any:
/// the first signal so far, and whether the mounts have to be cancelled.
pub open spec fn signalled(first: Option<Signal>, signal: Signal) -> (Option<Signal>, bool) {
    match first {
        Some(first) => (Some(first), false),
        None => (Some(signal), true),
    }
}

/// Records a signal: the first signal so far, and whether the mounts have to be
/// cancelled once that is recorded. Only the first signal counts, and it cancels.
pub fn record_signal(first: Option<Signal>, signal: Signal) -> (r: (Option<Signal>, bool))
    ensures
        r == signalled(first, signal),
        first is Some ==> r.0 == first,
        first is None ==> r.0 == Some(signal),
        r.1 == (first is None),
{
    match first {
        Some(first) => (Some(first), false),
        None => (Some(signal), true),
    }
}

/// Which signals have been received when `first` is the first of them, if any.
pub open spec fn flags(first: Option<Signal>) -> Received {
    Received {
        sigint: first == Some(Signal::Interrupt),
        sigterm: first == Some(Signal::Terminate),
    }
}

/// Which signals have been received when `first` is the first of them, if any:
/// no other is waited for.
pub fn received(first: Option<Signal>) -> (r: Received)
    ensures
        r == flags(first),
        r.sigint == (first == Some(Signal::Interrupt)),
        r.sigterm == (first == Some(Signal::Terminate)),
{
    match first {
        Some(Signal::Interrupt) => Received { sigint: true, sigterm: false },
        Some(Signal::Terminate) => Received { sigint: false, sigterm: true },
        None => Received { sigint: false, sigterm: false },
    }
}

/// A signal is recorded before anything is cancelled on its account: what stands
/// between the two, when `before` stood when the signal came.
pub open spec fn recorded(
    before: (Option<Signal>, bool),
    signal: Signal,
) -> (Option<Signal>, bool) {
    (signalled(before.0, signal).0, before.1)
}

/// The first signal after `signals` came in, and whether the mounts have been
/// cancelled on their account.
pub open spec fn after_signals(signals: Seq<Signal>) -> (Option<Signal>, bool)
    decreases signals.len(),
{
    if signals.len() == 0 {
        (None, false)
    } else {
        let before = after_signals(signals.drop_last());
        let between = recorded(before, signals.last());
        (between.0, between.1 || signalled(before.0, signals.last()).1)
    }
}

/// The first signal decides: its flag is set and the other never is, however many
/// signals follow; no flag goes back; and the mounts are cancelled if and only if a
/// signal came. The flag is set while they are not cancelled yet, so that whoever
/// finds them cancelled finds it set.
pub proof fn law_first_signal_decides(signals: Seq<Signal>)
    ensures
        after_signals(signals).0 == if signals.len() == 0 {
            None
        } else {
            Some(signals[0])
        },
        after_signals(signals).1 <==> signals.len() > 0,
        ({
            let now = flags(after_signals(signals).0);
            &&& now.sigint <==> signals.len() > 0 && signals[0] == Signal::Interrupt
            &&& now.sigterm <==> signals.len() > 0 && signals[0] == Signal::Terminate
            &&& !(now.sigint && now.sigterm)
            &&& after_signals(signals).1 ==> now.sigint || now.sigterm
            &&& forall|n: int|
                0 <= n <= signals.len() ==> {
                    let earlier = flags((#[trigger] after_signals(signals.take(n))).0);
                    &&& earlier.sigint ==> now.sigint
                    &&& earlier.sigterm ==> now.sigterm
                }
            &&& forall|n: int|
                0 <= n < signals.len() ==> {
                    let before = #[trigger] after_signals(signals.take(n));
                    let between = recorded(before, signals[n]);
                    &&& flags(between.0) == now
                    &&& between.1 <==> n > 0
                }
        }),
{
    lemma_first_signal(signals);
    assert forall|n: int| 0 <= n <= signals.len() implies {
        let earlier = flags((#[trigger] after_signals(signals.take(n))).0);
        let now = flags(after_signals(signals).0);
        &&& earlier.sigint ==> now.sigint
        &&& earlier.sigterm ==> now.sigterm
    } by {
        lemma_first_signal(signals.take(n));
    }
    assert forall|n: int| 0 <= n < signals.len() implies {
        let before = #[trigger] after_signals(signals.take(n));
        let between = recorded(before, signals[n]);
        &&& flags(between.0) == flags(after_signals(signals).0)
        &&& between.1 <==> n > 0
    } by {
        lemma_first_signal(signals.take(n));
    }
}

proof fn lemma_first_signal(signals: Seq<Signal>)
    ensures
        after_signals(signals).0 == if signals.len() == 0 {
            None
        } else {
            Some(signals[0])
        },
        after_signals(signals).1 <==> signals.len() > 0,
    decreases signals.len(),
{
    if signals.len() > 0 {
        lemma_first_signal(signals.drop_last());
    }
}

/// Whether any of `results` is a failure.
pub open spec fn any_failed(results: Seq<(Seq<u8>, Result<(), ErrorView>)>) -> bool {
    exists|i: int| 0 <= i < results.len() && (#[trigger] results[i]).1 is Err
}

/// The exit code of the process.
pub open spec fn exit_code(
    got_sigint: bool,
    got_sigterm: bool,
    results: Seq<(Seq<u8>, Result<(), ErrorView>)>,
) -> int {
    if got_sigint {
        130
    } else if got_sigterm {
        143
    } else if any_failed(results) {
        1
    } else {
        0
    }
}

/// The exit code of the process.
///
/// - `130`: interrupted by SIGINT
/// - `143`: terminated by SIGTERM
/// - `1`: at least one mount failed
/// - `0`: all mounts succeeded
pub fn compute_exit_code(
    got_sigint: bool,
    got_sigterm: bool,
    results: &[(Vec<u8>, Result<(), Error>)],
) -> (r: i32)
    ensures
        r == exit_code(got_sigint, got_sigterm, mount_all::results_view(results@)),
        got_sigint ==> r == 130,
        !got_sigint && got_sigterm ==> r == 143,
        !got_sigint && !got_sigterm ==> r == 0 || r == 1,
        !got_sigint && !got_sigterm ==> (r == 1 <==> exists|i: int|
            0 <= i < results@.len() && (#[trigger] results@[i]).1 is Err),
{
    if got_sigint {
        return 130;
    }
    if got_sigterm {
        return 143;
    }
    let ghost outcomes = mount_all::results_view(results@);
    for i in 0..results.len()
        invariant
            outcomes == mount_all::results_view(results@),
            !got_sigint,
            !got_sigterm,
            forall|j: int| 0 <= j < i ==> (#[trigger] outcomes[j]).1 is Ok,
            forall|j: int| 0 <= j < i ==> (#[trigger] results@[j]).1 is Ok,
    {
        if results[i].1.is_err() {
            assert(outcomes[i as int].1 is Err);
            return 1;
        }
    }
    0
}

/// The exit codes are the documented ones. A signal decides, whatever became of the
/// mounts, and SIGINT before SIGTERM. Otherwise it is success or failure: one mount
/// that failed is enough, a further success changes nothing, and the order of the
/// mounts does not matter. A command line that cannot be made sense of is a failure.
pub proof fn law_exit_codes(
    got_sigint: bool,
    got_sigterm: bool,
    results: Seq<(Seq<u8>, Result<(), ErrorView>)>,
    more: Seq<(Seq<u8>, Result<(), ErrorView>)>,
)
    ensures
        exit_code(true, got_sigterm, results) == 130,
        exit_code(false, true, results) == 143,
        exit_code(false, false, results) == 0 <==> forall|i: int|
            0 <= i < results.len() ==> (#[trigger] results[i]).1 is Ok,
        exit_code(false, false, results) == 1 <==> exists|i: int|
            0 <= i < results.len() && (#[trigger] results[i]).1 is Err,
        exit_code(got_sigint, got_sigterm, results + more) == exit_code(
            got_sigint,
            got_sigterm,
            more + results,
        ),
        exit_code(false, false, results + more) == 0 <==> exit_code(false, false, results) == 0
            && exit_code(false, false, more) == 0,
        USAGE_EXIT_CODE == 1,
{
    lemma_any_failed(results, more);
    lemma_any_failed(more, results);
}

proof fn lemma_any_failed(
    a: Seq<(Seq<u8>, Result<(), ErrorView>)>,
    b: Seq<(Seq<u8>, Result<(), ErrorView>)>,
)
    ensures
        any_failed(a + b) <==> any_failed(a) || any_failed(b),
{
    if any_failed(a) {
        let i = choose|i: int| 0 <= i < a.len() && (#[trigger] a[i]).1 is Err;
        assert((a + b)[i] == a[i]);
    }
    if any_failed(b) {
        let i = choose|i: int| 0 <= i < b.len() && (#[trigger] b[i]).1 is Err;
        assert((a + b)[a.len() + i] == b[i]);
    }
}

/// Whether a result is reported: failures are, but not cancellation, which is a
/// clean shutdown.
pub open spec fn reported(result: Result<(), ErrorView>) -> bool {
    result matches Err(e) && !(e is Cancelled)
}

/// The line that reports the failure `e` of the mount at `path`.
pub open spec fn report_line(path: Seq<u8>, e: ErrorView) -> Seq<char> {
    "error: "@ + text::lossy_utf8(path) + ": "@ + e.message()
}

/// Whether the paths in a reported result are UTF-8.
pub open spec fn legible(path: Seq<u8>, e: ErrorView) -> bool {
    valid_utf8(path) && e.legible()
}

/// The line that reports a legible failure: its paths are shown as they are.
pub open spec fn legible_line(path: Seq<u8>, e: ErrorView) -> Seq<char> {
    "error: "@ + decode_utf8(path) + ": "@ + e.legible_message()
}

/// The lines that report `results`, in their order.
pub open spec fn report(results: Seq<(Seq<u8>, Result<(), ErrorView>)>) -> Seq<Seq<char>> {
    results.filter(|r: (Seq<u8>, Result<(), ErrorView>)| reported(r.1)).map_values(
        |r: (Seq<u8>, Result<(), ErrorView>)| report_line(r.0, r.1->Err_0),
    )
}

/// The line that reports the failure described by `message` of the mount at the
/// path that is shown as `path`.
pub fn error_line(path: &str, message: &str) -> (r: String)
    ensures
        r@ == "error: "@ + path@ + ": "@ + message@,
{
    "error: ".to_owned().concat(path).concat(": ").concat(message)
}

/// The report of one more result.
proof fn lemma_report_last(results: Seq<(Seq<u8>, Result<(), ErrorView>)>)
    requires
        results.len() > 0,
    ensures
        report(results) == if reported(results.last().1) {
            report(results.drop_last()).push(
                report_line(results.last().0, results.last().1->Err_0),
            )
        } else {
            report(results.drop_last())
        },
{
    reveal(Seq::filter);
    let shown = |r: (Seq<u8>, Result<(), ErrorView>)| reported(r.1);
    let line = |r: (Seq<u8>, Result<(), ErrorView>)| report_line(r.0, r.1->Err_0);
    if reported(results.last().1) {
        assert(results.drop_last().filter(shown).push(results.last()).map_values(line)
            =~= results.drop_last().filter(shown).map_values(line).push(line(results.last())));
    }
}

/// Each further result adds what it has to say, and nothing else: a success and a
/// cancelled mount add nothing; any other failure adds one line at the end, with the
/// path of its FIFO and its message.
pub proof fn law_report_grows_by_each_failure(
    results: Seq<(Seq<u8>, Result<(), ErrorView>)>,
    path: Seq<u8>,
    e: ErrorView,
)
    ensures
        report(Seq::empty()) == Seq::<Seq<char>>::empty(),
        report(results.push((path, Ok(())))) == report(results),
        report(results.push((path, Err(ErrorView::Cancelled)))) == report(results),
        !(e is Cancelled) ==> report(results.push((path, Err(e)))) == report(results).push(
            "error: "@ + text::lossy_utf8(path) + ": "@ + e.message(),
        ),
{
    reveal(Seq::filter);
    assert(report(Seq::empty()) =~= Seq::<Seq<char>>::empty());
    lemma_report_last(results.push((path, Ok(()))));
    lemma_report_last(results.push((path, Err(ErrorView::Cancelled))));
    lemma_report_last(results.push((path, Err(e))));
    assert(results.push((path, Ok(()))).drop_last() =~= results);
    assert(results.push((path, Err(ErrorView::Cancelled))).drop_last() =~= results);
    assert(results.push((path, Err(e))).drop_last() =~= results);
}

/// The lines that report the failed mounts among `results`. Cancelled mounts are
/// left out, and paths that are UTF-8 are shown as they are.
pub fn report_errors(results: &[(Vec<u8>, Result<(), Error>)]) -> (r: Vec<String>)
    ensures
        r@.map_values(|line: String| line@) == report(mount_all::results_view(results@)),
        ({
            let outcomes = mount_all::results_view(results@);
            forall|i: int|
                #![trigger outcomes[i]]
                0 <= i < outcomes.len() && reported(outcomes[i].1) && legible(
                    outcomes[i].0,
                    outcomes[i].1->Err_0,
                ) ==> report_line(outcomes[i].0, outcomes[i].1->Err_0) == legible_line(
                    outcomes[i].0,
                    outcomes[i].1->Err_0,
                )
        }),
{
    let ghost outcomes = mount_all::results_view(results@);
    let ghost shown = |line: String| line@;
    let mut lines: Vec<String> = Vec::new();
    proof {
        reveal(Seq::filter);
        assert(lines@.map_values(shown) =~= report(outcomes.take(0)));
    }
    for i in 0..results.len()
        invariant
            outcomes == mount_all::results_view(results@),
            shown == (|line: String| line@),
            lines@.map_values(shown) == report(outcomes.take(i as int)),
            forall|j: int|
                #![trigger outcomes[j]]
                0 <= j < i && reported(outcomes[j].1) && legible(
                    outcomes[j].0,
                    outcomes[j].1->Err_0,
                ) ==> report_line(outcomes[j].0, outcomes[j].1->Err_0) == legible_line(
                    outcomes[j].0,
                    outcomes[j].1->Err_0,
                ),
    {
        let ghost before = lines@;
        proof {
            assert(outcomes.take(i + 1).drop_last() =~= outcomes.take(i as int));
            lemma_report_last(outcomes.take(i + 1));
        }
        match &results[i].1 {
            Ok(()) => {},
            Err(Error::Cancelled) => {},
            Err(e) => {
                let path = text::lossy_text(results[i].0.as_slice());
                let message = e.message();
                lines.push(error_line(path.as_str(), message.as_str()));
                assert(lines@.map_values(shown) =~= before.map_values(shown).push(
                    report_line(outcomes[i as int].0, outcomes[i as int].1->Err_0),
                ));
            },
        }
    }
    assert(outcomes.take(results.len() as int) =~= outcomes);
    lines
}

/// Nothing is reported exactly when every mount succeeded or was cancelled. The
/// exit code is zero exactly when no signal came and every mount succeeded; then
/// nothing is reported.
pub proof fn law_report_and_exit_code_agree(results: Seq<(Seq<u8>, Result<(), ErrorView>)>)
    ensures
        report(results).len() == 0 <==> forall|i: int|
            0 <= i < results.len() ==> ((#[trigger] results[i]).1 matches Err(e) ==> e
                is Cancelled),
        forall|got_sigint: bool, got_sigterm: bool|
            (#[trigger] exit_code(got_sigint, got_sigterm, results) == 0 <==> !got_sigint
                && !got_sigterm && !any_failed(results)),
        !any_failed(results) ==> report(results).len() == 0,
    decreases results.len(),
{
    if results.len() == 0 {
        reveal(Seq::filter);
    } else {
        let before = results.drop_last();
        lemma_report_last(results);
        law_report_and_exit_code_agree(before);
        assert(forall|i: int| 0 <= i < before.len() ==> #[trigger] before[i] == results[i]);
        assert(forall|i: int| 0 <= i < before.len() ==> #[trigger] results[i] == before[i]);
        assert(results[results.len() - 1] == results.last());
    }
}

} // verus!
