//! Several mounts at once: which result belongs to which, and when one failure
//! cancels the others.
use vstd::prelude::*;

use crate::config::Config;
use crate::error::{self, Error, ErrorView};
use crate::text;

verus! {

/// The mounts that run side by side, in the order of their configurations, and
/// the results of those that are over.
#[derive(Debug)]
pub struct MountAll {
    fail_fast: bool,
    paths: Vec<Vec<u8>>,
    results: Vec<Option<Result<(), Error>>>,
}

/// The mathematical value of a [`MountAll`].
pub struct MountAllView {
    pub fail_fast: bool,
    pub paths: Seq<Seq<u8>>,
    pub results: Seq<Option<Result<(), ErrorView>>>,
}

/// How the task of a mount came to its end.
pub enum Completion {
    /// It returned.
    Returned(Result<(), ErrorView>),
    /// It panicked, with this to say.
    Panicked(Seq<char>),
}

impl Completion {
    /// The result of a mount whose task came to this end.
    pub open spec fn result(self) -> Result<(), ErrorView> {
        match self {
            Completion::Returned(result) => result,
            Completion::Panicked(detail) => Err(ErrorView::Io(detail)),
        }
    }
}

impl MountAllView {
    /// The mounts at `paths`, none of which is over.
    pub open spec fn start(paths: Seq<Seq<u8>>, fail_fast: bool) -> MountAllView {
        MountAllView { fail_fast, paths, results: Seq::new(paths.len(), |i: int| None) }
    }

    /// Whether mount `index` is under way.
    pub open spec fn running(self, index: int) -> bool {
        0 <= index < self.results.len() && self.results[index] is None
    }

    /// The mounts after mount `index` came to an end.
    pub open spec fn complete(self, index: int, completion: Completion) -> MountAllView {
        MountAllView { results: self.results.update(index, Some(completion.result())), ..self }
    }

    /// Whether this end of a mount cancels the mounts that are still under way.
    pub open spec fn cancels(self, completion: Completion) -> bool {
        self.fail_fast && completion.result() is Err
    }

    /// Whether every mount is over.
    pub open spec fn done(self) -> bool {
        forall|i: int| 0 <= i < self.results.len() ==> (#[trigger] self.results[i]) is Some
    }
}

/// The mathematical value of one result.
pub open spec fn slot(result: Option<Result<(), Error>>) -> Option<Result<(), ErrorView>> {
    match result {
        Some(result) => Some(error::outcome(result)),
        None => None,
    }
}

/// The mathematical value of a list of results, each with the path of its FIFO.
pub open spec fn results_view(results: Seq<(Vec<u8>, Result<(), Error>)>) -> Seq<
    (Seq<u8>, Result<(), ErrorView>),
> {
    results.map_values(|r: (Vec<u8>, Result<(), Error>)| (r.0@, error::outcome(r.1)))
}

/// The value of a list of results holds every result in its place, with its path:
/// a failure is a failure there, and says the same.
pub proof fn law_value_holds_every_result(results: Seq<(Vec<u8>, Result<(), Error>)>, i: int)
    requires
        0 <= i < results.len(),
    ensures
        results_view(results).len() == results.len(),
        results_view(results)[i].0 == results[i].0@,
        results_view(results)[i].1 is Ok <==> results[i].1 is Ok,
        results[i].1 matches Err(e) ==> results_view(results)[i].1 == Err::<(), ErrorView>(e@),
{
}

impl View for MountAll {
    type V = MountAllView;

    closed spec fn view(&self) -> MountAllView {
        MountAllView {
            fail_fast: self.fail_fast,
            paths: self.paths@.map_values(|p: Vec<u8>| p@),
            results: self.results@.map_values(|r: Option<Result<(), Error>>| slot(r)),
        }
    }
}

/// Starts the mounts of `configs`, one FIFO per configuration.
///
/// With `fail_fast`, the first mount that fails, be it by an error or by a panic,
/// cancels all others. Without, all mounts run independently.
pub fn mount_all(configs: &Vec<Config>, fail_fast: bool) -> (r: MountAll)
    ensures
        r@ == MountAllView::start(
            configs@.map_values(|c: Config| c.fifo_path@),
            fail_fast,
        ),
        r@.fail_fast == fail_fast,
        r@.paths.len() == configs.len(),
        r@.results.len() == configs.len(),
        forall|i: int|
            0 <= i < configs.len() ==> #[trigger] r@.paths[i] == configs@[i].fifo_path@,
        forall|i: int| 0 <= i < configs.len() ==> (#[trigger] r@.results[i]) is None,
{
    let mut paths: Vec<Vec<u8>> = Vec::new();
    let mut results: Vec<Option<Result<(), Error>>> = Vec::new();
    for i in 0..configs.len()
        invariant
            paths.len() == i,
            results.len() == i,
            forall|j: int| 0 <= j < i ==> (#[trigger] paths@[j])@ == configs@[j].fifo_path@,
            forall|j: int| 0 <= j < i ==> (#[trigger] results@[j]) is None,
    {
        paths.push(text::copy_bytes(&configs[i].fifo_path));
        results.push(None);
    }
    let all = MountAll { fail_fast, paths, results };
    assert(all@.paths =~= configs@.map_values(|c: Config| c.fifo_path@));
    assert(all@.results =~= MountAllView::start(all@.paths, fail_fast).results);
    all
}

impl MountAll {
    #[verifier::type_invariant]
    spec fn paired(self) -> bool {
        self.paths.len() == self.results.len()
    }

    /// Records that mount `index` returned `result`, and says whether that has to
    /// cancel the mounts that are still under way.
    pub fn returned(self, index: usize, result: Result<(), Error>) -> (r: (MountAll, bool))
        requires
            self@.running(index as int),
        ensures
            r.0@ == self@.complete(index as int, Completion::Returned(error::outcome(result))),
            r.1 == self@.cancels(Completion::Returned(error::outcome(result))),
            r.0@.results == self@.results.update(index as int, Some(error::outcome(result))),
            r.0@.paths == self@.paths,
            r.0@.fail_fast == self@.fail_fast,
            r.1 == (self@.fail_fast && result is Err),
    {
        proof {
            use_type_invariant(&self);
        }
        let cancels = self.fail_fast && result.is_err();
        let MountAll { fail_fast, paths, mut results } = self;
        results.set(index, Some(result));
        let all = MountAll { fail_fast, paths, results };
        assert(all@.results =~= self@.complete(
            index as int,
            Completion::Returned(error::outcome(result)),
        ).results);
        (all, cancels)
    }

    /// Records that the task of mount `index` panicked with `detail`, and says
    /// whether that has to cancel the mounts that are still under way. The result
    /// of that mount is an I/O error, a failure like any other.
    pub fn panicked(self, index: usize, detail: String) -> (r: (MountAll, bool))
        requires
            self@.running(index as int),
        ensures
            r.0@ == self@.complete(index as int, Completion::Panicked(detail@)),
            r.1 == self@.cancels(Completion::Panicked(detail@)),
            r.0@.results == self@.results.update(index as int, Some(Err(ErrorView::Io(detail@)))),
            r.0@.paths == self@.paths,
            r.0@.fail_fast == self@.fail_fast,
            r.1 == self@.fail_fast,
    {
        proof {
            use_type_invariant(&self);
        }
        let MountAll { fail_fast, paths, mut results } = self;
        results.set(index, Some(Err(Error::Io(detail))));
        let all = MountAll { fail_fast, paths, results };
        assert(all@.results =~= self@.complete(
            index as int,
            Completion::Panicked(detail@),
        ).results);
        (all, fail_fast)
    }

    /// The results of all mounts, each with the path of its FIFO, in the order of
    /// the configurations; nothing while a mount is under way.
    pub fn finish(self) -> (r: Option<Vec<(Vec<u8>, Result<(), Error>)>>)
        ensures
            r is Some <==> self@.done(),
            r is Some <==> forall|i: int|
                0 <= i < self@.results.len() ==> (#[trigger] self@.results[i]) is Some,
            r matches Some(results) ==> {
                &&& results.len() == self@.results.len() == self@.paths.len()
                &&& forall|i: int|
                    0 <= i < results.len() ==> (#[trigger] results_view(results@)[i]) == (
                        self@.paths[i],
                        self@.results[i]->0,
                    )
                &&& forall|i: int|
                    0 <= i < results.len() ==> (#[trigger] results@[i]).0@ == self@.paths[i]
                        && error::outcome(results@[i].1) == self@.results[i]->0
            },
    {
        proof {
            use_type_invariant(&self);
        }
        let ghost all = self@;
        let MountAll { fail_fast: _, paths, results } = self;
        let mut joined: Vec<(Vec<u8>, Result<(), Error>)> = Vec::new();
        let ghost given = results@;
        let mut i: usize = 0;
        for result in it: results
            invariant
                all == self@,
                it.seq() == given,
                given.len() == all.results.len() == all.paths.len() == paths.len(),
                forall|j: int| 0 <= j < given.len() ==> all.results[j] == slot(#[trigger] given[j]),
                forall|j: int| 0 <= j < paths.len() ==> all.paths[j] == (#[trigger] paths@[j])@,
                i == it.index(),
                joined.len() == i,
                forall|j: int| 0 <= j < i ==> (#[trigger] all.results[j]) is Some,
                forall|j: int|
                    0 <= j < i ==> (#[trigger] joined@[j]).0@ == all.paths[j] && error::outcome(
                        joined@[j].1,
                    ) == all.results[j]->0,
        {
            match result {
                Some(result) => joined.push((text::copy_bytes(&paths[i]), result)),
                None => {
                    assert(all.results[i as int] is None);
                    return None;
                },
            }
            i = i + 1;
        }
        Some(joined)
    }
}

/// The mounts at `paths` after `completions`, each the index of a mount and how
/// it came to its end.
pub open spec fn after(
    paths: Seq<Seq<u8>>,
    fail_fast: bool,
    completions: Seq<(int, Completion)>,
) -> MountAllView
    decreases completions.len(),
{
    if completions.len() == 0 {
        MountAllView::start(paths, fail_fast)
    } else {
        after(paths, fail_fast, completions.drop_last()).complete(
            completions.last().0,
            completions.last().1,
        )
    }
}

/// Whether each of `completions` is one of a mount that was under way.
pub open spec fn happens(
    paths: Seq<Seq<u8>>,
    fail_fast: bool,
    completions: Seq<(int, Completion)>,
) -> bool
    decreases completions.len(),
{
    completions.len() > 0 ==> happens(paths, fail_fast, completions.drop_last()) && after(
        paths,
        fail_fast,
        completions.drop_last(),
    ).running(completions.last().0)
}

/// Whether the mounts have been cancelled on account of `completions`.
pub open spec fn cancelled(
    paths: Seq<Seq<u8>>,
    fail_fast: bool,
    completions: Seq<(int, Completion)>,
) -> bool
    decreases completions.len(),
{
    completions.len() > 0 && {
        let before = completions.drop_last();
        ||| cancelled(paths, fail_fast, before)
        ||| after(paths, fail_fast, before).cancels(completions.last().1)
    }
}

/// With `fail_fast`, the first mount that fails, by an error or by a panic, cancels
/// the others, and nothing else does. Without, none is cancelled on account of
/// another.
pub proof fn law_fail_fast(
    paths: Seq<Seq<u8>>,
    fail_fast: bool,
    completions: Seq<(int, Completion)>,
)
    requires
        happens(paths, fail_fast, completions),
    ensures
        !fail_fast ==> !cancelled(paths, fail_fast, completions),
        fail_fast ==> (cancelled(paths, fail_fast, completions) <==> exists|k: int|
            0 <= k < completions.len() && match (#[trigger] completions[k]).1 {
                Completion::Returned(result) => result is Err,
                Completion::Panicked(_) => true,
            }),
    decreases completions.len(),
{
    if completions.len() > 0 {
        let before = completions.drop_last();
        law_fail_fast(paths, fail_fast, before);
        law_results_in_order_of_configs(paths, fail_fast, before);
        assert(forall|k: int| 0 <= k < before.len() ==> #[trigger] completions[k] == before[k]);
        assert(forall|k: int| 0 <= k < before.len() ==> #[trigger] before[k] == completions[k]);
    }
}

/// A mount is recorded with the very result that it returned, or with an I/O error
/// that says what its panic said; it is then over, and the others are as they were.
/// With `fail_fast` a failure cancels and a success does not; without, neither.
pub proof fn law_result_is_what_the_mount_returned(
    all: MountAllView,
    index: int,
    completion: Completion,
)
    requires
        0 <= index < all.results.len(),
        all.results[index] is None,
    ensures
        all.running(index),
        !all.complete(index, completion).running(index),
        all.complete(index, completion).paths == all.paths,
        all.complete(index, completion).fail_fast == all.fail_fast,
        all.complete(index, completion).results.len() == all.results.len(),
        forall|i: int|
            0 <= i < all.results.len() && i != index ==> #[trigger] all.complete(
                index,
                completion,
            ).results[i] == all.results[i],
        match completion {
            Completion::Returned(result) => {
                &&& all.complete(index, completion).results[index] == Some(result)
                &&& all.cancels(completion) <==> all.fail_fast && result is Err
            },
            Completion::Panicked(detail) => {
                &&& all.complete(index, completion).results[index] == Some(
                    Err::<(), ErrorView>(ErrorView::Io(detail)),
                )
                &&& all.cancels(completion) <==> all.fail_fast
            },
        },
{
}

/// The mounts are over if and only if each of them has come to its end, in
/// whatever order that was.
pub proof fn law_done_once_every_mount_ended(
    paths: Seq<Seq<u8>>,
    fail_fast: bool,
    completions: Seq<(int, Completion)>,
)
    requires
        happens(paths, fail_fast, completions),
    ensures
        after(paths, fail_fast, completions).done() <==> forall|i: int|
            0 <= i < paths.len() ==> #[trigger] ended(completions, i),
        forall|i: int|
            after(paths, fail_fast, completions).running(i) <==> 0 <= i < paths.len()
                && !#[trigger] ended(completions, i),
{
    law_results_in_order_of_configs(paths, fail_fast, completions);
    let all = after(paths, fail_fast, completions);
    assert forall|i: int| 0 <= i < paths.len() implies (#[trigger] all.results[i] is Some
        <==> ended(completions, i)) by {}
    if all.done() {
        assert forall|i: int| 0 <= i < paths.len() implies #[trigger] ended(completions, i) by {
            assert(all.results[i] is Some);
        }
    }
    assert forall|i: int| all.running(i) <==> 0 <= i < paths.len() && !#[trigger] ended(
        completions,
        i,
    ) by {
        if 0 <= i < paths.len() {
            assert(all.results[i] is Some <==> ended(completions, i));
        }
    }
}

/// Whether mount `index` has come to its end.
pub open spec fn ended(completions: Seq<(int, Completion)>, index: int) -> bool {
    exists|k: int| 0 <= k < completions.len() && (#[trigger] completions[k]).0 == index
}

/// Results come in the order of the configurations, in whatever order the mounts
/// end: the result that stands with a path is that of the mount at this path, and
/// there is one if and only if that mount has come to its end.
pub proof fn law_results_in_order_of_configs(
    paths: Seq<Seq<u8>>,
    fail_fast: bool,
    completions: Seq<(int, Completion)>,
)
    requires
        happens(paths, fail_fast, completions),
    ensures
        ({
            let all = after(paths, fail_fast, completions);
            &&& all.paths == paths
            &&& all.fail_fast == fail_fast
            &&& all.results.len() == paths.len()
            &&& forall|k: int|
                0 <= k < completions.len() ==> 0 <= (#[trigger] completions[k]).0 < paths.len()
                    && all.results[completions[k].0] == Some(completions[k].1.result())
            &&& forall|k: int|
                0 <= k < completions.len() ==> match (#[trigger] completions[k]).1 {
                    Completion::Returned(result) => all.results[completions[k].0] == Some(result),
                    Completion::Panicked(detail) => all.results[completions[k].0] == Some(
                        Err::<(), ErrorView>(ErrorView::Io(detail)),
                    ),
                }
            &&& forall|i: int|
                0 <= i < paths.len() ==> ((#[trigger] all.results[i]) is Some <==> exists|k: int|
                    0 <= k < completions.len() && (#[trigger] completions[k]).0 == i)
        }),
    decreases completions.len(),
{
    if completions.len() > 0 {
        let before = completions.drop_last();
        let last = completions.len() - 1;
        law_results_in_order_of_configs(paths, fail_fast, before);
        let all = after(paths, fail_fast, completions);
        assert forall|k: int| 0 <= k < completions.len() implies 0 <= (
        #[trigger] completions[k]).0 < paths.len() && all.results[completions[k].0] == Some(
            completions[k].1.result(),
        ) by {
            if k < last {
                assert(before[k] == completions[k]);
            }
        }
        assert forall|i: int| 0 <= i < paths.len() implies ((#[trigger] all.results[i]) is Some
            <==> exists|k: int|
            0 <= k < completions.len() && (#[trigger] completions[k]).0 == i) by {
            let earlier = after(paths, fail_fast, before);
            if i == completions[last].0 {
            } else {
                assert(all.results[i] == earlier.results[i]);
                if exists|k: int| 0 <= k < completions.len() && (#[trigger] completions[k]).0 == i {
                    let k = choose|k: int|
                        0 <= k < completions.len() && (#[trigger] completions[k]).0 == i;
                    assert(before[k].0 == i);
                }
                if exists|k: int| 0 <= k < before.len() && (#[trigger] before[k]).0 == i {
                    let k = choose|k: int| 0 <= k < before.len() && (#[trigger] before[k]).0 == i;
                    assert(completions[k].0 == i);
                }
            }
        }
    }
}

} // verus!
