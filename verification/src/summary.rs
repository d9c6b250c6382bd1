//! The tally of a batch: how many images succeeded and failed, how long the
//! successful ones took, and which of them was fastest and slowest.
//!
//! The tally is a value that the batch loop owns and feeds one outcome at a
//! time.  Durations are whole nanoseconds.

use crate::error::ErrorKind;
use vstd::prelude::*;

verus! {

/// How the processing of one image ended.
#[derive(Clone, Copy, Debug, PartialEq, Eq, Structural)]
pub enum Outcome {
    /// The output was written; the whole of it, from reading the source to
    /// writing the output, took this long.
    Success { elapsed_nanos: u64 },
    /// No output was written.
    Failure { kind: ErrorKind },
}

/// A file and the time that it took, as a tally sees them.
pub struct TimedView {
    pub name: Seq<char>,
    pub elapsed_nanos: u64,
}

/// A file and the time that it took.
#[derive(Clone, Debug, PartialEq, Eq)]
pub struct Timed {
    pub name: String,
    pub elapsed_nanos: u64,
}

impl View for Timed {
    type V = TimedView;

    open spec fn view(&self) -> TimedView {
        TimedView { name: self.name@, elapsed_nanos: self.elapsed_nanos }
    }
}

/// One image of a batch: its name and how it ended.
pub struct Entry {
    pub name: Seq<char>,
    pub outcome: Outcome,
}

/// What a tally holds.
pub struct SummaryView {
    pub successes: nat,
    pub failures: nat,
    /// The sum of the durations of the successful images.
    pub total_nanos: nat,
    pub fastest: Option<TimedView>,
    pub slowest: Option<TimedView>,
}

impl SummaryView {
    /// The tally of a batch before its first image.
    pub open spec fn empty() -> SummaryView {
        SummaryView { successes: 0, failures: 0, total_nanos: 0, fastest: None, slowest: None }
    }

    /// The tally after one more image.  A failure is counted and nothing
    /// else.  A success is counted, its duration is added, and it becomes the
    /// fastest or the slowest only if it is strictly faster or strictly slower
    /// than the one that stands: of two equal ones the earlier stays.
    pub open spec fn record(self, name: Seq<char>, outcome: Outcome) -> SummaryView {
        match outcome {
            Outcome::Failure { .. } => SummaryView { failures: self.failures + 1, ..self },
            Outcome::Success { elapsed_nanos } => {
                let this = TimedView { name, elapsed_nanos };
                SummaryView {
                    successes: self.successes + 1,
                    failures: self.failures,
                    total_nanos: self.total_nanos + elapsed_nanos as nat,
                    fastest: match self.fastest {
                        Some(best) => if elapsed_nanos < best.elapsed_nanos {
                            Some(this)
                        } else {
                            Some(best)
                        },
                        None => Some(this),
                    },
                    slowest: match self.slowest {
                        Some(worst) => if elapsed_nanos > worst.elapsed_nanos {
                            Some(this)
                        } else {
                            Some(worst)
                        },
                        None => Some(this),
                    },
                }
            },
        }
    }

    /// The mean duration of the successful images, rounded down; none where
    /// nothing succeeded.
    pub open spec fn average_nanos(self) -> Option<nat> {
        if self.successes == 0 {
            None
        } else {
            Some(self.total_nanos / self.successes)
        }
    }
}

/// The tally of a whole batch, its images taken in order.
pub open spec fn tally(entries: Seq<Entry>) -> SummaryView
    decreases entries.len(),
{
    if entries.len() == 0 {
        SummaryView::empty()
    } else {
        tally(entries.drop_last()).record(entries.last().name, entries.last().outcome)
    }
}

/// The image at `i` succeeded.
pub open spec fn succeeded(entries: Seq<Entry>, i: int) -> bool {
    0 <= i < entries.len() && entries[i].outcome is Success
}

/// The duration of the image at `i`, which succeeded.
pub open spec fn elapsed(entries: Seq<Entry>, i: int) -> u64 {
    entries[i].outcome->elapsed_nanos
}

/// The number of images among the first `n` that succeeded.
pub open spec fn count_successes(entries: Seq<Entry>, n: int) -> nat
    decreases n,
{
    if n <= 0 {
        0
    } else if succeeded(entries, n - 1) {
        count_successes(entries, n - 1) + 1
    } else {
        count_successes(entries, n - 1)
    }
}

/// The image at `i` is the first of the fastest: it succeeded, none was
/// faster, and every earlier one was slower.
pub open spec fn is_first_fastest(entries: Seq<Entry>, i: int) -> bool {
    &&& succeeded(entries, i)
    &&& forall|j: int| #[trigger] succeeded(entries, j) ==> elapsed(entries, i) <= elapsed(entries, j)
    &&& forall|j: int|
        #[trigger] succeeded(entries, j) && j < i ==> elapsed(entries, i) < elapsed(entries, j)
}

/// The image at `i` is the first of the slowest.
pub open spec fn is_first_slowest(entries: Seq<Entry>, i: int) -> bool {
    &&& succeeded(entries, i)
    &&& forall|j: int| #[trigger] succeeded(entries, j) ==> elapsed(entries, i) >= elapsed(entries, j)
    &&& forall|j: int|
        #[trigger] succeeded(entries, j) && j < i ==> elapsed(entries, i) > elapsed(entries, j)
}

/// Every image of a batch is counted once, as a success or as a failure,
/// whatever came before it: a failure ends nothing.  The total is at most
/// the longest duration for each success.
pub proof fn lemma_tally_counts(entries: Seq<Entry>)
    ensures
        tally(entries).successes + tally(entries).failures == entries.len(),
        tally(entries).successes == count_successes(entries, entries.len() as int),
        tally(entries).total_nanos <= tally(entries).successes * u64::MAX,
    decreases entries.len(),
{
    if entries.len() > 0 {
        let before = entries.drop_last();
        lemma_tally_counts(before);
        lemma_count_prefix(entries, before, before.len() as int);
        let t = tally(before);
        assert(t.successes * u64::MAX + u64::MAX == (t.successes + 1) * u64::MAX)
            by (nonlinear_arith);
    }
}

proof fn lemma_count_prefix(entries: Seq<Entry>, before: Seq<Entry>, n: int)
    requires
        0 <= n <= before.len() <= entries.len(),
        forall|i: int| 0 <= i < before.len() ==> before[i] == entries[i],
    ensures
        count_successes(entries, n) == count_successes(before, n),
    decreases n,
{
    if n > 0 {
        lemma_count_prefix(entries, before, n - 1);
    }
}

/// A batch without a success has no fastest and no slowest image.  Otherwise
/// the fastest is the first image that no other beat, and the slowest the
/// first that none outlasted, each under its own name.
pub proof fn lemma_tally_extremes(entries: Seq<Entry>)
    ensures
        tally(entries).successes == 0 <==> tally(entries).fastest is None,
        tally(entries).successes == 0 <==> tally(entries).slowest is None,
        tally(entries).successes == 0 <==> forall|j: int| !succeeded(entries, j),
        tally(entries).fastest matches Some(best) ==> exists|i: int|
            #[trigger] is_first_fastest(entries, i) && best == (TimedView {
                name: entries[i].name,
                elapsed_nanos: elapsed(entries, i),
            }),
        tally(entries).slowest matches Some(worst) ==> exists|i: int|
            #[trigger] is_first_slowest(entries, i) && worst == (TimedView {
                name: entries[i].name,
                elapsed_nanos: elapsed(entries, i),
            }),
    decreases entries.len(),
{
    if entries.len() == 0 {
        assert forall|j: int| !succeeded(entries, j) by {}
    } else {
        let before = entries.drop_last();
        let last = entries.len() - 1;
        lemma_tally_extremes(before);
        assert forall|j: int| succeeded(before, j) <==> succeeded(entries, j) && j < last by {}
        assert forall|j: int| succeeded(before, j) implies elapsed(before, j) == elapsed(
            entries,
            j,
        ) by {}
        match entries.last().outcome {
            Outcome::Failure { .. } => {
                assert(!succeeded(entries, last));
                if tally(before).fastest is Some {
                    let i = choose|i: int|
                        #[trigger] is_first_fastest(before, i) && tally(before).fastest->0 == (
                        TimedView { name: before[i].name, elapsed_nanos: elapsed(before, i) });
                    assert(succeeded(before, i));
                    assert forall|j: int| #[trigger] succeeded(entries, j) implies elapsed(
                        entries,
                        i,
                    ) <= elapsed(entries, j) by {
                        assert(succeeded(before, j));
                    }
                    assert forall|j: int| #[trigger] succeeded(entries, j) && j < i implies elapsed(
                        entries,
                        i,
                    ) < elapsed(entries, j) by {
                        assert(succeeded(before, j));
                    }
                    assert(is_first_fastest(entries, i));
                    let k = choose|i: int|
                        #[trigger] is_first_slowest(before, i) && tally(before).slowest->0 == (
                        TimedView { name: before[i].name, elapsed_nanos: elapsed(before, i) });
                    assert(succeeded(before, k));
                    assert forall|j: int| #[trigger] succeeded(entries, j) implies elapsed(
                        entries,
                        k,
                    ) >= elapsed(entries, j) by {
                        assert(succeeded(before, j));
                    }
                    assert forall|j: int| #[trigger] succeeded(entries, j) && j < k implies elapsed(
                        entries,
                        k,
                    ) > elapsed(entries, j) by {
                        assert(succeeded(before, j));
                    }
                    assert(is_first_slowest(entries, k));
                } else {
                    assert forall|j: int| !succeeded(entries, j) by {
                        if succeeded(entries, j) {
                            assert(succeeded(before, j));
                        }
                    }
                }
            },
            Outcome::Success { elapsed_nanos } => {
                assert(succeeded(entries, last));
                if tally(before).fastest is Some {
                    let i = choose|i: int|
                        #[trigger] is_first_fastest(before, i) && tally(before).fastest->0 == (
                        TimedView { name: before[i].name, elapsed_nanos: elapsed(before, i) });
                    assert(succeeded(before, i));
                    let f = if elapsed_nanos < elapsed(before, i) {
                        last
                    } else {
                        i
                    };
                    assert forall|j: int| #[trigger] succeeded(entries, j) implies elapsed(
                        entries,
                        f,
                    ) <= elapsed(entries, j) by {
                        if j < last {
                            assert(succeeded(before, j));
                        }
                    }
                    assert forall|j: int| #[trigger] succeeded(entries, j) && j < f implies elapsed(
                        entries,
                        f,
                    ) < elapsed(entries, j) by {
                        assert(succeeded(before, j));
                    }
                    assert(is_first_fastest(entries, f));
                    let k = choose|i: int|
                        #[trigger] is_first_slowest(before, i) && tally(before).slowest->0 == (
                        TimedView { name: before[i].name, elapsed_nanos: elapsed(before, i) });
                    assert(succeeded(before, k));
                    let s = if elapsed_nanos > elapsed(before, k) {
                        last
                    } else {
                        k
                    };
                    assert forall|j: int| #[trigger] succeeded(entries, j) implies elapsed(
                        entries,
                        s,
                    ) >= elapsed(entries, j) by {
                        if j < last {
                            assert(succeeded(before, j));
                        }
                    }
                    assert forall|j: int| #[trigger] succeeded(entries, j) && j < s implies elapsed(
                        entries,
                        s,
                    ) > elapsed(entries, j) by {
                        assert(succeeded(before, j));
                    }
                    assert(is_first_slowest(entries, s));
                } else {
                    assert forall|j: int| #[trigger] succeeded(entries, j) implies j == last by {
                        if j < last {
                            assert(succeeded(before, j));
                        }
                    }
                    assert(is_first_fastest(entries, last));
                    assert(is_first_slowest(entries, last));
                }
            },
        }
    }
}

/// The view of what may be a file and its time.
pub open spec fn timed_view(t: Option<Timed>) -> Option<TimedView> {
    match t {
        Some(t) => Some(t@),
        None => None,
    }
}

fn copy_timed(t: &Option<Timed>) -> (r: Option<Timed>)
    ensures
        timed_view(r) == timed_view(*t),
{
    match t {
        Some(t) => Some(Timed { name: t.name.clone(), elapsed_nanos: t.elapsed_nanos }),
        None => None,
    }
}

/// The tally of a batch so far.
#[derive(Debug)]
pub struct Summary {
    successes: u64,
    failures: u64,
    total_nanos: u128,
    fastest: Option<Timed>,
    slowest: Option<Timed>,
}

impl View for Summary {
    type V = SummaryView;

    closed spec fn view(&self) -> SummaryView {
        SummaryView {
            successes: self.successes as nat,
            failures: self.failures as nat,
            total_nanos: self.total_nanos as nat,
            fastest: timed_view(self.fastest),
            slowest: timed_view(self.slowest),
        }
    }
}

/// What a batch reports when it is over.
#[derive(Clone, Debug, PartialEq, Eq)]
pub struct Report {
    pub successes: u64,
    pub failures: u64,
    /// The time from the start of the batch to its end, which is more than
    /// the images' durations together.
    pub wall_nanos: u64,
    /// The mean duration of the successful images, if there are any.
    pub average_nanos: Option<u64>,
    pub fastest: Option<Timed>,
    pub slowest: Option<Timed>,
}

impl Summary {
    #[verifier::type_invariant]
    closed spec fn inv(&self) -> bool {
        self.total_nanos <= self.successes * u64::MAX
    }

    /// Neither counter has reached the end of its range.
    pub open spec fn has_room_spec(view: SummaryView) -> bool {
        view.successes < u64::MAX && view.failures < u64::MAX
    }

    /// The tally of a batch before its first image.
    pub fn new() -> (s: Summary)
        ensures
            s@ == SummaryView::empty(),
    {
        Summary { successes: 0, failures: 0, total_nanos: 0, fastest: None, slowest: None }
    }

    /// Tells whether one more outcome can be counted.
    pub fn has_room(&self) -> (r: bool)
        ensures
            r == Self::has_room_spec(self@),
    {
        self.successes < u64::MAX && self.failures < u64::MAX
    }

    /// Takes up the outcome of the image of the given name.
    pub fn record(&mut self, name: &str, outcome: Outcome)
        requires
            Self::has_room_spec(old(self)@),
        ensures
            final(self)@ == old(self)@.record(name@, outcome),
    {
        proof {
            use_type_invariant(&*self);
        }
        match outcome {
            Outcome::Failure { .. } => {
                self.failures = self.failures + 1;
            },
            Outcome::Success { elapsed_nanos } => {
                assert(self.successes * u64::MAX + u64::MAX == (self.successes + 1) * u64::MAX)
                    by (nonlinear_arith);
                assert((self.successes + 1) * u64::MAX <= u64::MAX * u64::MAX) by (nonlinear_arith)
                    requires
                        self.successes + 1 <= u64::MAX,
                ;
                let faster: bool = match &self.fastest {
                    Some(best) => elapsed_nanos < best.elapsed_nanos,
                    None => true,
                };
                let slower: bool = match &self.slowest {
                    Some(worst) => elapsed_nanos > worst.elapsed_nanos,
                    None => true,
                };
                self.successes = self.successes + 1;
                self.total_nanos = self.total_nanos + elapsed_nanos as u128;
                if faster {
                    self.fastest = Some(Timed { name: name.to_owned(), elapsed_nanos });
                }
                if slower {
                    self.slowest = Some(Timed { name: name.to_owned(), elapsed_nanos });
                }
            },
        }
    }

    /// The report of a batch that took `wall_nanos` from start to end.
    pub fn report(&self, wall_nanos: u64) -> (r: Report)
        ensures
            r.successes == self@.successes,
            r.failures == self@.failures,
            r.wall_nanos == wall_nanos,
            match r.average_nanos {
                Some(mean) => self@.average_nanos() == Some(mean as nat),
                None => self@.average_nanos() is None,
            },
            timed_view(r.fastest) == self@.fastest,
            timed_view(r.slowest) == self@.slowest,
    {
        proof {
            use_type_invariant(self);
        }
        let average_nanos: Option<u64> = if self.successes == 0 {
            None
        } else {
            let count: u128 = self.successes as u128;
            assert(self.total_nanos as int / count as int <= u64::MAX) by (nonlinear_arith)
                requires
                    0 <= self.total_nanos <= count * u64::MAX,
                    count > 0,
            ;
            Some((self.total_nanos / count) as u64)
        };
        Report {
            successes: self.successes,
            failures: self.failures,
            wall_nanos,
            average_nanos,
            fastest: copy_timed(&self.fastest),
            slowest: copy_timed(&self.slowest),
        }
    }
}

} // verus!
