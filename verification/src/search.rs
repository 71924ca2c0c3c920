//! The search itself: what is asked, what one worker does with its share of
//! the counters, and what comes out.

use crate::digest::{generate_hash, hash_chars};
use crate::partition::{lemma_lane_gap, lemma_lane_start, plan_workers, WorkerTask};
use crate::shiny::{is_shiny, shiny};
use crate::stop::StopFlag;
use vstd::prelude::*;

verus! {

/// The number of workers that a search uses unless told otherwise.
pub const DEFAULT_WORKER_COUNT: usize = 8;

/// Whether the counter `n` solves the search: its hash starts with `number`
/// repeated `difficulty` times.
pub open spec fn wins(n: nat, difficulty: nat, number: nat) -> bool {
    shiny(hash_chars(n), difficulty, number)
}

/// Whether none of the task's counters below `bound` solves the search.
pub open spec fn none_wins_below(
    task: WorkerTask,
    bound: nat,
    difficulty: nat,
    number: nat,
) -> bool {
    forall|n: nat| n < bound && #[trigger] task.owns(n) ==> !wins(n, difficulty, number)
}

/// Why a search request was refused.
#[derive(Clone, Copy, Debug, PartialEq, Eq, Structural)]
pub enum RequestError {
    /// The difficulty is not a number from 1 to 9.
    DifficultyOutOfRange,
    /// The digit is not a number from 1 to 9.
    DigitOutOfRange,
    /// The search was asked to run with no worker at all.
    NoWorkers,
}

/// One search: for which record, with how many workers, and which run of
/// which digit the hash has to start with.
#[derive(Debug)]
pub struct SearchRequest {
    pub target_id: String,
    pub worker_count: usize,
    pub difficulty: usize,
    pub digit: usize,
}

impl SearchRequest {
    /// A request is well formed when it has at least one worker and its
    /// difficulty and digit are both numbers from 1 to 9.
    pub open spec fn wf(&self) -> bool {
        &&& self.worker_count >= 1
        &&& 1 <= self.difficulty <= 9
        &&& 1 <= self.digit <= 9
    }

    /// Which error, if any, a request with these numbers is refused with.
    /// The difficulty is looked at first, then the digit, then the workers.
    pub open spec fn refusal(difficulty: usize, digit: usize, worker_count: usize) -> Option<
        RequestError,
    > {
        if !(1 <= difficulty <= 9) {
            Some(RequestError::DifficultyOutOfRange)
        } else if !(1 <= digit <= 9) {
            Some(RequestError::DigitOutOfRange)
        } else if worker_count == 0 {
            Some(RequestError::NoWorkers)
        } else {
            None
        }
    }

    /// A request with the usual number of workers.
    pub fn new(target_id: String, difficulty: usize, digit: usize) -> (r: Result<
        SearchRequest,
        RequestError,
    >)
        ensures
            match r {
                Ok(request) => {
                    &&& Self::refusal(difficulty, digit, DEFAULT_WORKER_COUNT) is None
                    &&& request.wf()
                    &&& request.target_id == target_id
                    &&& request.worker_count == DEFAULT_WORKER_COUNT
                    &&& request.difficulty == difficulty
                    &&& request.digit == digit
                },
                Err(e) => Self::refusal(difficulty, digit, DEFAULT_WORKER_COUNT) == Some(e),
            },
    {
        Self::with_workers(target_id, difficulty, digit, DEFAULT_WORKER_COUNT)
    }

    /// A request with a chosen number of workers.
    pub fn with_workers(
        target_id: String,
        difficulty: usize,
        digit: usize,
        worker_count: usize,
    ) -> (r: Result<SearchRequest, RequestError>)
        ensures
            match r {
                Ok(request) => {
                    &&& Self::refusal(difficulty, digit, worker_count) is None
                    &&& request.wf()
                    &&& request.target_id == target_id
                    &&& request.worker_count == worker_count
                    &&& request.difficulty == difficulty
                    &&& request.digit == digit
                },
                Err(e) => Self::refusal(difficulty, digit, worker_count) == Some(e),
            },
    {
        if difficulty < 1 || difficulty > 9 {
            Err(RequestError::DifficultyOutOfRange)
        } else if digit < 1 || digit > 9 {
            Err(RequestError::DigitOutOfRange)
        } else if worker_count == 0 {
            Err(RequestError::NoWorkers)
        } else {
            Ok(SearchRequest { target_id, worker_count, difficulty, digit })
        }
    }

    /// The tasks of this request's workers, one each, in the order of their
    /// indices.
    pub fn tasks(&self) -> (tasks: Vec<WorkerTask>)
        ensures
            tasks@.len() == self.worker_count,
            forall|i: int|
                0 <= i < self.worker_count ==> {
                    &&& (#[trigger] tasks@[i]).wf()
                    &&& tasks@[i].worker_index == i
                    &&& tasks@[i].start_offset == i
                    &&& tasks@[i].stride == self.worker_count
                },
    {
        plan_workers(self.worker_count)
    }
}

/// What a search has come to: nothing yet, or the counter that won.
#[derive(Clone, Copy, Debug, PartialEq, Eq, Structural)]
pub enum SearchOutcome {
    NoResult,
    Winner { winning_counter: u64 },
}

impl SearchOutcome {
    /// The outcome once `counter` has been reported: the first report
    /// wins, and any later one is dropped.
    pub open spec fn recorded(self, counter: u64) -> SearchOutcome {
        match self {
            SearchOutcome::NoResult => SearchOutcome::Winner { winning_counter: counter },
            SearchOutcome::Winner { .. } => self,
        }
    }

    /// Takes a worker's report into account.
    pub fn record(self, counter: u64) -> (after: SearchOutcome)
        ensures
            after == self.recorded(counter),
    {
        match self {
            SearchOutcome::NoResult => SearchOutcome::Winner { winning_counter: counter },
            SearchOutcome::Winner { winning_counter } => SearchOutcome::Winner { winning_counter },
        }
    }

    /// The counter that won, if one has.
    pub fn winning_counter(&self) -> (counter: Option<u64>)
        ensures
            counter == match *self {
                SearchOutcome::NoResult => None::<u64>,
                SearchOutcome::Winner { winning_counter } => Some(winning_counter),
            },
    {
        match *self {
            SearchOutcome::NoResult => None,
            SearchOutcome::Winner { winning_counter } => Some(winning_counter),
        }
    }
}

/// A search has at most one winner: once a report has been recorded there
/// is a winner, and no later report changes it.
pub proof fn lemma_single_winner(outcome: SearchOutcome, first: u64, later: u64)
    ensures
        outcome.recorded(first) is Winner,
        outcome.recorded(first).recorded(later) == outcome.recorded(first),
        SearchOutcome::NoResult.recorded(first) == (SearchOutcome::Winner {
            winning_counter: first,
        }),
{
}

/// How a worker's run ended.
#[derive(Clone, Copy, Debug)]
pub enum WorkerExit {
    /// The worker found a counter that solves the search, raised the stop
    /// flag, and has this counter to report.
    Found { counter: u64 },
    /// The worker saw the stop flag raised and gave up; `next` is the
    /// counter it would have tried next.
    Cancelled { next: u64 },
    /// The worker tried every one of its counters that fits in 64 bits.
    Exhausted,
}

impl WorkerExit {
    /// What a worker that has moved on to `next` makes of a reading of the
    /// stop flag: it gives up when the flag was seen raised, and goes on
    /// when it was not.
    pub fn on_stop_reading(stop_seen: bool, next: u64) -> (exit: Option<WorkerExit>)
        ensures
            stop_seen ==> exit == Some(WorkerExit::Cancelled { next }),
            !stop_seen ==> exit is None,
    {
        if stop_seen {
            Some(WorkerExit::Cancelled { next })
        } else {
            None
        }
    }

    /// The counter that the worker has to report to whoever started it, if
    /// it found one.
    pub fn report(&self) -> (counter: Option<u64>)
        ensures
            counter == match *self {
                WorkerExit::Found { counter } => Some(counter),
                _ => None::<u64>,
            },
    {
        match *self {
            WorkerExit::Found { counter } => Some(counter),
            _ => None,
        }
    }
}

impl WorkerTask {
    /// Tries this worker's counters in ascending order.
    ///
    /// Each round hashes one counter. If it solves the search, the worker
    /// raises `stop` and ends with `Found`. Otherwise it moves one stride on
    /// and then looks at `stop`: if the flag is up, it ends with
    /// `Cancelled`. It ends with `Exhausted` when the next counter would not
    /// fit in 64 bits.
    pub fn run(&self, difficulty: usize, number: usize, stop: &StopFlag) -> (exit: WorkerExit)
        requires
            self.wf(),
        ensures
            match exit {
                WorkerExit::Found { counter } => {
                    &&& self.owns(counter as nat)
                    &&& wins(counter as nat, difficulty as nat, number as nat)
                    &&& none_wins_below(*self, counter as nat, difficulty as nat, number as nat)
                },
                WorkerExit::Cancelled { next } => {
                    &&& self.owns(next as nat)
                    &&& next > self.start_offset
                    &&& none_wins_below(*self, next as nat, difficulty as nat, number as nat)
                },
                WorkerExit::Exhausted => none_wins_below(
                    *self,
                    u64::MAX as nat + 1,
                    difficulty as nat,
                    number as nat,
                ),
            },
    {
        let mut counter: u64 = self.start_offset;
        proof {
            lemma_lane_start(self.start_offset as nat, self.stride as nat);
        }
        loop
            invariant
                self.wf(),
                self.owns(counter as nat),
                counter >= self.start_offset,
                none_wins_below(*self, counter as nat, difficulty as nat, number as nat),
            decreases u64::MAX - counter,
        {
            let hash = generate_hash(counter);
            if is_shiny(hash.as_str(), &difficulty, number) {
                stop.raise();
                return WorkerExit::Found { counter };
            }
            let ghost tried = counter;
            assert forall|n: nat| n < tried + self.stride && #[trigger] self.owns(n) implies !wins(
                n,
                difficulty as nat,
                number as nat,
            ) by {
                if n >= tried {
                    lemma_lane_gap(self.start_offset as nat, self.stride as nat, tried as nat, n);
                }
            }
            match self.next_counter(counter) {
                Some(next) => {
                    counter = next;
                },
                None => {
                    return WorkerExit::Exhausted;
                },
            }
            match WorkerExit::on_stop_reading(stop.is_raised(), counter) {
                Some(exit) => {
                    return exit;
                },
                None => {},
            }
        }
    }
}

} // verus!
