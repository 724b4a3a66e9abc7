//! The dispatch job: a single-submission, single-result awaitable.
//!
//! A job is created from an arena and an input batch, is submitted to the
//! native side exactly once, on its first poll, and settles exactly once to
//! an immutable terminal result, driven by the native completion callback,
//! never by the polling side. The two transition functions below are the
//! whole protocol; the executable methods are proved to follow them.
//!
//! The scheduler runs polls one at a time; the native side delivers the
//! completion on its own thread, serialized against polling by the lock the
//! runtime holds around the job. A wake handle is carried as a plain token:
//! the runtime maps it to its scheduler's real handle and invokes that handle
//! only after `complete` has returned, hence only after the terminal result
//! is durably written.

use vstd::prelude::*;
use vstd::slice::slice_to_vec;
use crate::device::{Error, Highway, spec_code_to_err, code_to_err, DELUGE_SUCCESS};

verus! {

/// Lifecycle of a dispatch job. The only transitions are
/// `Created -> Running` (submission accepted), `Created -> Finished`
/// (submission rejected) and `Running -> Finished` (completion delivered).
#[derive(Clone, Copy, Debug, PartialEq)]
pub enum HighwayHashSumState {
    /// Not yet submitted.
    Created,
    /// Submission accepted; holds the pending wake token, if one is stored.
    Running { waker: Option<u64> },
    /// Terminal: the stored result is immutable from here on.
    Finished { result: Result<[u64; 5], Error> },
}

/// What one poll of a job reports to its scheduler.
#[derive(Clone, Copy, Debug, PartialEq)]
pub enum JobPoll {
    /// The job is in flight; the scheduler should wait for a wake.
    Pending,
    /// The job is settled to this terminal result.
    Ready { result: Result<[u64; 5], Error> },
}

/// The poll transition. In `Created`, the submission's status decides: on
/// success the job starts running and stores the scheduler's wake token; on
/// failure it settles at once to the mapped error, and no wake token is ever
/// stored. In `Running` nothing changes and nothing is resubmitted. In
/// `Finished` the stored result is reported, the state untouched.
pub open spec fn spec_poll(s: HighwayHashSumState, waker: u64, submit_status: i32) -> (
    HighwayHashSumState,
    JobPoll,
) {
    match s {
        HighwayHashSumState::Created => {
            if submit_status == DELUGE_SUCCESS {
                (HighwayHashSumState::Running { waker: Some(waker) }, JobPoll::Pending)
            } else {
                let result = Err::<[u64; 5], Error>(spec_code_to_err(submit_status));
                (HighwayHashSumState::Finished { result }, JobPoll::Ready { result })
            }
        },
        HighwayHashSumState::Running { .. } => (s, JobPoll::Pending),
        HighwayHashSumState::Finished { result } => (s, JobPoll::Ready { result }),
    }
}

/// The completion transition, driven at most once, by the native callback:
/// the terminal result is written and the stored wake token is taken, to be
/// invoked by the caller only after the transition is done.
pub open spec fn spec_complete(
    s: HighwayHashSumState,
    status: i32,
    payload: [u64; 5],
) -> (HighwayHashSumState, Option<u64>)
    recommends
        s is Running,
{
    let result = if status == DELUGE_SUCCESS {
        Ok::<[u64; 5], Error>(payload)
    } else {
        Err::<[u64; 5], Error>(spec_code_to_err(status))
    };
    let waker = match s {
        HighwayHashSumState::Running { waker } => waker,
        _ => None,
    };
    (HighwayHashSumState::Finished { result }, waker)
}

/// A single-use dispatch job over one arena key and one input batch.
pub struct HighwayHashSum {
    key: [u64; 4],
    elems: Vec<u64>,
    state: HighwayHashSumState,
    submissions: u64,
}

impl HighwayHashSum {
    /// The arena key the job was built from.
    pub closed spec fn spec_key(&self) -> Seq<u64> {
        self.key@
    }

    /// The input batch the job carries.
    pub closed spec fn spec_elems(&self) -> Seq<u64> {
        self.elems@
    }

    /// The job's lifecycle state.
    pub closed spec fn spec_state(&self) -> HighwayHashSumState {
        self.state
    }

    /// How many native submissions have been made for this job.
    pub closed spec fn spec_submissions(&self) -> nat {
        self.submissions as nat
    }

    /// A job submits exactly once: the submission count is zero while it is
    /// still `Created` and one from the moment it leaves `Created`.
    pub open spec fn wf(&self) -> bool {
        self.spec_submissions() == if self.spec_state() is Created {
            0nat
        } else {
            1nat
        }
    }

    /// Creates a job over an arena's key and the given input batch.
    pub fn new(runner: &Highway, input: &[u64]) -> (job: Self)
        ensures
            job.wf(),
            job.spec_state() is Created,
            job.spec_key() == runner.spec_key(),
            job.spec_elems() == input@,
            job.spec_submissions() == 0,
    {
        HighwayHashSum {
            key: runner.key_bytes(),
            elems: slice_to_vec(input),
            state: HighwayHashSumState::Created,
            submissions: 0,
        }
    }

    /// One scheduler poll. On the first poll the runtime performs the single
    /// native submission for this job and hands in the status it returned;
    /// in every later state that argument is ignored and nothing is ever
    /// resubmitted. A rejected submission settles the job at once, with no
    /// wake token stored, so no wake ever comes for it; a settled job
    /// reports its stored result identically on every further poll.
    pub fn poll(&mut self, waker: u64, submit_status: i32) -> (r: JobPoll)
        requires
            old(self).wf(),
        ensures
            final(self).wf(),
            (final(self).spec_state(), r) == spec_poll(
                old(self).spec_state(),
                waker,
                submit_status,
            ),
            final(self).spec_key() == old(self).spec_key(),
            final(self).spec_elems() == old(self).spec_elems(),
            final(self).spec_submissions() == if old(self).spec_state() is Created {
                old(self).spec_submissions() + 1
            } else {
                old(self).spec_submissions()
            },
    {
        match self.state {
            HighwayHashSumState::Created => {
                self.submissions = self.submissions + 1;
                if submit_status == DELUGE_SUCCESS {
                    self.state = HighwayHashSumState::Running { waker: Some(waker) };
                    JobPoll::Pending
                } else {
                    let e = code_to_err(submit_status);
                    self.state = HighwayHashSumState::Finished { result: Err(e) };
                    JobPoll::Ready { result: Err(e) }
                }
            },
            HighwayHashSumState::Running { .. } => JobPoll::Pending,
            HighwayHashSumState::Finished { result } => JobPoll::Ready { result },
        }
    }

    /// The completion bridge: invoked exactly once per accepted submission,
    /// by the native side, with the status and the fixed-width payload. The
    /// job must be `Running` — a completion observing any other state means
    /// the one-shot contract was violated, and the runtime must abort rather
    /// than call this. The terminal result is written before the stored wake
    /// token is handed back, so a wake is never observed ahead of the
    /// result.
    pub fn complete(&mut self, status: i32, payload: &[u64; 5]) -> (waker: Option<u64>)
        requires
            old(self).wf(),
            old(self).spec_state() is Running,
        ensures
            final(self).wf(),
            (final(self).spec_state(), waker) == spec_complete(
                old(self).spec_state(),
                status,
                *payload,
            ),
            final(self).spec_key() == old(self).spec_key(),
            final(self).spec_elems() == old(self).spec_elems(),
            final(self).spec_submissions() == old(self).spec_submissions(),
    {
        let w = match self.state {
            HighwayHashSumState::Running { waker } => waker,
            _ => None,
        };
        let result = if status == DELUGE_SUCCESS {
            Ok(*payload)
        } else {
            Err(code_to_err(status))
        };
        self.state = HighwayHashSumState::Finished { result };
        w
    }

    /// Whether the job has not yet been submitted.
    pub fn is_created(&self) -> (b: bool)
        ensures
            b == (self.spec_state() is Created),
    {
        matches!(self.state, HighwayHashSumState::Created)
    }

    /// Whether the job is in flight.
    pub fn is_running(&self) -> (b: bool)
        ensures
            b == (self.spec_state() is Running),
    {
        matches!(self.state, HighwayHashSumState::Running { .. })
    }

    /// Whether the job has settled to its terminal result.
    pub fn is_finished(&self) -> (b: bool)
        ensures
            b == (self.spec_state() is Finished),
    {
        matches!(self.state, HighwayHashSumState::Finished { .. })
    }

    /// The number of native submissions made for this job so far.
    pub fn submission_count(&self) -> (n: u64)
        ensures
            n == self.spec_submissions(),
    {
        self.submissions
    }
}

/// Once a job is settled, polling is idempotent: the transition leaves the
/// state untouched and every further poll — however often repeated, with
/// whatever arguments — reports the identical stored result.
pub proof fn lemma_poll_idempotent_after_finished(
    s: HighwayHashSumState,
    w1: u64,
    st1: i32,
    w2: u64,
    st2: i32,
)
    requires
        s is Finished,
    ensures
        spec_poll(s, w1, st1).0 == s,
        spec_poll(s, w1, st1).1 == spec_poll(s, w2, st2).1,
        spec_poll(spec_poll(s, w1, st1).0, w2, st2).1 == spec_poll(s, w1, st1).1,
{
}

/// A well-formed job has made at most one native submission, and exactly one
/// from the moment it leaves `Created`: no sequence of polls resubmits.
pub proof fn lemma_single_submission(j: HighwayHashSum)
    requires
        j.wf(),
    ensures
        j.spec_submissions() <= 1,
        !(j.spec_state() is Created) ==> j.spec_submissions() == 1,
{
}

/// A wake token is handed out only by the completion transition, whose
/// post-state is already settled to the delivered result: whoever observes
/// the wake finds the job `Finished`, never still `Running`.
pub proof fn lemma_wake_after_result(s: HighwayHashSumState, status: i32, payload: [u64; 5])
    requires
        s is Running,
    ensures
        spec_complete(s, status, payload).0 is Finished,
        spec_complete(s, status, payload).0 == (HighwayHashSumState::Finished {
            result: if status == DELUGE_SUCCESS {
                Ok::<[u64; 5], Error>(payload)
            } else {
                Err::<[u64; 5], Error>(spec_code_to_err(status))
            },
        }),
{
}

} // verus!
