use vstd::prelude::*;
use crate::queue::FetchJob;

verus! {

/// What a worker does right after one dequeue attempt.
#[derive(Debug, PartialEq, Clone)]
pub enum WorkerAction {
    /// The queue was empty and the consecutive-empty-poll threshold is now
    /// reached: the worker terminates.
    Exit,
    /// The queue was empty but the threshold is not yet reached: the worker
    /// sleeps its short poll interval and tries again.
    Sleep,
    /// A job was dequeued: the worker fetches, transforms and accumulates,
    /// then sleeps its jittered throttle delay.
    Process(FetchJob),
}

/// The per-worker termination state: how many consecutive dequeue attempts
/// have come back empty, against the fixed threshold at which the worker
/// self-terminates. This local counter is the pool's only termination
/// signal; it is sound because the queue never grows after seeding.
#[derive(Debug, PartialEq, Clone)]
pub struct WorkerState {
    pub empty_polls: usize,
    pub threshold: usize,
}

/// The worker-loop transition: a dequeued job resets the counter, an empty
/// poll increments it.
pub open spec fn step(s: WorkerState, got_job: bool) -> WorkerState {
    if got_job {
        WorkerState { empty_polls: 0, threshold: s.threshold }
    } else {
        WorkerState { empty_polls: (s.empty_polls + 1) as usize, threshold: s.threshold }
    }
}

/// Whether the observation that `got_job` reports makes the worker exit.
pub open spec fn exits(s: WorkerState, got_job: bool) -> bool {
    !got_job && s.empty_polls + 1 == s.threshold
}

/// The state after `k` further empty polls.
pub open spec fn after_empty_polls(s: WorkerState, k: nat) -> WorkerState
    decreases k,
{
    if k == 0 {
        s
    } else {
        step(after_empty_polls(s, (k - 1) as nat), false)
    }
}

impl WorkerState {
    pub fn new(threshold: usize) -> (r: WorkerState)
        ensures
            r.empty_polls == 0,
            r.threshold == threshold,
    {
        WorkerState { empty_polls: 0, threshold }
    }

    /// Record one dequeue attempt and decide the worker's next move.
    pub fn observe(&mut self, polled: Option<FetchJob>) -> (a: WorkerAction)
        requires
            old(self).empty_polls < old(self).threshold,
        ensures
            *final(self) == step(*old(self), polled is Some),
            (a is Exit) == exits(*old(self), polled is Some),
            polled matches Some(job) ==> a == WorkerAction::Process(job),
            polled is None ==> (a is Exit || a is Sleep),
    {
        match polled {
            Some(job) => {
                self.empty_polls = 0;
                WorkerAction::Process(job)
            },
            None => {
                self.empty_polls = self.empty_polls + 1;
                if self.empty_polls == self.threshold {
                    WorkerAction::Exit
                } else {
                    WorkerAction::Sleep
                }
            },
        }
    }
}

/// Tail-latency law of the pool's termination rule: a worker that has just
/// processed its last job (counter zero) and sees only an empty queue from
/// then on keeps polling while its counter is below the threshold, and the
/// poll that brings the counter to the threshold — the threshold'th empty
/// poll — is exactly the one on which it exits: never earlier, never later.
pub proof fn lemma_exit_after_threshold_polls(s: WorkerState, k: nat)
    requires
        s.empty_polls == 0,
        1 <= s.threshold,
        k < s.threshold,
    ensures
        after_empty_polls(s, k).empty_polls == k,
        after_empty_polls(s, k).threshold == s.threshold,
        exits(after_empty_polls(s, k), false) <==> k + 1 == s.threshold,
    decreases k,
{
    if k > 0 {
        lemma_exit_after_threshold_polls(s, (k - 1) as nat);
    }
}

} // verus!
