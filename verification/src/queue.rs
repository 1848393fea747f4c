use vstd::prelude::*;

verus! {

/// One unit of work for the pool: fetch `url` and ingest the result under
/// `entity_id`. Jobs are created in bulk when the queue is seeded and each
/// is consumed exactly once by whichever worker dequeues it.
#[derive(Debug, PartialEq, Clone)]
pub struct FetchJob {
    pub url: String,
    pub entity_id: u64,
}

impl View for FetchJob {
    type V = (Seq<char>, u64);

    open spec fn view(&self) -> (Seq<char>, u64) {
        (self.url@, self.entity_id)
    }
}

/// The multi-producer multi-consumer FIFO of fetch jobs. It owns both
/// endpoints of one unbounded channel, so no other handle can reach the
/// channel: every push and pop goes through this value.
#[verifier::external_body]
pub struct JobQueue {
    sender: crossbeam::channel::Sender<FetchJob>,
    receiver: crossbeam::channel::Receiver<FetchJob>,
}

/// The jobs now buffered in the queue, front first.
pub uninterp spec fn queue_jobs(q: JobQueue) -> Seq<(Seq<char>, u64)>;

impl JobQueue {
    /// Relies on crossbeam_channel::unbounded: a freshly created channel
    /// holds no messages.
    #[verifier::external_body]
    pub fn new() -> (q: JobQueue)
        ensures
            queue_jobs(q) == Seq::<(Seq<char>, u64)>::empty(),
    {
        let (sender, receiver) = crossbeam::channel::unbounded();
        JobQueue { sender, receiver }
    }

    /// Relies on crossbeam_channel::Sender::send into the unbounded channel:
    /// the message is appended at the back of the FIFO. Send fails only when
    /// every receiver is gone, which cannot happen while this value holds one.
    #[verifier::external_body]
    pub fn push(&mut self, job: FetchJob)
        ensures
            queue_jobs(*final(self)) == queue_jobs(*old(self)).push(job@),
    {
        self.sender.send(job).ok();
    }

    /// Relies on crossbeam_channel::Receiver::try_recv: it pops the front
    /// message of the FIFO without blocking, or reports the channel empty.
    /// Disconnection cannot be observed while this value holds the sender.
    #[verifier::external_body]
    pub fn try_pop(&mut self) -> (r: Option<FetchJob>)
        ensures
            queue_jobs(*old(self)).len() == 0 ==> r is None && *final(self) == *old(self),
            queue_jobs(*old(self)).len() > 0 ==> (r matches Some(job) && job@ == queue_jobs(
                *old(self),
            )[0] && queue_jobs(*final(self)) == queue_jobs(*old(self)).drop_first()),
    {
        match self.receiver.try_recv() {
            Ok(job) => Some(job),
            Err(_) => None,
        }
    }
}

} // verus!
