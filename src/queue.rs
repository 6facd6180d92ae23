//! The FIFO channel of provisioning work between command handlers and the
//! provisioning worker.
use vstd::prelude::*;
use crate::clock::{new_uuid, now_timestamp};

verus! {

#[derive(Debug, Clone, Copy, PartialEq, Eq, Structural)]
pub enum JobType {
    CreateServer,
    DeleteServer,
    Login,
}

/// What a job needs to be completed: the server it concerns and, once the
/// panel has confirmed it, the panel's identifier of that server.
#[derive(Debug, Clone, Copy, PartialEq, Eq, Structural)]
pub struct JobData {
    pub server_id: Option<u128>,
    pub external_id: Option<i64>,
}

/// A unit of work. Jobs are never edited once made: failure handling makes a
/// new one.
#[derive(Debug, Clone, Copy, PartialEq, Eq, Structural)]
pub struct QueueJob {
    pub id: u128,
    pub job_type: JobType,
    pub discord_id: u64,
    pub data: JobData,
    pub created_at: i64,
}

impl QueueJob {
    /// A job with a fresh identifier, created now.
    pub fn new(job_type: JobType, discord_id: u64, data: JobData) -> (r: QueueJob)
        ensures
            r.job_type == job_type,
            r.discord_id == discord_id,
            r.data == data,
    {
        let id = new_uuid();
        let now = now_timestamp();
        QueueJob::new_at(id, job_type, discord_id, data, now)
    }

    /// `new` with the identifier and creation time given.
    pub fn new_at(id: u128, job_type: JobType, discord_id: u64, data: JobData, now: i64) -> (r:
        QueueJob)
        ensures
            r == (QueueJob { id, job_type, discord_id, data, created_at: now }),
    {
        QueueJob { id, job_type, discord_id, data, created_at: now }
    }
}

/// The 1-based rank of the first job of `discord_id` in `jobs`, if any.
pub open spec fn rank_of(jobs: Seq<QueueJob>, discord_id: u64) -> Option<int>
    decreases jobs.len(),
{
    if jobs.len() == 0 {
        None
    } else if jobs[0].discord_id == discord_id {
        Some(1)
    } else {
        match rank_of(jobs.drop_first(), discord_id) {
            Some(k) => Some(k + 1),
            None => None,
        }
    }
}

proof fn lemma_rank_of(jobs: Seq<QueueJob>, discord_id: u64)
    ensures
        match rank_of(jobs, discord_id) {
            Some(k) => 1 <= k <= jobs.len() && jobs[k - 1].discord_id == discord_id && forall|
                j: int,
            | 0 <= j < k - 1 ==> #[trigger] jobs[j].discord_id != discord_id,
            None => forall|j: int| 0 <= j < jobs.len() ==> #[trigger] jobs[j].discord_id != discord_id,
        },
    decreases jobs.len(),
{
    if jobs.len() > 0 {
        lemma_rank_of(jobs.drop_first(), discord_id);
        let rest = jobs.drop_first();
        assert forall|j: int| 1 <= j < jobs.len() implies #[trigger] jobs[j] == rest[j - 1] by {}
    }
}

/// The 1-based rank of the first job of `discord_id` in a snapshot of the
/// queue. Informational only: ranks move as jobs are taken.
pub fn queue_position(jobs: &Vec<QueueJob>, discord_id: u64) -> (r: Option<usize>)
    ensures
        match r {
            Some(k) => rank_of(jobs@, discord_id) == Some(k as int),
            None => rank_of(jobs@, discord_id) is None,
        },
{
    proof { lemma_rank_of(jobs@, discord_id); }
    let mut i: usize = 0;
    while i < jobs.len()
        invariant
            0 <= i <= jobs.len(),
            forall|j: int| 0 <= j < i ==> #[trigger] jobs@[j].discord_id != discord_id,
            match rank_of(jobs@, discord_id) {
                Some(k) => 1 <= k <= jobs.len() && jobs@[k - 1].discord_id == discord_id && forall|
                    j: int,
                | 0 <= j < k - 1 ==> #[trigger] jobs@[j].discord_id != discord_id,
                None => forall|j: int|
                    0 <= j < jobs.len() ==> #[trigger] jobs@[j].discord_id != discord_id,
            },
        decreases jobs.len() - i,
    {
        if jobs[i].discord_id == discord_id {
            return Some(i + 1);
        }
        i = i + 1;
    }
    None
}

/// The job queue: jobs leave in the order they came.
pub struct QueueService {
    jobs: Vec<QueueJob>,
}

impl View for QueueService {
    type V = Seq<QueueJob>;

    closed spec fn view(&self) -> Seq<QueueJob> {
        self.jobs@
    }
}

impl QueueService {
    pub fn new() -> (r: QueueService)
        ensures
            r@ == Seq::<QueueJob>::empty(),
    {
        QueueService { jobs: Vec::new() }
    }

    /// Appends `job` at the tail.
    pub fn enqueue(&mut self, job: QueueJob)
        ensures
            final(self)@ == old(self)@.push(job),
    {
        self.jobs.push(job);
    }

    /// Removes and returns the head job; `None` on an empty queue, which is
    /// no error.
    pub fn dequeue(&mut self) -> (r: Option<QueueJob>)
        ensures
            old(self)@.len() == 0 ==> r is None && final(self)@ == old(self)@,
            old(self)@.len() > 0 ==> r == Some(old(self)@[0]) && final(self)@ == old(
                self,
            )@.drop_first(),
    {
        if self.jobs.len() == 0 {
            None
        } else {
            Some(self.jobs.remove(0))
        }
    }

    /// The 1-based rank of the first job of `discord_id`, if any.
    pub fn get_queue_position(&self, discord_id: u64) -> (r: Option<usize>)
        ensures
            match r {
                Some(k) => rank_of(self@, discord_id) == Some(k as int),
                None => rank_of(self@, discord_id) is None,
            },
    {
        queue_position(&self.jobs, discord_id)
    }

    pub fn get_queue_length(&self) -> (r: usize)
        ensures
            r == self@.len(),
    {
        self.jobs.len()
    }
}

} // verus!
