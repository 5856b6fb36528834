//! The mailbox behind one party connection.
//!
//! One outbound connection to a remote party is owned by a single task that
//! drains a bounded mailbox; callers share a lightweight handle and enqueue
//! jobs.  Because one task processes the mailbox strictly in arrival order,
//! two logical operations against the same party can never interleave —
//! the underlying cryptographic session admits only one exchange at a time.
//! This module holds that queue discipline; the channel plumbing around it
//! is unverified glue.

use vstd::prelude::*;

verus! {

/// The kinds of job a party connection carries; each job also owns a
/// one-shot return channel for its eventual result, which lives in the
/// unverified plumbing.
#[derive(Clone, Copy, Debug, PartialEq, Eq)]
pub enum PartyJobKind {
    SampleRandomness,
    InitGame,
    RevealDoor,
}

/// The capacity a party connection's mailbox is created with.
pub const MAILBOX_CAPACITY: usize = 4;

/// A bounded first-in-first-out mailbox of party jobs.
pub struct Mailbox {
    pub jobs: Vec<PartyJobKind>,
    pub capacity: usize,
}

impl Mailbox {
    /// Never more jobs queued than the mailbox was created for.
    pub open spec fn wf(&self) -> bool {
        self.jobs@.len() <= self.capacity
    }

    /// An empty mailbox with the given capacity.
    pub fn new(capacity: usize) -> (r: Self)
        requires
            capacity >= 1,
        ensures
            r.wf(),
            r.jobs@ == Seq::<PartyJobKind>::empty(),
            r.capacity == capacity,
    {
        Self { jobs: Vec::new(), capacity }
    }

    /// How many jobs are queued.
    pub fn len(&self) -> (r: usize)
        ensures
            r == self.jobs@.len(),
    {
        self.jobs.len()
    }

    /// Appends a job at the back when there is room and reports whether it
    /// was accepted.  A full mailbox accepts nothing — the enqueueing
    /// caller waits and retries rather than dropping the job.
    pub fn enqueue(&mut self, job: PartyJobKind) -> (accepted: bool)
        requires
            old(self).wf(),
        ensures
            final(self).wf(),
            final(self).capacity == old(self).capacity,
            accepted <==> old(self).jobs@.len() < old(self).capacity,
            accepted ==> final(self).jobs@ == old(self).jobs@.push(job),
            !accepted ==> final(self).jobs@ == old(self).jobs@,
    {
        if self.jobs.len() < self.capacity {
            self.jobs.push(job);
            true
        } else {
            false
        }
    }

    /// Takes the oldest job off the front; `None` exactly when the mailbox
    /// is empty.
    pub fn dequeue(&mut self) -> (r: Option<PartyJobKind>)
        requires
            old(self).wf(),
        ensures
            final(self).wf(),
            final(self).capacity == old(self).capacity,
            old(self).jobs@.len() == 0 ==> r is None && final(self).jobs@ == old(self).jobs@,
            old(self).jobs@.len() > 0 ==> {
                &&& r == Some(old(self).jobs@[0])
                &&& final(self).jobs@ == old(self).jobs@.drop_first()
            },
    {
        if self.jobs.len() == 0 {
            None
        } else {
            let job = self.jobs.remove(0);
            proof {
                assert(old(self).jobs@.remove(0) =~= old(self).jobs@.drop_first());
            }
            Some(job)
        }
    }

    /// The owning task's drain loop: dequeues until the mailbox is empty.
    /// The jobs come out exactly in enqueue order — this is the
    /// serialization guarantee: N enqueued operations become N sequential
    /// invocations, first in, first out.
    pub fn process_all(&mut self) -> (processed: Vec<PartyJobKind>)
        requires
            old(self).wf(),
        ensures
            final(self).wf(),
            final(self).capacity == old(self).capacity,
            processed@ == old(self).jobs@,
            final(self).jobs@.len() == 0,
    {
        let mut processed: Vec<PartyJobKind> = Vec::new();
        while self.len() != 0
            invariant
                self.wf(),
                self.capacity == old(self).capacity,
                processed@ + self.jobs@ == old(self).jobs@,
                processed@.len() + self.jobs@.len() == old(self).jobs@.len(),
            decreases self.jobs@.len(),
        {
            match self.dequeue() {
                Some(job) => {
                    processed.push(job);
                    proof {
                        assert(processed@ + self.jobs@ =~= old(self).jobs@);
                    }
                },
                None => {},
            }
        }
        proof {
            assert(processed@ =~= old(self).jobs@);
        }
        processed
    }
}

/// First-in-first-out law: after an accepted enqueue the new job stands
/// behind every job that was already queued, so no later job is processed
/// before an earlier one.
pub proof fn lemma_enqueue_preserves_order(jobs: Seq<PartyJobKind>, job: PartyJobKind)
    ensures
        jobs.push(job).len() == jobs.len() + 1,
        forall|k: int| 0 <= k < jobs.len() ==> jobs.push(job)[k] == jobs[k],
        jobs.push(job)[jobs.len() as int] == job,
{
}

} // verus!
