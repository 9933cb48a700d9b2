//! The job queue that feeds the worker pool: first in, first out, with a one-shot
//! "no more jobs" signal. Locking and parking of idle workers belong to the caller.
use std::collections::VecDeque;
use vstd::prelude::*;

verus! {

/// What a worker gets when it asks the queue for work.
pub enum Dequeue<J> {
    /// The oldest queued job.
    Job(J),
    /// Nothing is queued yet: wait for `add` or `finish_ntf`.
    Empty,
    /// The queue is finished and drained: the worker stops.
    Finished,
}

/// A queue of jobs of type `J` and its `finished` flag.
pub struct JobQueue<J> {
    jobs: VecDeque<J>,
    finished: bool,
}

/// The queue after `add(job)`: the job goes to the back, unless the queue is finished.
pub open spec fn add_spec<J>(q: (Seq<J>, bool), job: J) -> (Seq<J>, bool) {
    if q.1 {
        q
    } else {
        (q.0.push(job), false)
    }
}

/// The queue after `finish_ntf`.
pub open spec fn finish_spec<J>(q: (Seq<J>, bool)) -> (Seq<J>, bool) {
    (q.0, true)
}

/// What `try_next` hands out, and the queue after it: the front job while there is
/// one, finished or not.
pub open spec fn next_spec<J>(q: (Seq<J>, bool)) -> ((Seq<J>, bool), Dequeue<J>) {
    if q.0.len() > 0 {
        ((q.0.drop_first(), q.1), Dequeue::Job(q.0[0]))
    } else if q.1 {
        (q, Dequeue::Finished)
    } else {
        (q, Dequeue::Empty)
    }
}

/// The queue after `n` calls of `try_next`.
pub open spec fn next_n_spec<J>(q: (Seq<J>, bool), n: nat) -> (Seq<J>, bool)
    decreases n,
{
    if n == 0 {
        q
    } else {
        next_n_spec(next_spec(q).0, (n - 1) as nat)
    }
}

impl<J> View for JobQueue<J> {
    /// The queued jobs, oldest first, and whether the queue is finished.
    type V = (Seq<J>, bool);

    closed spec fn view(&self) -> (Seq<J>, bool) {
        (self.jobs@, self.finished)
    }
}

impl<J> JobQueue<J> {
    /// An empty queue that takes jobs.
    pub fn new() -> (r: JobQueue<J>)
        ensures
            r@ == (Seq::<J>::empty(), false),
    {
        JobQueue { jobs: VecDeque::new(), finished: false }
    }

    /// Appends `job`, unless the queue is finished, in which case the job is dropped.
    pub fn add(&mut self, job: J)
        ensures
            final(self)@ == add_spec(old(self)@, job),
    {
        if self.finished {
            return ;
        }
        self.jobs.push_back(job);
    }

    /// Marks the queue finished: it takes no more jobs, and hands out those it holds.
    pub fn finish_ntf(&mut self)
        ensures
            final(self)@ == finish_spec(old(self)@),
    {
        self.finished = true;
    }

    pub fn is_finished(&self) -> (r: bool)
        ensures
            r == self@.1,
    {
        self.finished
    }

    /// The number of queued jobs.
    pub fn len(&self) -> (r: usize)
        ensures
            r == self@.0.len(),
    {
        self.jobs.len()
    }

    /// Takes the oldest job; reports `Empty` or `Finished` when there is none.
    pub fn try_next(&mut self) -> (r: Dequeue<J>)
        ensures
            (final(self)@, r) == next_spec(old(self)@),
    {
        match self.jobs.pop_front() {
            Some(job) => Dequeue::Job(job),
            None => if self.finished {
                Dequeue::Finished
            } else {
                Dequeue::Empty
            },
        }
    }
}

/// A job added while the queue takes jobs is handed out once the jobs queued before
/// it have been, whether or not the queue is finished meanwhile; a finished queue
/// reports `Finished` only once it is drained.
pub proof fn lemma_added_job_is_handed_out<J>(q: (Seq<J>, bool), job: J, finish: bool)
    requires
        !q.1,
    ensures
        ({
            let added = add_spec(q, job);
            let s = if finish { finish_spec(added) } else { added };
            &&& next_spec(next_n_spec(s, q.0.len())).1 == Dequeue::Job(job)
            &&& next_spec(next_n_spec(s, q.0.len() + 1)).1 == (if finish {
                Dequeue::<J>::Finished
            } else {
                Dequeue::<J>::Empty
            })
        }),
{
    let added = add_spec(q, job);
    let s = if finish { finish_spec(added) } else { added };
    lemma_next_n_drops(s, q.0.len());
    lemma_next_n_drops(s, q.0.len() + 1);
}

/// `n` calls of `try_next` on a queue that holds at least `n` jobs drop its first `n`.
pub proof fn lemma_next_n_drops<J>(q: (Seq<J>, bool), n: nat)
    requires
        n <= q.0.len(),
    ensures
        next_n_spec(q, n) == (q.0.subrange(n as int, q.0.len() as int), q.1),
    decreases n,
{
    if n == 0 {
        assert(q.0.subrange(0, q.0.len() as int) =~= q.0);
    } else {
        let q1 = next_spec(q).0;
        lemma_next_n_drops(q1, (n - 1) as nat);
        assert(q1.0.subrange((n - 1) as int, q1.0.len() as int) =~= q.0.subrange(
            n as int,
            q.0.len() as int,
        ));
    }
}

} // verus!
