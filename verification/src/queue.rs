//! Bounded FIFO queue of conversion requests: many producers (request
//! handlers), one consumer (the conversion worker). Enqueuing onto a full
//! queue fails rather than blocking a request thread; dequeuing hands jobs
//! out strictly in enqueue order. Blocking of the single consumer while the
//! queue is empty is the surrounding binary's concern.

use vstd::prelude::*;

verus! {

/// One conversion request: turn the e-book at `source_path` into a ready
/// rendition under `destination_directory`. Immutable once enqueued,
/// consumed exactly once, never retried automatically.
pub struct ConversionJob {
    pub source_path: String,
    pub destination_directory: String,
}

/// Bounded FIFO queue of `ConversionJob`s. Viewed as the sequence of queued
/// jobs, oldest first.
pub struct JobQueue {
    jobs: Vec<ConversionJob>,
    capacity: usize,
}

impl View for JobQueue {
    type V = Seq<ConversionJob>;

    closed spec fn view(&self) -> Seq<ConversionJob> {
        self.jobs@
    }
}

impl JobQueue {
    /// The fixed capacity the queue was created with.
    pub closed spec fn spec_capacity(&self) -> usize {
        self.capacity
    }

    /// The queue never holds more jobs than its capacity.
    pub closed spec fn wf(&self) -> bool {
        self.jobs@.len() <= self.capacity
    }

    /// An empty queue with room for `capacity` in-flight jobs.
    pub fn new(capacity: usize) -> (q: JobQueue)
        ensures
            q.wf(),
            q@ == Seq::<ConversionJob>::empty(),
            q.spec_capacity() == capacity,
    {
        JobQueue { jobs: Vec::new(), capacity }
    }

    pub fn capacity(&self) -> (c: usize)
        ensures
            c == self.spec_capacity(),
    {
        self.capacity
    }

    pub fn len(&self) -> (n: usize)
        ensures
            n == self@.len(),
    {
        self.jobs.len()
    }

    pub fn is_empty(&self) -> (e: bool)
        ensures
            e == (self@.len() == 0),
    {
        self.jobs.len() == 0
    }

    /// Non-blocking enqueue: appends `job` at the back and returns `true`
    /// iff there was room; a full queue is left unchanged and reported to
    /// the caller as `false` ("could not schedule conversion now").
    pub fn enqueue(&mut self, job: ConversionJob) -> (ok: bool)
        requires
            old(self).wf(),
        ensures
            final(self).wf(),
            final(self).spec_capacity() == old(self).spec_capacity(),
            ok == (old(self)@.len() < old(self).spec_capacity()),
            ok ==> final(self)@ == old(self)@.push(job),
            !ok ==> final(self)@ == old(self)@,
    {
        if self.jobs.len() < self.capacity {
            self.jobs.push(job);
            true
        } else {
            false
        }
    }

    /// Hands out the oldest queued job, or `None` on an empty queue.
    /// Jobs leave in exactly the order they were enqueued (FIFO).
    pub fn dequeue(&mut self) -> (r: Option<ConversionJob>)
        requires
            old(self).wf(),
        ensures
            final(self).wf(),
            final(self).spec_capacity() == old(self).spec_capacity(),
            old(self)@.len() == 0 ==> r is None && final(self)@ == old(self)@,
            old(self)@.len() > 0 ==> {
                &&& r == Some(old(self)@[0])
                &&& final(self)@ == old(self)@.subrange(1, old(self)@.len() as int)
            },
    {
        if self.jobs.len() == 0 {
            None
        } else {
            Some(self.jobs.remove(0))
        }
    }
}

/// Queue FIFO law: starting from an empty queue, enqueuing `j1`, `j2`, `j3`
/// in that order (all of which succeed, the capacity permitting) yields a
/// queue whose three successive dequeues return `j1`, then `j2`, then `j3`,
/// exactly as `enqueue` and `dequeue` describe the contents.
pub proof fn lemma_queue_fifo(j1: ConversionJob, j2: ConversionJob, j3: ConversionJob)
    ensures
        ({
            let s = Seq::<ConversionJob>::empty().push(j1).push(j2).push(j3);
            &&& s.len() == 3
            &&& s[0] == j1
            &&& s.subrange(1, 3)[0] == j2
            &&& s.subrange(1, 3).subrange(1, 2)[0] == j3
        }),
{
    let s = Seq::<ConversionJob>::empty().push(j1).push(j2).push(j3);
    assert(s.subrange(1, 3)[0] == j2);
    assert(s.subrange(1, 3).subrange(1, 2)[0] == j3);
}

} // verus!
