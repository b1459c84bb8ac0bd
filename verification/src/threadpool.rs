//! Bookkeeping of a thread pool whose size can change while it runs: the guard each
//! worker holds, the ids of the threads added when the pool grows, and whether a
//! worker may take another job.
use vstd::prelude::*;

verus! {

/// The guard a worker thread holds while it runs. While it is active, the worker
/// is to be replaced when it ends; it also counts the requests the worker served.
pub struct Sentinel<'a, J, C> {
    pub jobs: &'a J,
    pub thread_counter: &'a C,
    pub thread_count_max: &'a C,
    pub active: bool,
    pub request_counter: u64,
}

impl<'a, J, C> Sentinel<'a, J, C> {
    /// An active guard that has counted no request.
    pub fn new(jobs: &'a J, thread_counter: &'a C, thread_count_max: &'a C) -> (r: Sentinel<'a, J, C>)
        ensures
            *r.jobs == *jobs,
            *r.thread_counter == *thread_counter,
            *r.thread_count_max == *thread_count_max,
            r.active,
            r.request_counter == 0,
    {
        Sentinel {
            jobs: jobs,
            thread_counter: thread_counter,
            thread_count_max: thread_count_max,
            active: true,
            request_counter: 0,
        }
    }

    /// Deactivates the guard: the worker ends on purpose and is not replaced.
    pub fn cancel(&mut self)
        ensures
            !final(self).active,
            final(self).request_counter == old(self).request_counter,
            *final(self).jobs == *old(self).jobs,
            *final(self).thread_counter == *old(self).thread_counter,
            *final(self).thread_count_max == *old(self).thread_count_max,
    {
        self.active = false;
    }

    /// Counts one more served request.
    pub fn record_request(&mut self)
        requires
            old(self).request_counter < u64::MAX,
        ensures
            final(self).request_counter == old(self).request_counter + 1,
            final(self).active == old(self).active,
            *final(self).jobs == *old(self).jobs,
            *final(self).thread_counter == *old(self).thread_counter,
            *final(self).thread_count_max == *old(self).thread_count_max,
    {
        self.request_counter += 1;
    }
}

/// The ids of the threads to add when a pool of `current_max` threads is resized
/// to `threads`: the numbers from `current_max` on, truncated to a byte, one for
/// each new thread; none when the pool does not grow.
pub fn new_thread_ids(current_max: usize, threads: usize) -> (r: Vec<u8>)
    requires
        threads >= 1,
    ensures
        r@.len() == if threads > current_max {
            threads - current_max
        } else {
            0
        },
        forall|i: int| 0 <= i < r@.len() ==> r@[i] == (current_max + i) % 256,
{
    let mut ids: Vec<u8> = Vec::new();
    if threads > current_max {
        let count = threads - current_max;
        let mut id: usize = 0;
        while id < count
            invariant
                count == threads - current_max,
                id <= count,
                ids@.len() == id,
                forall|i: int| 0 <= i < id ==> ids@[i] == (current_max + i) % 256,
            decreases count - id,
        {
            let n = current_max + id;
            ids.push((n % 256) as u8);
            id += 1;
        }
    }
    ids
}

/// Whether a worker may take another job: only while fewer threads are busy than
/// the pool may have.
pub fn may_take_job(active_count: usize, max_count: usize) -> (b: bool)
    ensures
        b == (active_count < max_count),
{
    active_count < max_count
}

} // verus!
