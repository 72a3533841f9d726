//! The admission controller: three independent bounded gates.
//!
//! A gate counts the operations of one class that are under way and refuses
//! a new one once its maximum is reached. Nothing here blocks: an acquisition
//! that finds its gate full says so, and the caller waits for a release or a
//! reset before asking again.

use vstd::prelude::*;
use crate::cpus::default_threads_cpu;

verus! {

/// One bounded counter of operations under way.
#[derive(Debug)]
pub struct Gate {
    count: usize,
    maximum: usize,
}

impl Gate {
    /// How many slots are taken.
    pub closed spec fn count(&self) -> nat {
        self.count as nat
    }

    /// How many slots there are.
    pub closed spec fn maximum(&self) -> nat {
        self.maximum as nat
    }

    /// No more slots are taken than there are.
    pub open spec fn wf(&self) -> bool {
        self.count() <= self.maximum()
    }

    /// An empty gate with `maximum` slots.
    pub fn new(maximum: usize) -> (gate: Gate)
        ensures
            gate.wf(),
            gate.count() == 0,
            gate.maximum() == maximum,
    {
        Gate { count: 0, maximum }
    }

    /// Takes a slot if one is free, and says whether it did.
    pub fn acquire(&mut self) -> (admitted: bool)
        ensures
            admitted == (old(self).count() < old(self).maximum()),
            final(self).count() == old(self).count() + if admitted { 1nat } else { 0nat },
            final(self).maximum() == old(self).maximum(),
            old(self).wf() ==> final(self).wf(),
    {
        if self.count < self.maximum {
            self.count = self.count + 1;
            true
        } else {
            false
        }
    }

    /// Gives one taken slot back.
    pub fn release(&mut self)
        requires
            old(self).count() > 0,
        ensures
            final(self).count() == old(self).count() - 1,
            final(self).maximum() == old(self).maximum(),
            old(self).wf() ==> final(self).wf(),
    {
        self.count = self.count - 1;
    }

    /// Forgets every taken slot.
    pub fn reset(&mut self)
        ensures
            final(self).count() == 0,
            final(self).maximum() == old(self).maximum(),
            final(self).wf(),
    {
        self.count = 0;
    }

    /// How many slots are taken.
    pub fn in_use(&self) -> (count: usize)
        ensures
            count == self.count(),
    {
        self.count
    }

    /// How many slots there are.
    pub fn limit(&self) -> (maximum: usize)
        ensures
            maximum == self.maximum(),
    {
        self.maximum
    }
}

/// The three gates of a batch: requests in the current window, conversion
/// jobs under way, raw downloads under way.
#[derive(Debug)]
pub struct Semaphore {
    requests: Gate,
    threads_cpu: Gate,
    threads_io: Gate,
}

impl Semaphore {
    /// Requests admitted since the last reset.
    pub closed spec fn requests(&self) -> nat {
        self.requests.count()
    }

    /// Conversion slots taken.
    pub closed spec fn threads_cpu(&self) -> nat {
        self.threads_cpu.count()
    }

    /// Download slots taken.
    pub closed spec fn threads_io(&self) -> nat {
        self.threads_io.count()
    }

    /// The most requests admitted between two resets.
    pub closed spec fn max_requests_per_second(&self) -> nat {
        self.requests.maximum()
    }

    /// The most conversion jobs under way at once.
    pub closed spec fn max_threads_cpu(&self) -> nat {
        self.threads_cpu.maximum()
    }

    /// The most raw downloads under way at once.
    pub closed spec fn max_threads_io(&self) -> nat {
        self.threads_io.maximum()
    }

    /// No gate holds more than its maximum.
    pub open spec fn wf(&self) -> bool {
        &&& self.requests() <= self.max_requests_per_second()
        &&& self.threads_cpu() <= self.max_threads_cpu()
        &&& self.threads_io() <= self.max_threads_io()
    }

    /// The three maxima are those of `other`.
    pub open spec fn same_limits(&self, other: &Semaphore) -> bool {
        &&& self.max_requests_per_second() == other.max_requests_per_second()
        &&& self.max_threads_cpu() == other.max_threads_cpu()
        &&& self.max_threads_io() == other.max_threads_io()
    }

    /// Three empty gates with the given maxima.
    pub fn new(max_requests_per_second: usize, max_threads_cpu: usize, max_threads_io: usize) -> (semaphore: Semaphore)
        ensures
            semaphore.wf(),
            semaphore.requests() == 0,
            semaphore.threads_cpu() == 0,
            semaphore.threads_io() == 0,
            semaphore.max_requests_per_second() == max_requests_per_second,
            semaphore.max_threads_cpu() == max_threads_cpu,
            semaphore.max_threads_io() == max_threads_io,
    {
        Semaphore {
            requests: Gate::new(max_requests_per_second),
            threads_cpu: Gate::new(max_threads_cpu),
            threads_io: Gate::new(max_threads_io),
        }
    }

    /// Opens a new window: every request admitted so far is forgotten.
    pub fn reset_requests(&mut self)
        ensures
            final(self).requests() == 0,
            final(self).threads_cpu() == old(self).threads_cpu(),
            final(self).threads_io() == old(self).threads_io(),
            final(self).same_limits(old(self)),
            old(self).wf() ==> final(self).wf(),
    {
        self.requests.reset();
    }

    /// Admits one more request into the current window if the window is not
    /// full, and says whether it did.
    pub fn increment_requests(&mut self) -> (admitted: bool)
        ensures
            admitted == (old(self).requests() < old(self).max_requests_per_second()),
            final(self).requests() == old(self).requests() + if admitted { 1nat } else { 0nat },
            final(self).threads_cpu() == old(self).threads_cpu(),
            final(self).threads_io() == old(self).threads_io(),
            final(self).same_limits(old(self)),
            old(self).wf() ==> final(self).wf(),
    {
        self.requests.acquire()
    }

    /// Takes a conversion slot if one is free, and says whether it did.
    pub fn increment_threads_cpu(&mut self) -> (admitted: bool)
        ensures
            admitted == (old(self).threads_cpu() < old(self).max_threads_cpu()),
            final(self).threads_cpu() == old(self).threads_cpu() + if admitted { 1nat } else { 0nat },
            final(self).requests() == old(self).requests(),
            final(self).threads_io() == old(self).threads_io(),
            final(self).same_limits(old(self)),
            old(self).wf() ==> final(self).wf(),
    {
        self.threads_cpu.acquire()
    }

    /// Gives a conversion slot back.
    pub fn decrement_threads_cpu(&mut self)
        requires
            old(self).threads_cpu() > 0,
        ensures
            final(self).threads_cpu() == old(self).threads_cpu() - 1,
            final(self).requests() == old(self).requests(),
            final(self).threads_io() == old(self).threads_io(),
            final(self).same_limits(old(self)),
            old(self).wf() ==> final(self).wf(),
    {
        self.threads_cpu.release();
    }

    /// Takes a download slot if one is free, and says whether it did.
    pub fn increment_threads_io(&mut self) -> (admitted: bool)
        ensures
            admitted == (old(self).threads_io() < old(self).max_threads_io()),
            final(self).threads_io() == old(self).threads_io() + if admitted { 1nat } else { 0nat },
            final(self).requests() == old(self).requests(),
            final(self).threads_cpu() == old(self).threads_cpu(),
            final(self).same_limits(old(self)),
            old(self).wf() ==> final(self).wf(),
    {
        self.threads_io.acquire()
    }

    /// Gives a download slot back.
    pub fn decrement_threads_io(&mut self)
        requires
            old(self).threads_io() > 0,
        ensures
            final(self).threads_io() == old(self).threads_io() - 1,
            final(self).requests() == old(self).requests(),
            final(self).threads_cpu() == old(self).threads_cpu(),
            final(self).same_limits(old(self)),
            old(self).wf() ==> final(self).wf(),
    {
        self.threads_io.release();
    }

    /// Requests admitted since the last reset.
    pub fn requests_in_window(&self) -> (count: usize)
        ensures
            count == self.requests(),
    {
        self.requests.in_use()
    }

    /// Conversion slots taken.
    pub fn cpu_in_use(&self) -> (count: usize)
        ensures
            count == self.threads_cpu(),
    {
        self.threads_cpu.in_use()
    }

    /// Download slots taken.
    pub fn io_in_use(&self) -> (count: usize)
        ensures
            count == self.threads_io(),
    {
        self.threads_io.in_use()
    }
}

impl Default for Semaphore {
    /// Ten requests per window, one conversion job per logical processor
    /// and at least one, a hundred raw downloads.
    fn default() -> (semaphore: Semaphore)
        ensures
            semaphore.wf(),
            semaphore.requests() == 0,
            semaphore.threads_cpu() == 0,
            semaphore.threads_io() == 0,
            semaphore.max_requests_per_second() == 10,
            semaphore.max_threads_cpu() >= 1,
            semaphore.max_threads_io() == 100,
    {
        Semaphore::new(10, default_threads_cpu(), 100)
    }
}

} // verus!
