//! The host API: what a plugin may ask of the host. Every facility is a
//! value that the embedder owns and hands to the calls.

use vstd::prelude::*;

pub mod abi;
pub mod fs;
pub mod http;
pub mod kv;
pub mod logging;
pub mod random;

verus! {

/// The clock and the counters behind the plain host calls.
pub struct HostAPI {
    host_calls: u64,
    log_calls: u64,
}

impl HostAPI {
    /// The number of host calls made so far.
    pub closed spec fn spec_host_calls(&self) -> u64 {
        self.host_calls
    }

    /// The number of log calls made so far.
    pub closed spec fn spec_log_calls(&self) -> u64 {
        self.log_calls
    }

    /// A host with both counters at zero.
    pub fn new() -> (h: HostAPI)
        ensures
            h.spec_host_calls() == 0,
            h.spec_log_calls() == 0,
    {
        HostAPI { host_calls: 0, log_calls: 0 }
    }

    /// Counts a log call made by a plugin: both counters go up by one,
    /// wrapping around. Returns the status of the call, which is zero.
    pub fn log(&mut self) -> (status: i32)
        ensures
            status == 0,
            final(self).spec_host_calls() == old(self).spec_host_calls().wrapping_add(1),
            final(self).spec_log_calls() == old(self).spec_log_calls().wrapping_add(1),
    {
        self.host_calls = self.host_calls.wrapping_add(1);
        self.log_calls = self.log_calls.wrapping_add(1);
        0
    }

    /// Counts a host call.
    pub fn count_call(&mut self)
        ensures
            final(self).spec_host_calls() == old(self).spec_host_calls().wrapping_add(1),
            final(self).spec_log_calls() == old(self).spec_log_calls(),
    {
        self.host_calls = self.host_calls.wrapping_add(1);
    }

    /// The current time in nanoseconds since the Unix epoch; counts as one
    /// host call.
    pub fn get_timestamp_ns(&mut self) -> (ts: u64)
        ensures
            final(self).spec_host_calls() == old(self).spec_host_calls().wrapping_add(1),
            final(self).spec_log_calls() == old(self).spec_log_calls(),
    {
        self.host_calls = self.host_calls.wrapping_add(1);
        crate::dataplane::event::now_nanos()
    }

    /// The number that `get_random_u64` makes of a time stamp and the
    /// count of host calls: their sum, wrapping around.
    pub open spec fn mix(ts: u64, count: u64) -> u64 {
        ts.wrapping_add(count)
    }

    /// The number that `get_random_u64` makes of a time stamp and the
    /// count of host calls.
    pub fn mixed(ts: u64, count: u64) -> (r: u64)
        ensures
            r == Self::mix(ts, count),
    {
        ts.wrapping_add(count)
    }

    /// A number that changes from call to call, made of the time and the
    /// count of host calls; not fit for cryptography. Counts as two host
    /// calls, its own and that of the clock.
    pub fn get_random_u64(&mut self) -> (r: u64)
        ensures
            final(self).spec_host_calls() == old(self).spec_host_calls().wrapping_add(1).wrapping_add(1),
            final(self).spec_log_calls() == old(self).spec_log_calls(),
            exists|ts: u64| r == Self::mix(ts, final(self).spec_host_calls()),
    {
        self.host_calls = self.host_calls.wrapping_add(1);
        let ts = self.get_timestamp_ns();
        Self::mixed(ts, self.host_calls)
    }

    /// The number of host calls made so far.
    pub fn get_host_call_count(&self) -> (n: u64)
        ensures
            n == self.spec_host_calls(),
    {
        self.host_calls
    }

    /// The number of log calls made so far.
    pub fn get_log_count(&self) -> (n: u64)
        ensures
            n == self.spec_log_calls(),
    {
        self.log_calls
    }

    /// Sets both counters to zero.
    pub fn reset_counters(&mut self)
        ensures
            final(self).spec_host_calls() == 0,
            final(self).spec_log_calls() == 0,
    {
        self.host_calls = 0;
        self.log_calls = 0;
    }
}

} // verus!
