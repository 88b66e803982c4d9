//! Events: a small header and a payload that the core never looks into.

use vstd::prelude::*;

verus! {

/// Nanoseconds since the Unix epoch, from `std::time::SystemTime::now`;
/// zero where the clock stands before the epoch. Nothing is claimed of the
/// value.
#[verifier::external_body]
pub(crate) fn now_nanos() -> u64 {
    let since = std::time::SystemTime::now().duration_since(std::time::UNIX_EPOCH);
    since.unwrap_or_default().as_nanos() as u64
}

/// What the core reads of an event.
#[derive(Debug, Clone, Copy, PartialEq, Eq, Structural)]
pub struct EventHeader {
    /// The producer.
    pub source_id: u32,
    /// The producer's sequence number.
    pub seq_no: u64,
    /// When the event was made, in nanoseconds since the epoch.
    pub timestamp_ns: u64,
}

/// An event: its header and its payload.
#[derive(Debug)]
pub struct ZenithEvent<P> {
    /// What the core reads.
    pub header: EventHeader,
    /// What the producer sent.
    pub payload: P,
}

impl<P> ZenithEvent<P> {
    /// An event stamped with the given time.
    pub fn with_timestamp(source_id: u32, seq_no: u64, timestamp_ns: u64, payload: P) -> (e: Self)
        ensures
            e.header == (EventHeader { source_id, seq_no, timestamp_ns }),
            e.payload == payload,
    {
        ZenithEvent { header: EventHeader { source_id, seq_no, timestamp_ns }, payload }
    }

    /// An event stamped with the current time.
    pub fn new(source_id: u32, seq_no: u64, payload: P) -> (e: Self)
        ensures
            e.header.source_id == source_id,
            e.header.seq_no == seq_no,
            e.payload == payload,
    {
        let now = now_nanos();
        Self::with_timestamp(source_id, seq_no, now, payload)
    }
}

} // verus!
