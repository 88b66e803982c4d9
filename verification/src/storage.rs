//! The keys under which events are stored.

use vstd::prelude::*;

verus! {

/// An event as it is stored.
#[derive(Debug, Clone)]
pub struct StoredEvent {
    /// The producer.
    pub source_id: u32,
    /// The producer's sequence number.
    pub seq_no: u64,
    /// When the event was made, in nanoseconds since the epoch.
    pub timestamp_ns: u64,
    /// The payload.
    pub data: Vec<u8>,
}

/// The byte at place `k` of a number of `width` bytes, the highest first.
pub open spec fn be_byte(v: nat, width: nat, k: nat) -> u8 {
    ((v / pow256((width - 1 - k) as nat)) % 256) as u8
}

/// 256 to the power of `k`.
pub open spec fn pow256(k: nat) -> nat
    decreases k,
{
    if k == 0 {
        1
    } else {
        256 * pow256((k - 1) as nat)
    }
}

/// The key under which an event is stored: the four bytes of the
/// producer, then the eight bytes of the sequence number, each with the
/// highest byte first, so that the keys of one producer stand together
/// and in order.
pub open spec fn event_key(source_id: u32, seq_no: u64) -> Seq<u8> {
    Seq::new(
        12,
        |k: int|
            if k < 4 {
                be_byte(source_id as nat, 4, k as nat)
            } else {
                be_byte(seq_no as nat, 8, (k - 4) as nat)
            },
    )
}

/// The key under which an event is stored.
pub fn make_key(source_id: u32, seq_no: u64) -> (key: Vec<u8>)
    ensures
        key@ == event_key(source_id, seq_no),
{
    let mut key: Vec<u8> = Vec::new();
    let mut k: usize = 0;
    while k < 4
        invariant
            k <= 4,
            key@.len() == k,
            forall|j: int| 0 <= j < k ==> key@[j] == be_byte(source_id as nat, 4, j as nat),
        decreases 4 - k,
    {
        let mut div: u32 = 1;
        let mut e: usize = 0;
        while e < 3 - k
            invariant
                e <= 3 - k,
                k < 4,
                div == pow256(e as nat),
                div >= 1,
                div <= 0x1000000,
                e < 3 ==> div <= 0x10000,
                e < 2 ==> div <= 0x100,
                e < 1 ==> div <= 1,
            decreases 3 - k - e,
        {
            div = div * 256;
            e = e + 1;
            assert(pow256(e as nat) == 256 * pow256((e - 1) as nat));
        }
        key.push(((source_id / div) % 256) as u8);
        k = k + 1;
    }
    let mut m: usize = 0;
    while m < 8
        invariant
            m <= 8,
            key@.len() == 4 + m,
            forall|j: int| 0 <= j < 4 ==> key@[j] == be_byte(source_id as nat, 4, j as nat),
            forall|j: int| 4 <= j < 4 + m ==> key@[j] == be_byte(seq_no as nat, 8, (j - 4) as nat),
        decreases 8 - m,
    {
        let mut div: u64 = 1;
        let mut e: usize = 0;
        while e < 7 - m
            invariant
                e <= 7 - m,
                m < 8,
                div == pow256(e as nat),
                div >= 1,
                div <= 0x100_0000_0000_0000,
                e < 7 ==> div <= 0x1_0000_0000_0000,
                e < 6 ==> div <= 0x100_0000_0000,
                e < 5 ==> div <= 0x1_0000_0000,
                e < 4 ==> div <= 0x100_0000,
                e < 3 ==> div <= 0x1_0000,
                e < 2 ==> div <= 0x100,
                e < 1 ==> div <= 1,
            decreases 7 - m - e,
        {
            div = div * 256;
            e = e + 1;
            assert(pow256(e as nat) == 256 * pow256((e - 1) as nat));
        }
        key.push(((seq_no / div) % 256) as u8);
        m = m + 1;
    }
    assert(key@ =~= event_key(source_id, seq_no));
    key
}

} // verus!
