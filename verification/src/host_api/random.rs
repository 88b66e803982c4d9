//! The random numbers of the host: the time mixed with a counter. They
//! change from call to call and are not fit for cryptography.

use vstd::prelude::*;
use crate::dataplane::event::now_nanos;

verus! {

/// The multiplier of the mixer.
pub const MIX_MULTIPLIER: u64 = 6364136223846793005;

/// The number made of a time stamp and a call count: the time stamp times
/// the multiplier, plus the count, both wrapping around.
pub open spec fn mix(ts: u64, count: u64) -> u64 {
    ts.wrapping_mul(MIX_MULTIPLIER).wrapping_add(count)
}

/// The number of `min..max` that a random number picks: `min` plus the
/// number's remainder by the width of the range; `min` for an empty
/// range.
pub open spec fn pick(rand: u64, min: i64, max: i64) -> int {
    if min >= max {
        min as int
    } else {
        min + (rand as int) % (max - min)
    }
}

/// The byte at place `k` of the eight bytes of a number, the lowest
/// first.
pub open spec fn byte_of(rand: u64, k: nat) -> u8 {
    ((rand as nat / pow256(k)) % 256) as u8
}

/// 256 to the power of `k`.
pub open spec fn pow256(k: nat) -> nat
    decreases k,
{
    if k == 0 {
        1
    } else {
        256 * pow256((k - 1) as nat)
    }
}

/// The bytes that a list of random numbers gives: eight from each number,
/// the lowest byte first, the numbers in order.
pub open spec fn bytes_of(rands: Seq<u64>, n: nat) -> Seq<u8> {
    Seq::new(n, |i: int| byte_of(rands[i / 8], (i % 8) as nat))
}

/// The number of random numbers that `n` bytes take: one for every eight
/// bytes or part of them.
pub open spec fn numbers_for(n: nat) -> nat {
    (n + 7) / 8
}

/// The call count after `k` more calls, wrapping around.
pub open spec fn calls_after(from: u64, k: nat) -> u64 {
    ((from + k) % 0x1_0000_0000_0000_0000) as u64
}

/// The random numbers that the time stamps give from a call count on:
/// each time stamp mixed with the call count of its call.
pub open spec fn drawn(stamps: Seq<u64>, from: u64) -> Seq<u64> {
    Seq::new(stamps.len(), |k: int| mix(stamps[k], calls_after(from, (k + 1) as nat)))
}

/// The random number generator.
pub struct RandomAPI {
    calls: u64,
}

impl RandomAPI {
    /// The number of random numbers made so far.
    pub closed spec fn spec_calls(&self) -> u64 {
        self.calls
    }

    /// A generator that has made no number yet.
    pub fn new() -> (r: RandomAPI)
        ensures
            r.spec_calls() == 0,
    {
        RandomAPI { calls: 0 }
    }

    /// The number made of a time stamp and a call count.
    pub fn mixed(ts: u64, count: u64) -> (r: u64)
        ensures
            r == mix(ts, count),
    {
        ts.wrapping_mul(MIX_MULTIPLIER).wrapping_add(count)
    }

    /// A random number: the current time mixed with the call count, which
    /// goes up by one.
    pub fn random_u64(&mut self) -> (r: u64)
        ensures
            final(self).spec_calls() == old(self).spec_calls().wrapping_add(1),
            exists|ts: u64| r == #[trigger] mix(ts, final(self).spec_calls()),
    {
        self.calls = self.calls.wrapping_add(1);
        let ts = now_nanos();
        let r = Self::mixed(ts, self.calls);
        assert(r == mix(ts, self.spec_calls()));
        r
    }

    /// The upper half of a random number.
    pub fn upper_half(rand: u64) -> (r: u32)
        ensures
            r == rand / 0x1_0000_0000,
    {
        assert(rand >> 32 == rand / 0x1_0000_0000) by (bit_vector);
        assert(rand / 0x1_0000_0000 <= 0xffff_ffff) by (bit_vector);
        (rand >> 32) as u32
    }

    /// A random number of 32 bits: the upper half of one of 64 bits.
    pub fn random_u32(&mut self) -> (r: u32)
        ensures
            final(self).spec_calls() == old(self).spec_calls().wrapping_add(1),
            exists|ts: u64| r == #[trigger] mix(ts, final(self).spec_calls()) / 0x1_0000_0000,
    {
        let rand = self.random_u64();
        Self::upper_half(rand)
    }

    /// The upper 53 bits of a number: as many as the fraction of a
    /// double holds, so that this many steps of 2 to the power of -53 give
    /// a fraction below one.
    pub fn fraction_steps(rand: u64) -> (r: u64)
        ensures
            r == rand / 2048,
            r < 0x20_0000_0000_0000,
    {
        assert(rand >> 11 == rand / 2048) by (bit_vector);
        assert(rand / 2048 < 0x20_0000_0000_0000) by (bit_vector);
        rand >> 11
    }

    /// A random fraction below one, in steps of 2 to the power of -53:
    /// the upper 53 bits of a random number of 64 bits.
    pub fn random_fraction(&mut self) -> (r: u64)
        ensures
            final(self).spec_calls() == old(self).spec_calls().wrapping_add(1),
            exists|ts: u64| r == #[trigger] mix(ts, final(self).spec_calls()) / 2048,
            r < 0x20_0000_0000_0000,
    {
        let rand = self.random_u64();
        Self::fraction_steps(rand)
    }

    /// The byte at place `k` of the eight bytes of a number, the lowest
    /// first.
    pub fn byte_at(rand: u64, k: usize) -> (b: u8)
        requires
            k < 8,
        ensures
            b == byte_of(rand, k as nat),
    {
        let mut div: u64 = 1;
        let mut e: usize = 0;
        while e < k
            invariant
                e <= k,
                k < 8,
                div == pow256(e as nat),
                div >= 1,
                div <= 0x100_0000_0000_0000,
                e < 7 ==> div <= 0x1_0000_0000_0000,
                e < 6 ==> div <= 0x100_0000_0000,
                e < 5 ==> div <= 0x1_0000_0000,
                e < 4 ==> div <= 0x100_0000,
                e < 3 ==> div <= 0x1_0000,
                e < 2 ==> div <= 0x100,
                e < 1 ==> div <= 1,
            decreases k - e,
        {
            div = div * 256;
            e = e + 1;
            assert(pow256(e as nat) == 256 * pow256((e - 1) as nat));
        }
        ((rand / div) % 256) as u8
    }

    /// Fills `out` with the bytes of the random numbers, eight from each,
    /// the lowest byte first.
    pub fn fill_bytes(out: &mut Vec<u8>, rands: &Vec<u64>)
        requires
            old(out)@.len() <= rands@.len() * 8,
        ensures
            final(out)@ == bytes_of(rands@, old(out)@.len()),
    {
        let n: usize = out.len();
        let mut i: usize = 0;
        while i < n
            invariant
                i <= n,
                out@.len() == n,
                n <= rands@.len() * 8,
                forall|j: int| 0 <= j < i ==> out@[j] == byte_of(rands@[j / 8], (j % 8) as nat),
            decreases n - i,
        {
            out[i] = Self::byte_at(rands[i / 8], i % 8);
            i = i + 1;
        }
        assert(out@ =~= bytes_of(rands@, n as nat));
    }

    /// Fills `out` with random bytes, eight from each random number, the
    /// lowest byte first. One random number is made for every eight bytes
    /// or part of them, each of the time of its call and the call count,
    /// which goes up by one with it.
    pub fn random_bytes(&mut self, out: &mut Vec<u8>)
        ensures
            final(self).spec_calls() == calls_after(old(self).spec_calls(), numbers_for(old(out)@.len())),
            exists|stamps: Seq<u64>|
                stamps.len() == numbers_for(old(out)@.len()) && final(out)@ == bytes_of(
                    #[trigger] drawn(stamps, old(self).spec_calls()),
                    old(out)@.len(),
                ),
    {
        let n: usize = out.len();
        let needed: usize = if n % 8 == 0 {
            n / 8
        } else {
            n / 8 + 1
        };
        let ghost from = self.calls;
        let ghost mut stamps: Seq<u64> = Seq::empty();
        let mut rands: Vec<u64> = Vec::new();
        proof {
            assert(rands@ =~= drawn(stamps, from));
        }
        while rands.len() < needed
            invariant
                rands@.len() <= needed,
                needed == numbers_for(n as nat),
                n == out@.len(),
                stamps.len() == rands@.len(),
                rands@ == drawn(stamps, from),
                self.calls == calls_after(from, rands@.len()),
            decreases needed - rands@.len(),
        {
            let ghost before = rands@;
            let ghost shown = stamps;
            let r = self.random_u64();
            proof {
                let ts = choose|ts: u64| r == #[trigger] mix(ts, self.spec_calls());
                stamps = stamps.push(ts);
                assert(self.calls == calls_after(from, (before.len() + 1) as nat));
                assert(before.push(r) =~= drawn(stamps, from)) by {
                    assert forall|k: int| 0 <= k < stamps.len() implies before.push(r)[k] == drawn(stamps, from)[k] by {
                        if k < before.len() {
                            assert(before[k] == drawn(shown, from)[k]);
                            assert(stamps[k] == shown[k]);
                        }
                    }
                }
            }
            rands.push(r);
        }
        Self::fill_bytes(out, &rands);
        proof {
            assert(n == old(out)@.len());
            assert(from == old(self).spec_calls());
            assert(stamps.len() == numbers_for(old(out)@.len()));
            assert(out@ == bytes_of(drawn(stamps, old(self).spec_calls()), old(out)@.len()));
        }
    }

    /// The number of `min..max` that `rand` picks.
    pub fn pick_in_range(rand: u64, min: i64, max: i64) -> (r: i64)
        ensures
            r == pick(rand, min, max),
            min < max ==> min <= r < max,
            min >= max ==> r == min,
    {
        if min >= max {
            return min;
        }
        let range: u64 = (max as i128 - min as i128) as u64;
        let offset: u64 = rand % range;
        (min as i128 + offset as i128) as i64
    }

    /// A random number of `min..max`; `min` for an empty range.
    pub fn random_range(&mut self, min: i64, max: i64) -> (r: i64)
        ensures
            final(self).spec_calls() == if min >= max {
                old(self).spec_calls()
            } else {
                old(self).spec_calls().wrapping_add(1)
            },
            min < max ==> min <= r < max,
            min < max ==> exists|ts: u64| r == pick(#[trigger] mix(ts, final(self).spec_calls()), min, max),
            min >= max ==> r == min,
    {
        if min >= max {
            return min;
        }
        let rand = self.random_u64();
        Self::pick_in_range(rand, min, max)
    }

    /// The number of random numbers made so far.
    pub fn get_call_count(&self) -> (n: u64)
        ensures
            n == self.spec_calls(),
    {
        self.calls
    }
}

} // verus!
