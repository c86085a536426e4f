//! The stable application-identity checksum.
//!
//! An application's identity is a 32-bit checksum of its declared name, so
//! that the same name always yields the same identity across builds and
//! reboots. The checksum is the classic POSIX one: polynomial `0x04c1_1db7`,
//! zero initial state, no reflection, and a final bitwise complement.

use vstd::prelude::*;

verus! {

/// The checksum polynomial.
pub const CRC32_POLY: u32 = 0x04c1_1db7;

/// One shift-and-conditionally-xor round of the checksum state machine.
pub open spec fn crc32_round(c: u32) -> u32 {
    if c & 0x8000_0000u32 != 0 {
        (c << 1u32) ^ CRC32_POLY
    } else {
        c << 1u32
    }
}

/// `n` rounds applied to a checksum state.
pub open spec fn crc32_rounds(c: u32, n: nat) -> u32
    decreases n,
{
    if n == 0 {
        c
    } else {
        crc32_round(crc32_rounds(c, (n - 1) as nat))
    }
}

/// Folding one input byte into the checksum state: the byte enters at the
/// top of the register and is followed by eight rounds.
pub open spec fn crc32_feed(c: u32, b: u8) -> u32 {
    crc32_rounds(c ^ ((b as u32) << 24u32), 8)
}

/// The checksum register after all bytes of `s` have been fed, starting
/// from the zero state.
pub open spec fn crc32_state(s: Seq<u8>) -> u32
    decreases s.len(),
{
    if s.len() == 0 {
        0u32
    } else {
        crc32_feed(crc32_state(s.drop_last()), s.last())
    }
}

/// The checksum of a byte string: the final register, complemented.
pub open spec fn crc32_spec(s: Seq<u8>) -> u32 {
    !crc32_state(s)
}

/// Computes the POSIX 32-bit checksum of `s`.
pub fn crc(s: &[u8]) -> (r: u32)
    ensures
        r == crc32_spec(s@),
{
    let mut state: u32 = 0;
    let mut i: usize = 0;
    while i < s.len()
        invariant
            i <= s@.len(),
            state == crc32_state(s@.take(i as int)),
        decreases s@.len() - i,
    {
        let b = s[i];
        let mut c: u32 = state ^ ((b as u32) << 24u32);
        let ghost seed = c;
        let mut j: usize = 0;
        while j < 8
            invariant
                j <= 8,
                c == crc32_rounds(seed, j as nat),
            decreases 8 - j,
        {
            if c & 0x8000_0000u32 != 0 {
                c = (c << 1u32) ^ CRC32_POLY;
            } else {
                c = c << 1u32;
            }
            j = j + 1;
        }
        proof {
            assert(s@.take(i + 1).drop_last() =~= s@.take(i as int));
            assert(s@.take(i + 1).last() == s@[i as int]);
        }
        state = c;
        i = i + 1;
    }
    proof {
        assert(s@.take(s@.len() as int) =~= s@);
    }
    !state
}

/// Hashing the same name twice yields the same identity value: the identity
/// of a name is a function of the name's bytes alone, so any two results
/// computed for equal names are equal.
pub proof fn lemma_identity_deterministic(name: Seq<u8>, h1: u32, h2: u32)
    requires
        h1 == crc32_spec(name),
        h2 == crc32_spec(name),
    ensures
        h1 == h2,
{
}

} // verus!
