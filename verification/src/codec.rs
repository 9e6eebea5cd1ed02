//! Byte-level helpers for the persisted-state blob and the input port: a
//! little-endian 64-bit codec, the packed gamepad byte, and raw byte copies.

use vstd::prelude::*;
use crate::input::GamepadState;

verus! {

/// The eight little-endian bytes of a 64-bit value.
pub open spec fn u64_le_bytes(x: u64) -> Seq<u8> {
    seq![
        #[verifier::truncate] (x as u8),
        #[verifier::truncate] ((x >> 8) as u8),
        #[verifier::truncate] ((x >> 16) as u8),
        #[verifier::truncate] ((x >> 24) as u8),
        #[verifier::truncate] ((x >> 32) as u8),
        #[verifier::truncate] ((x >> 40) as u8),
        #[verifier::truncate] ((x >> 48) as u8),
        #[verifier::truncate] ((x >> 56) as u8),
    ]
}

/// The 64-bit value read from eight little-endian bytes.
pub open spec fn u64_from_le(s: Seq<u8>) -> u64
    recommends
        s.len() == 8,
{
    (s[0] as u64) | ((s[1] as u64) << 8) | ((s[2] as u64) << 16) | ((s[3] as u64) << 24) | ((
    s[4] as u64) << 32) | ((s[5] as u64) << 40) | ((s[6] as u64) << 48) | ((s[7] as u64) << 56)
}

/// Reading back the eight little-endian bytes of a value yields the value.
pub proof fn lemma_u64_le_round_trip(x: u64)
    ensures
        u64_from_le(u64_le_bytes(x)) == x,
{
    let s = u64_le_bytes(x);
    assert((#[verifier::truncate] (x as u8) as u64) | ((#[verifier::truncate] ((x >> 8) as u8) as u64)
        << 8) | ((#[verifier::truncate] ((x >> 16) as u8) as u64) << 16) | ((#[verifier::truncate] ((
    x >> 24) as u8) as u64) << 24) | ((#[verifier::truncate] ((x >> 32) as u8) as u64) << 32) | ((
    #[verifier::truncate] ((x >> 40) as u8) as u64) << 40) | ((#[verifier::truncate] ((x
        >> 48) as u8) as u64) << 48) | ((#[verifier::truncate] ((x >> 56) as u8) as u64) << 56)
        == x) by (bit_vector);
}

/// The packed input-port byte: one bit per button, in hardware report order
/// (A, B, Select, Start, Up, Down, Left, Right from least to most
/// significant).
pub open spec fn gamepad_bits(g: GamepadState) -> u8 {
    (if g.a {
        0x01u8
    } else {
        0u8
    }) | (if g.b {
        0x02u8
    } else {
        0u8
    }) | (if g.select {
        0x04u8
    } else {
        0u8
    }) | (if g.start {
        0x08u8
    } else {
        0u8
    }) | (if g.up {
        0x10u8
    } else {
        0u8
    }) | (if g.down {
        0x20u8
    } else {
        0u8
    }) | (if g.left {
        0x40u8
    } else {
        0u8
    }) | (if g.right {
        0x80u8
    } else {
        0u8
    })
}

/// The gamepad read back from a packed input-port byte.
pub open spec fn gamepad_from_bits(v: u8) -> GamepadState {
    GamepadState {
        a: v & 0x01 != 0,
        b: v & 0x02 != 0,
        select: v & 0x04 != 0,
        start: v & 0x08 != 0,
        up: v & 0x10 != 0,
        down: v & 0x20 != 0,
        left: v & 0x40 != 0,
        right: v & 0x80 != 0,
    }
}

/// Unpacking the packed byte of a gamepad yields the gamepad: the eight
/// flags occupy disjoint bits.
pub proof fn lemma_gamepad_bits_round_trip(g: GamepadState)
    ensures
        gamepad_from_bits(gamepad_bits(g)) == g,
{
    let a = g.a;
    let b = g.b;
    let se = g.select;
    let st = g.start;
    let up = g.up;
    let dn = g.down;
    let lf = g.left;
    let rt = g.right;
    let v = gamepad_bits(g);
    assert(v == (if a {
        0x01u8
    } else {
        0u8
    }) | (if b {
        0x02u8
    } else {
        0u8
    }) | (if se {
        0x04u8
    } else {
        0u8
    }) | (if st {
        0x08u8
    } else {
        0u8
    }) | (if up {
        0x10u8
    } else {
        0u8
    }) | (if dn {
        0x20u8
    } else {
        0u8
    }) | (if lf {
        0x40u8
    } else {
        0u8
    }) | (if rt {
        0x80u8
    } else {
        0u8
    }));
    assert({
        let w = (if a {
            0x01u8
        } else {
            0u8
        }) | (if b {
            0x02u8
        } else {
            0u8
        }) | (if se {
            0x04u8
        } else {
            0u8
        }) | (if st {
            0x08u8
        } else {
            0u8
        }) | (if up {
            0x10u8
        } else {
            0u8
        }) | (if dn {
            0x20u8
        } else {
            0u8
        }) | (if lf {
            0x40u8
        } else {
            0u8
        }) | (if rt {
            0x80u8
        } else {
            0u8
        });
        (w & 0x01 != 0) == a && (w & 0x02 != 0) == b && (w & 0x04 != 0) == se && (w & 0x08 != 0)
            == st && (w & 0x10 != 0) == up && (w & 0x20 != 0) == dn && (w & 0x40 != 0) == lf && (w
            & 0x80 != 0) == rt
    }) by (bit_vector);
}

/// Packs the gamepad into its input-port byte.
pub fn pack_gamepad(g: &GamepadState) -> (v: u8)
    ensures
        v == gamepad_bits(*g),
{
    (if g.a {
        0x01u8
    } else {
        0u8
    }) | (if g.b {
        0x02u8
    } else {
        0u8
    }) | (if g.select {
        0x04u8
    } else {
        0u8
    }) | (if g.start {
        0x08u8
    } else {
        0u8
    }) | (if g.up {
        0x10u8
    } else {
        0u8
    }) | (if g.down {
        0x20u8
    } else {
        0u8
    }) | (if g.left {
        0x40u8
    } else {
        0u8
    }) | (if g.right {
        0x80u8
    } else {
        0u8
    })
}

/// Unpacks an input-port byte into a gamepad.
pub fn unpack_gamepad(v: u8) -> (g: GamepadState)
    ensures
        g == gamepad_from_bits(v),
{
    GamepadState {
        a: v & 0x01 != 0,
        b: v & 0x02 != 0,
        select: v & 0x04 != 0,
        start: v & 0x08 != 0,
        up: v & 0x10 != 0,
        down: v & 0x20 != 0,
        left: v & 0x40 != 0,
        right: v & 0x80 != 0,
    }
}

/// Appends the eight little-endian bytes of `x`.
pub fn push_u64_le(out: &mut Vec<u8>, x: u64)
    ensures
        final(out)@ == old(out)@ + u64_le_bytes(x),
{
    out.push(#[verifier::truncate] (x as u8));
    out.push(#[verifier::truncate] ((x >> 8) as u8));
    out.push(#[verifier::truncate] ((x >> 16) as u8));
    out.push(#[verifier::truncate] ((x >> 24) as u8));
    out.push(#[verifier::truncate] ((x >> 32) as u8));
    out.push(#[verifier::truncate] ((x >> 40) as u8));
    out.push(#[verifier::truncate] ((x >> 48) as u8));
    out.push(#[verifier::truncate] ((x >> 56) as u8));
    proof {
        assert(out@ =~= old(out)@ + u64_le_bytes(x));
    }
}

/// Reads the 64-bit little-endian value at `off`.
pub fn read_u64_le(b: &Vec<u8>, off: usize) -> (x: u64)
    requires
        off + 8 <= b@.len(),
    ensures
        x == u64_from_le(b@.subrange(off as int, off as int + 8)),
{
    let _blen: usize = b.len();
    let x: u64 = (b[off] as u64) | ((b[off + 1] as u64) << 8u64) | ((b[off + 2] as u64) << 16u64)
        | ((b[off + 3] as u64) << 24u64) | ((b[off + 4] as u64) << 32u64) | ((b[off + 5] as u64)
        << 40u64) | ((b[off + 6] as u64) << 48u64) | ((b[off + 7] as u64) << 56u64);
    proof {
        let s = b@.subrange(off as int, off as int + 8);
        assert(s[0] == b@[off as int]);
        assert(s[1] == b@[off + 1]);
        assert(s[2] == b@[off + 2]);
        assert(s[3] == b@[off + 3]);
        assert(s[4] == b@[off + 4]);
        assert(s[5] == b@[off + 5]);
        assert(s[6] == b@[off + 6]);
        assert(s[7] == b@[off + 7]);
    }
    x
}

/// Appends every byte of `src`.
pub fn push_bytes(out: &mut Vec<u8>, src: &Vec<u8>)
    ensures
        final(out)@ == old(out)@ + src@,
{
    let n = src.len();
    let mut i: usize = 0;
    while i < n
        invariant
            n == src@.len(),
            i <= n,
            out@ == old(out)@ + src@.take(i as int),
        decreases n - i,
    {
        out.push(src[i]);
        proof {
            assert(old(out)@ + src@.take(i + 1) =~= (old(out)@ + src@.take(i as int)).push(
                src@[i as int],
            ));
        }
        i = i + 1;
    }
    proof {
        assert(src@.take(n as int) =~= src@);
    }
}

/// Copies `n` bytes starting at `off` into a fresh vector.
pub fn copy_range(b: &Vec<u8>, off: usize, n: usize) -> (v: Vec<u8>)
    requires
        off + n <= b@.len(),
    ensures
        v@ == b@.subrange(off as int, off + n),
{
    let _blen: usize = b.len();
    let mut v: Vec<u8> = Vec::new();
    let mut i: usize = 0;
    while i < n
        invariant
            off + n <= b@.len(),
            b@.len() <= usize::MAX,
            i <= n,
            v@ == b@.subrange(off as int, off + i),
        decreases n - i,
    {
        v.push(b[off + i]);
        proof {
            assert(b@.subrange(off as int, off + i + 1) =~= b@.subrange(off as int, off + i).push(
                b@[off + i],
            ));
        }
        i = i + 1;
    }
    v
}

} // verus!
