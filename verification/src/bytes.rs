//! Little-endian encoding and decoding of 64-bit words, with the
//! round-trip fact the GOT validator rests on.

use vstd::prelude::*;

verus! {

/// The value of 8 little-endian bytes.
pub open spec fn spec_u64_from_le(b: Seq<u8>) -> u64
    recommends
        b.len() == 8,
{
    (b[0] + b[1] * 256 + b[2] * 65536 + b[3] * 16777216 + b[4] * 4294967296
        + b[5] * 1099511627776 + b[6] * 281474976710656 + b[7] * 72057594037927936) as u64
}

/// The 8 little-endian bytes of `v`.
pub open spec fn spec_u64_to_le(v: u64) -> Seq<u8> {
    seq![
        (v % 256) as u8,
        ((v / 256) % 256) as u8,
        ((v / 65536) % 256) as u8,
        ((v / 16777216) % 256) as u8,
        ((v / 4294967296) % 256) as u8,
        ((v / 1099511627776) % 256) as u8,
        ((v / 281474976710656) % 256) as u8,
        ((v / 72057594037927936) % 256) as u8,
    ]
}

/// Encoding then decoding a word gives the word back.
pub proof fn lemma_u64_le_round_trip(v: u64)
    ensures
        spec_u64_from_le(spec_u64_to_le(v)) == v,
{
    assert((((v % 256) as u8) + (((v / 256) % 256) as u8) * 256 + (((v / 65536) % 256) as u8)
        * 65536 + (((v / 16777216) % 256) as u8) * 16777216 + (((v / 4294967296) % 256) as u8)
        * 4294967296 + (((v / 1099511627776) % 256) as u8) * 1099511627776 + (((v
        / 281474976710656) % 256) as u8) * 281474976710656 + (((v / 72057594037927936) % 256)
        as u8) * 72057594037927936) as u64 == v) by (bit_vector);
}

/// Reads the 64-bit little-endian word at `offset`.
pub fn read_u64_le(data: &Vec<u8>, offset: usize) -> (r: u64)
    requires
        offset + 8 <= data@.len(),
    ensures
        r == spec_u64_from_le(data@.subrange(offset as int, offset + 8)),
{
    let n = data.len();
    proof {
        assert(offset + 8 <= n);
    }
    let b0 = data[offset] as u64;
    let b1 = data[offset + 1] as u64;
    let b2 = data[offset + 2] as u64;
    let b3 = data[offset + 3] as u64;
    let b4 = data[offset + 4] as u64;
    let b5 = data[offset + 5] as u64;
    let b6 = data[offset + 6] as u64;
    let b7 = data[offset + 7] as u64;
    let r = b0 + b1 * 256 + b2 * 65536 + b3 * 16777216 + b4 * 4294967296 + b5 * 1099511627776
        + b6 * 281474976710656 + b7 * 72057594037927936;
    proof {
        let s = data@.subrange(offset as int, offset + 8);
        assert(s[0] == data@[offset as int]);
        assert(s[1] == data@[offset + 1]);
        assert(s[2] == data@[offset + 2]);
        assert(s[3] == data@[offset + 3]);
        assert(s[4] == data@[offset + 4]);
        assert(s[5] == data@[offset + 5]);
        assert(s[6] == data@[offset + 6]);
        assert(s[7] == data@[offset + 7]);
    }
    r
}

/// Appends the 8 little-endian bytes of `v` to `out`.
pub fn write_u64_le(out: &mut Vec<u8>, v: u64)
    ensures
        final(out)@ == old(out)@ + spec_u64_to_le(v),
        final(out)@.len() == old(out)@.len() + 8,
{
    out.push((v % 256) as u8);
    out.push(((v / 256) % 256) as u8);
    out.push(((v / 65536) % 256) as u8);
    out.push(((v / 16777216) % 256) as u8);
    out.push(((v / 4294967296) % 256) as u8);
    out.push(((v / 1099511627776) % 256) as u8);
    out.push(((v / 281474976710656) % 256) as u8);
    out.push(((v / 72057594037927936) % 256) as u8);
    proof {
        assert(out@ =~= old(out)@ + spec_u64_to_le(v));
    }
}

} // verus!
