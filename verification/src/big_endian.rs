//! Fixed-width big-endian encoding of integers.
use vstd::prelude::*;

verus! {

/// The `width` lowest base-256 digits of `value`, most significant first.
pub open spec fn be_bytes(value: nat, width: nat) -> Seq<u8>
    decreases width,
{
    if width == 0 {
        Seq::empty()
    } else {
        be_bytes(value / 256, (width - 1) as nat).push((value % 256) as u8)
    }
}

/// The number that `bytes` denotes when read as base-256 digits, most significant first.
pub open spec fn be_value(bytes: Seq<u8>) -> nat
    decreases bytes.len(),
{
    if bytes.len() == 0 {
        0
    } else {
        be_value(bytes.drop_last()) * 256 + bytes.last() as nat
    }
}

/// The number of values that `width` bytes can hold.
pub open spec fn byte_range(width: nat) -> nat
    decreases width,
{
    if width == 0 {
        1
    } else {
        256 * byte_range((width - 1) as nat)
    }
}

/// An encoding has exactly the requested width.
pub proof fn be_bytes_width(value: nat, width: nat)
    ensures
        be_bytes(value, width).len() == width,
    decreases width,
{
    if width > 0 {
        be_bytes_width(value / 256, (width - 1) as nat);
    }
}

/// Reading an encoding back gives the encoded value, if the value fits the width.
pub proof fn be_bytes_round_trip(value: nat, width: nat)
    requires
        value < byte_range(width),
    ensures
        be_value(be_bytes(value, width)) == value,
    decreases width,
{
    if width > 0 {
        let high = be_bytes(value / 256, (width - 1) as nat);
        be_bytes_round_trip(value / 256, (width - 1) as nat);
        assert(high.push((value % 256) as u8).drop_last() =~= high);
    }
}

/// Encodings of one width are equal only for equal values.
pub proof fn be_bytes_injective(a: nat, b: nat, width: nat)
    requires
        a < byte_range(width),
        b < byte_range(width),
        be_bytes(a, width) == be_bytes(b, width),
    ensures
        a == b,
{
    be_bytes_round_trip(a, width);
    be_bytes_round_trip(b, width);
}

/// An encoding is the encoding of its upper part followed by that of its lower part.
pub proof fn be_bytes_concat(high: nat, low: nat, high_width: nat, low_width: nat)
    requires
        low < byte_range(low_width),
    ensures
        be_bytes(high * byte_range(low_width) + low, high_width + low_width) == be_bytes(
            high,
            high_width,
        ) + be_bytes(low, low_width),
    decreases low_width,
{
    if low_width == 0 {
        assert(be_bytes(high, high_width) + be_bytes(low, 0) =~= be_bytes(high, high_width));
    } else {
        let rest = (low_width - 1) as nat;
        let range = byte_range(rest);
        let whole = high * byte_range(low_width) + low;
        assert(high * (256 * range) == 256 * (high * range)) by (nonlinear_arith);
        assert(whole / 256 == high * range + low / 256);
        assert(whole % 256 == low % 256);
        be_bytes_concat(high, low / 256, high_width, rest);
        assert(be_bytes(high, high_width) + be_bytes(low / 256, rest).push((low % 256) as u8)
            =~= (be_bytes(high, high_width) + be_bytes(low / 256, rest)).push((low % 256) as u8));
    }
}

/// The widths that the messages use hold 64-bit and 128-bit values.
pub proof fn byte_range_words()
    ensures
        byte_range(8) == 0x1_0000_0000_0000_0000,
        byte_range(16) == 0x1_0000_0000_0000_0000_0000_0000_0000_0000,
{
    reveal_with_fuel(byte_range, 17);
}

/// Encodes `value` in eight bytes, most significant first.
pub fn u64_to_be_bytes(value: u64) -> (bytes: [u8; 8])
    ensures
        bytes@ == be_bytes(value as nat, 8),
        value == bytes@[0] * 0x100_0000_0000_0000 + bytes@[1] * 0x1_0000_0000_0000 + bytes@[2]
            * 0x100_0000_0000 + bytes@[3] * 0x1_0000_0000 + bytes@[4] * 0x100_0000 + bytes@[5]
            * 0x1_0000 + bytes@[6] * 0x100 + bytes@[7],
{
    let upper7: u64 = value / 256;
    let upper6: u64 = upper7 / 256;
    let upper5: u64 = upper6 / 256;
    let upper4: u64 = upper5 / 256;
    let upper3: u64 = upper4 / 256;
    let upper2: u64 = upper3 / 256;
    let upper1: u64 = upper2 / 256;
    let bytes: [u8; 8] = [
        (upper1 % 256) as u8,
        (upper2 % 256) as u8,
        (upper3 % 256) as u8,
        (upper4 % 256) as u8,
        (upper5 % 256) as u8,
        (upper6 % 256) as u8,
        (upper7 % 256) as u8,
        (value % 256) as u8,
    ];
    proof {
        reveal_with_fuel(be_bytes, 9);
        assert(bytes@ =~= be_bytes(value as nat, 8));
    }
    bytes
}

} // verus!
