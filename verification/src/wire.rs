//! How registers and bits lie in the bytes of a frame.

use vstd::prelude::*;

verus! {

/// The 16-bit value of two bytes, most significant first.
pub open spec fn be16(hi: u8, lo: u8) -> u16 {
    (hi as int * 256 + lo as int) as u16
}

/// The most significant byte of a 16-bit value.
pub open spec fn high(v: u16) -> u8 {
    (v as int / 256) as u8
}

/// The least significant byte of a 16-bit value.
pub open spec fn low(v: u16) -> u8 {
    (v as int % 256) as u8
}

/// A 16-bit value as two bytes, most significant first.
pub open spec fn word(v: u16) -> Seq<u8> {
    seq![high(v), low(v)]
}

/// Two bytes, read as a 16-bit value and written out again, are the same two bytes.
pub proof fn lemma_word_of_be16(hi: u8, lo: u8)
    ensures
        word(be16(hi, lo)) == seq![hi, lo],
        be16(hi, lo) == 0 ==> hi == 0 && lo == 0,
{
    assert(word(be16(hi, lo)) =~= seq![hi, lo]);
}

/// Registers as bytes: two per register, most significant first.
pub open spec fn words(regs: Seq<u16>) -> Seq<u8> {
    Seq::new(
        2 * regs.len(),
        |i: int|
            if i % 2 == 0 {
                high(regs[i / 2])
            } else {
                low(regs[i / 2])
            },
    )
}

/// The registers that `bytes` spell out, two bytes each; a last odd byte is left out.
pub open spec fn unwords(bytes: Seq<u8>) -> Seq<u16> {
    Seq::new((bytes.len() / 2) as nat, |i: int| be16(bytes[2 * i], bytes[2 * i + 1]))
}

/// The value of bit `i` in a byte: 1, 2, 4, ..., 128.
pub open spec fn weight(i: int) -> int {
    if i == 0 {
        1
    } else if i == 1 {
        2
    } else if i == 2 {
        4
    } else if i == 3 {
        8
    } else if i == 4 {
        16
    } else if i == 5 {
        32
    } else if i == 6 {
        64
    } else {
        128
    }
}

/// Whether bit `i` of `byte` is set, bit 0 being the least significant.
pub open spec fn bit(byte: u8, i: int) -> bool {
    (byte as int / weight(i)) % 2 == 1
}

/// The first `count` bits of `bytes`: eight per byte, least significant first.
pub open spec fn unpack(bytes: Seq<u8>, count: nat) -> Seq<bool> {
    Seq::new(count, |k: int| bit(bytes[k / 8], k % 8))
}

/// What bit `k` of `bits` adds to its byte, counted as 1: bits past the end add nothing.
pub open spec fn flag(bits: Seq<bool>, k: int) -> int {
    if 0 <= k < bits.len() && bits[k] {
        1
    } else {
        0
    }
}

/// Byte `j` of the packed form of `bits`.
pub open spec fn packed(bits: Seq<bool>, j: int) -> u8 {
    (flag(bits, 8 * j) + 2 * flag(bits, 8 * j + 1) + 4 * flag(bits, 8 * j + 2) + 8 * flag(
        bits,
        8 * j + 3,
    ) + 16 * flag(bits, 8 * j + 4) + 32 * flag(bits, 8 * j + 5) + 64 * flag(bits, 8 * j + 6)
        + 128 * flag(bits, 8 * j + 7)) as u8
}

/// Bits as bytes: eight per byte, least significant first, the last byte filled with zeros.
pub open spec fn pack(bits: Seq<bool>) -> Seq<u8> {
    Seq::new(((bits.len() + 7) / 8) as nat, |j: int| packed(bits, j))
}

/// `table` with `values` written over it from index `at` on.
pub open spec fn splice<T>(table: Seq<T>, at: int, values: Seq<T>) -> Seq<T> {
    Seq::new(
        table.len(),
        |i: int|
            if at <= i < at + values.len() {
                values[i - at]
            } else {
                table[i]
            },
    )
}

} // verus!
