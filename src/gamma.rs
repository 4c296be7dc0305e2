//! The gamma code: the variable-length unsigned integers that stand for every
//! length and every sparse index of the chunk stream.
//!
//! The number of leading one bits of the first byte tells how many bytes
//! follow: `0xxxxxxx` is one byte, `10xxxxxx` two, `110xxxxx` three,
//! `1110xxxx` four and `11110xxx` five; the remaining bits, most significant
//! first, hold the value. A first byte with five leading one bits is
//! malformed.
use vstd::prelude::*;

use crate::error::{CoreError, Fault};

verus! {

/// How many bytes a gamma code takes, read off its first byte. A first byte
/// of `0xF8` or more starts no code at all (see `gamma_decoded`).
pub open spec fn gamma_width(b0: u8) -> nat {
    if b0 < 0x80 {
        1
    } else if b0 < 0xC0 {
        2
    } else if b0 < 0xE0 {
        3
    } else if b0 < 0xF0 {
        4
    } else {
        5
    }
}

/// The value that the first `gamma_width(b[0])` bytes of `b` hold.
pub open spec fn gamma_value(b: Seq<u8>) -> nat
    recommends
        b.len() >= gamma_width(b[0]),
{
    let w = gamma_width(b[0]);
    if w == 1 {
        b[0] as nat
    } else if w == 2 {
        ((b[0] - 0x80) * 0x100 + b[1]) as nat
    } else if w == 3 {
        ((b[0] - 0xC0) * 0x1_0000 + b[1] * 0x100 + b[2]) as nat
    } else if w == 4 {
        ((b[0] - 0xE0) * 0x100_0000 + b[1] * 0x1_0000 + b[2] * 0x100 + b[3]) as nat
    } else {
        ((b[0] % 8) * 0x1_0000_0000 + b[1] * 0x100_0000 + b[2] * 0x1_0000 + b[3] * 0x100
            + b[4]) as nat
    }
}

/// The gamma code at the front of `b`: its value and its width. It fails as
/// `Truncated` where `b` ends before the code does, and as `Malformed` where
/// the first byte starts with five one bits.
pub open spec fn gamma_decoded(b: Seq<u8>) -> Result<(nat, nat), Fault> {
    if b.len() == 0 {
        Err(Fault::Truncated)
    } else if b[0] >= 0xF8 {
        Err(Fault::Malformed)
    } else if b.len() < gamma_width(b[0]) {
        Err(Fault::Truncated)
    } else {
        Ok((gamma_value(b), gamma_width(b[0])))
    }
}

/// The largest value, plus one, that a code of `n` bytes (one to four) holds.
pub open spec fn gamma_limit(n: nat) -> nat {
    if n == 1 {
        0x80
    } else if n == 2 {
        0x4000
    } else if n == 3 {
        0x20_0000
    } else {
        0x1000_0000
    }
}

/// The bytes that `encode_gamma` writes for `v`. A value of 2^28 or more takes
/// five bytes, of which the last four hold its low 32 bits.
pub open spec fn gamma_encoded(v: u64) -> Seq<u8> {
    if v < 0x80 {
        seq![v as u8]
    } else if v < 0x4000 {
        seq![(0x80 + v / 0x100) as u8, (v % 0x100) as u8]
    } else if v < 0x20_0000 {
        seq![(0xC0 + v / 0x1_0000) as u8, (v / 0x100 % 0x100) as u8, (v % 0x100) as u8]
    } else if v < 0x1000_0000 {
        seq![
            (0xE0 + v / 0x100_0000) as u8,
            (v / 0x1_0000 % 0x100) as u8,
            (v / 0x100 % 0x100) as u8,
            (v % 0x100) as u8,
        ]
    } else {
        seq![
            0xF0u8,
            (v / 0x100_0000 % 0x100) as u8,
            (v / 0x1_0000 % 0x100) as u8,
            (v / 0x100 % 0x100) as u8,
            (v % 0x100) as u8,
        ]
    }
}

/// Reads the gamma code at the front of `buf`: its value and the number of
/// bytes it took. A buffer that ends before the code does gives
/// `UnexpectedEof`; a first byte of `0xF8` or more gives `InvalidData`.
pub fn decode_gamma(buf: &[u8]) -> (r: Result<(u64, usize), CoreError>)
    ensures
        match gamma_decoded(buf@) {
            Err(f) => r is Err && r->Err_0.fault() == f,
            Ok((v, n)) => r is Ok && r->Ok_0.0 == v && r->Ok_0.1 == n,
        },
{
    if buf.len() == 0 {
        return Err(CoreError::UnexpectedEof);
    }
    let first_byte = buf[0];
    if first_byte < 0x80 {
        return Ok((first_byte as u64, 1));
    }
    let byte_count: usize = if first_byte < 0xC0 {
        2
    } else if first_byte < 0xE0 {
        3
    } else if first_byte < 0xF0 {
        4
    } else {
        5
    };
    if first_byte >= 0xF8 {
        return Err(CoreError::InvalidData(String::from_str("malformed gamma code")));
    }
    if buf.len() < byte_count {
        return Err(CoreError::UnexpectedEof);
    }
    let value: u64 = if byte_count == 2 {
        (first_byte - 0x80) as u64 * 0x100 + buf[1] as u64
    } else if byte_count == 3 {
        (first_byte - 0xC0) as u64 * 0x1_0000 + buf[1] as u64 * 0x100 + buf[2] as u64
    } else if byte_count == 4 {
        (first_byte - 0xE0) as u64 * 0x100_0000 + buf[1] as u64 * 0x1_0000 + buf[2] as u64
            * 0x100 + buf[3] as u64
    } else {
        (first_byte % 8) as u64 * 0x1_0000_0000 + buf[1] as u64 * 0x100_0000 + buf[2] as u64
            * 0x1_0000 + buf[3] as u64 * 0x100 + buf[4] as u64
    };
    Ok((value, byte_count))
}

/// Writes `value` in the shortest gamma code that holds it.
pub fn encode_gamma(value: u64) -> (r: Vec<u8>)
    ensures
        r@ == gamma_encoded(value),
        1 <= r@.len() <= 5,
        forall|n: nat| 1 <= n <= 4 ==> (value < gamma_limit(n) <==> r@.len() <= n),
{
    if value < 0x80 {
        vec![value as u8]
    } else if value < 0x4000 {
        vec![(0x80 + value / 0x100) as u8, (value % 0x100) as u8]
    } else if value < 0x20_0000 {
        vec![
            (0xC0 + value / 0x1_0000) as u8,
            (value / 0x100 % 0x100) as u8,
            (value % 0x100) as u8,
        ]
    } else if value < 0x1000_0000 {
        vec![
            (0xE0 + value / 0x100_0000) as u8,
            (value / 0x1_0000 % 0x100) as u8,
            (value / 0x100 % 0x100) as u8,
            (value % 0x100) as u8,
        ]
    } else {
        vec![
            0xF0u8,
            (value / 0x100_0000 % 0x100) as u8,
            (value / 0x1_0000 % 0x100) as u8,
            (value / 0x100 % 0x100) as u8,
            (value % 0x100) as u8,
        ]
    }
}

/// Decoding what `encode_gamma` wrote gives the value back, together with
/// the number of bytes written, for every value below 2^32; and no value
/// takes more bytes than the shortest code that holds it.
pub proof fn lemma_gamma_round_trip(v: u64)
    requires
        v < 0x1_0000_0000,
    ensures
        gamma_decoded(gamma_encoded(v)) == Ok::<(nat, nat), Fault>((v as nat, gamma_encoded(v).len())),
        forall|n: nat| 1 <= n <= 4 ==> (v < gamma_limit(n) <==> gamma_encoded(v).len() <= n),
{
    let e = gamma_encoded(v);
    if v < 0x80 {
    } else if v < 0x4000 {
        assert(gamma_value(e) == v) by (nonlinear_arith)
            requires
                e[0] == (0x80 + v / 0x100) as u8,
                e[1] == (v % 0x100) as u8,
                gamma_width(e[0]) == 2,
                0x80 <= v < 0x4000,
        {
        }
    } else if v < 0x20_0000 {
        assert(gamma_value(e) == v) by (nonlinear_arith)
            requires
                e[0] == (0xC0 + v / 0x1_0000) as u8,
                e[1] == (v / 0x100 % 0x100) as u8,
                e[2] == (v % 0x100) as u8,
                gamma_width(e[0]) == 3,
                0x4000 <= v < 0x20_0000,
        {
        }
    } else if v < 0x1000_0000 {
        assert(gamma_value(e) == v) by (nonlinear_arith)
            requires
                e[0] == (0xE0 + v / 0x100_0000) as u8,
                e[1] == (v / 0x1_0000 % 0x100) as u8,
                e[2] == (v / 0x100 % 0x100) as u8,
                e[3] == (v % 0x100) as u8,
                gamma_width(e[0]) == 4,
                0x20_0000 <= v < 0x1000_0000,
        {
        }
    } else {
        assert(gamma_value(e) == v) by (nonlinear_arith)
            requires
                e[0] == 0xF0u8,
                e[1] == (v / 0x100_0000 % 0x100) as u8,
                e[2] == (v / 0x1_0000 % 0x100) as u8,
                e[3] == (v / 0x100 % 0x100) as u8,
                e[4] == (v % 0x100) as u8,
                gamma_width(e[0]) == 5,
                0x1000_0000 <= v < 0x1_0000_0000,
        {
        }
    }
}

} // verus!
