//! Decimal integer numerals as the standard library's `FromStr` for the
//! primitive integers reads them: an optional sign followed by one or more
//! ASCII digits, with no surrounding whitespace, in range of the target type.

use vstd::prelude::*;
use vstd::string::StringSliceAdditionalSpecFns;

verus! {

pub open spec fn is_digit(b: u8) -> bool {
    0x30 <= b <= 0x39
}

pub open spec fn all_digits(d: Seq<u8>) -> bool {
    forall|i: int| 0 <= i < d.len() ==> is_digit(#[trigger] d[i])
}

/// The value of a run of decimal digits, most significant first.
pub open spec fn digits_value(d: Seq<u8>) -> int
    decreases d.len(),
{
    if d.len() == 0 {
        0
    } else {
        digits_value(d.drop_last()) * 10 + (d.last() - 0x30)
    }
}

/// The integer a numeral denotes, or `None` when the bytes are no numeral.
/// A leading `-` is a sign only where `signed` holds; `+` always is.
pub open spec fn numeral_value(b: Seq<u8>, signed: bool) -> Option<int> {
    if b.len() > 0 && b[0] == 0x2d && signed {
        let d = b.drop_first();
        if d.len() > 0 && all_digits(d) {
            Some(-digits_value(d))
        } else {
            None
        }
    } else if b.len() > 0 && b[0] == 0x2b {
        let d = b.drop_first();
        if d.len() > 0 && all_digits(d) {
            Some(digits_value(d))
        } else {
            None
        }
    } else if b.len() > 0 && all_digits(b) {
        Some(digits_value(b))
    } else {
        None
    }
}

/// The value of a numeral when it lies in `lo..=hi`.
pub open spec fn numeral_in_range(b: Seq<u8>, signed: bool, lo: int, hi: int) -> Option<int> {
    match numeral_value(b, signed) {
        Some(v) => if lo <= v <= hi {
            Some(v)
        } else {
            None
        },
        None => None,
    }
}

pub open spec fn parse_i32_spec(s: Seq<u8>) -> Option<int> {
    numeral_in_range(s, true, i32::MIN as int, i32::MAX as int)
}

pub open spec fn parse_u8_spec(s: Seq<u8>) -> Option<int> {
    numeral_in_range(s, false, 0, u8::MAX as int)
}

proof fn lemma_digits_nonneg(d: Seq<u8>)
    requires
        all_digits(d),
    ensures
        digits_value(d) >= 0,
    decreases d.len(),
{
    if d.len() > 0 {
        assert(all_digits(d.drop_last()));
        lemma_digits_nonneg(d.drop_last());
        assert(is_digit(d[d.len() - 1]));
    }
}

/// A longer run of digits never denotes less than its prefix.
proof fn lemma_digits_prefix_monotone(d: Seq<u8>, k: int)
    requires
        all_digits(d),
        0 <= k <= d.len(),
    ensures
        digits_value(d.take(k)) <= digits_value(d),
    decreases d.len() - k,
{
    if k < d.len() {
        let p = d.take(k + 1);
        assert(p.drop_last() =~= d.take(k));
        assert(all_digits(d.take(k)));
        lemma_digits_nonneg(d.take(k));
        assert(is_digit(d[k]));
        lemma_digits_prefix_monotone(d, k + 1);
    } else {
        assert(d.take(k) =~= d);
    }
}

/// Reads `bytes[start..]` as a run of digits whose value may not exceed `cap`.
fn digits_up_to(bytes: &[u8], start: usize, cap: u64) -> (r: Option<u64>)
    requires
        start < bytes@.len(),
        cap <= 0x1_0000_0000,
    ensures
        match r {
            Some(v) => all_digits(bytes@.skip(start as int)) && v == digits_value(
                bytes@.skip(start as int),
            ) && v <= cap,
            None => !all_digits(bytes@.skip(start as int)) || digits_value(
                bytes@.skip(start as int),
            ) > cap,
        },
{
    let ghost d = bytes@.skip(start as int);
    let mut acc: u64 = 0;
    let mut i: usize = start;
    while i < bytes.len()
        invariant
            start <= i <= bytes@.len(),
            cap <= 0x1_0000_0000,
            d == bytes@.skip(start as int),
            all_digits(d.take(i - start)),
            acc == digits_value(d.take(i - start)),
            acc <= cap,
        decreases bytes.len() - i,
    {
        let b = bytes[i];
        if b < 0x30 || b > 0x39 {
            proof {
                assert(d[i - start] == b);
                assert(!is_digit(d[i - start]));
            }
            return None;
        }
        proof {
            let p = d.take(i - start + 1);
            assert(p.drop_last() =~= d.take(i - start));
            assert(p.last() == b);
            assert forall|j: int| 0 <= j < p.len() implies is_digit(#[trigger] p[j]) by {
                if j < p.len() - 1 {
                    assert(p[j] == d.take(i - start)[j]);
                }
            }
        }
        acc = acc * 10 + (b - 0x30) as u64;
        i = i + 1;
        if acc > cap {
            proof {
                let k = i - start;
                if all_digits(d) {
                    lemma_digits_prefix_monotone(d, k);
                }
            }
            return None;
        }
    }
    proof {
        assert(d.take(i - start) =~= d);
    }
    Some(acc)
}

/// Reads a decimal numeral whose value lies in `lo..=hi`.
fn parse_numeral(s: &str, signed: bool, lo: i64, hi: i64) -> (r: Option<i64>)
    requires
        -0x8000_0000 <= lo <= 0,
        0 <= hi <= 0x7fff_ffff,
    ensures
        match r {
            Some(v) => numeral_in_range(s.spec_bytes(), signed, lo as int, hi as int) == Some(
                v as int,
            ),
            None => numeral_in_range(s.spec_bytes(), signed, lo as int, hi as int) is None,
        },
{
    let bytes = s.as_bytes();
    let ghost b = bytes@;
    if bytes.len() == 0 {
        return None;
    }
    if bytes[0] == 0x2d && signed {
        if bytes.len() == 1 {
            return None;
        }
        let cap = (0 - lo) as u64;
        proof {
            assert(b.skip(1) =~= b.drop_first());
        }
        match digits_up_to(bytes, 1, cap) {
            Some(m) => Some(0 - (m as i64)),
            None => None,
        }
    } else if bytes[0] == 0x2b {
        if bytes.len() == 1 {
            return None;
        }
        proof {
            assert(b.skip(1) =~= b.drop_first());
        }
        match digits_up_to(bytes, 1, hi as u64) {
            Some(m) => Some(m as i64),
            None => None,
        }
    } else {
        proof {
            assert(b.skip(0) =~= b);
        }
        match digits_up_to(bytes, 0, hi as u64) {
            Some(m) => Some(m as i64),
            None => None,
        }
    }
}

/// Reads a signed 32-bit decimal numeral.
pub fn parse_i32(s: &str) -> (r: Option<i32>)
    ensures
        match r {
            Some(v) => parse_i32_spec(s.spec_bytes()) == Some(v as int),
            None => parse_i32_spec(s.spec_bytes()) is None,
        },
{
    match parse_numeral(s, true, -0x8000_0000, 0x7fff_ffff) {
        Some(v) => Some(v as i32),
        None => None,
    }
}

/// Reads an unsigned 8-bit decimal numeral.
pub fn parse_u8(s: &str) -> (r: Option<u8>)
    ensures
        match r {
            Some(v) => parse_u8_spec(s.spec_bytes()) == Some(v as int),
            None => parse_u8_spec(s.spec_bytes()) is None,
        },
{
    match parse_numeral(s, false, 0, 0xff) {
        Some(v) => Some(v as u8),
        None => None,
    }
}

} // verus!
