//! Fixed-point parsing of decimal price strings.
//!
//! A price string is split at its first decimal point; the bytes before it
//! form the integer part, the bytes between it and the next point (or the
//! end) form the fractional segment. The fractional segment must offer at
//! least six digits and is truncated — never rounded — to exactly its
//! first six.

use vstd::prelude::*;

use crate::errors::ParseError;

verus! {

/// ASCII code of the decimal point.
pub const DOT: u8 = 46;

/// One fractional unit is a millionth: fractions live in `[0, 999_999]`.
pub const FRACTION_UNITS: u32 = 1_000_000;

/// A parsed price: integer part and a six-digit fractional part.
#[derive(Clone, Copy, PartialEq, Eq, Structural, Debug)]
pub struct PricePoint {
    pub integer: u64,
    pub fraction: u32,
}

impl PricePoint {
    /// The fractional part always has six-digit resolution.
    pub open spec fn wf(self) -> bool {
        self.fraction < FRACTION_UNITS
    }
}

/// Is `b` an ASCII decimal digit?
pub open spec fn is_digit(b: u8) -> bool {
    48 <= b <= 57
}

/// Every byte of `s` is an ASCII decimal digit.
pub open spec fn all_digits(s: Seq<u8>) -> bool {
    forall|i: int| 0 <= i < s.len() ==> is_digit(#[trigger] s[i])
}

/// Base-10 value of a digit sequence (meaningful when `all_digits` holds).
pub open spec fn digits_value(s: Seq<u8>) -> int
    decreases s.len(),
{
    if s.len() == 0 {
        0
    } else {
        digits_value(s.drop_last()) * 10 + s.last() - 48
    }
}

/// Index of the first decimal point of `s`, or `s.len()` when none occurs.
pub open spec fn first_dot(s: Seq<u8>) -> int
    decreases s.len(),
{
    if s.len() == 0 {
        0
    } else if s[0] == DOT {
        0
    } else {
        1 + first_dot(s.drop_first())
    }
}

/// The bytes before the first decimal point.
pub open spec fn int_seg(s: Seq<u8>) -> Seq<u8> {
    s.take(first_dot(s))
}

/// The bytes between the first decimal point and the next one (or the
/// end): the full fractional segment, before truncation.
pub open spec fn frac_seg(s: Seq<u8>) -> Seq<u8> {
    let rest = s.subrange(first_dot(s) + 1, s.len() as int);
    rest.take(first_dot(rest))
}

/// The shape `parse` accepts: a decimal point is present, the integer
/// part is nonempty, all digits, and fits an unsigned 64-bit word, and
/// the fractional segment offers at least six digits.
pub open spec fn valid_price_str(s: Seq<u8>) -> bool {
    &&& first_dot(s) < s.len()
    &&& int_seg(s).len() > 0
    &&& all_digits(int_seg(s))
    &&& digits_value(int_seg(s)) <= u64::MAX
    &&& frac_seg(s).len() >= 6
    &&& all_digits(frac_seg(s).take(6))
}

/// Value of the integer part.
pub open spec fn int_value(s: Seq<u8>) -> int {
    digits_value(int_seg(s))
}

/// Value of the first six fractional digits — truncation, not rounding.
pub open spec fn frac_value(s: Seq<u8>) -> int {
    digits_value(frac_seg(s).take(6))
}

/// `first_dot` is the least index holding a decimal point.
pub proof fn lemma_first_dot(s: Seq<u8>)
    ensures
        0 <= first_dot(s) <= s.len(),
        first_dot(s) < s.len() ==> s[first_dot(s)] == DOT,
        forall|j: int| 0 <= j < first_dot(s) ==> s[j] != DOT,
    decreases s.len(),
{
    if s.len() == 0 {
    } else if s[0] == DOT {
    } else {
        lemma_first_dot(s.drop_first());
        assert forall|j: int| 0 <= j < first_dot(s) implies s[j] != DOT by {
            if j > 0 {
                assert(s.drop_first()[j - 1] == s[j]);
            }
        }
        if first_dot(s) < s.len() {
            assert(s.drop_first()[first_dot(s.drop_first())] == s[first_dot(s)]);
        }
    }
}

/// A digit sequence has a nonnegative value.
pub proof fn lemma_digits_value_nonneg(s: Seq<u8>)
    requires
        all_digits(s),
    ensures
        digits_value(s) >= 0,
    decreases s.len(),
{
    if s.len() > 0 {
        assert forall|i: int| 0 <= i < s.drop_last().len() implies is_digit(
            #[trigger] s.drop_last()[i],
        ) by {
            assert(s.drop_last()[i] == s[i]);
        }
        lemma_digits_value_nonneg(s.drop_last());
    }
}

/// Appending one more byte multiplies the value by ten and adds the digit.
pub proof fn lemma_digits_value_step(s: Seq<u8>, j: int)
    requires
        0 <= j < s.len(),
    ensures
        digits_value(s.take(j + 1)) == digits_value(s.take(j)) * 10 + s[j] - 48,
{
    assert(s.take(j + 1).drop_last() =~= s.take(j));
    assert(s.take(j + 1).last() == s[j]);
}

/// Reading further digits never shrinks the value: a prefix of a digit
/// sequence is worth at most the whole.
pub proof fn lemma_digits_value_prefix_le(s: Seq<u8>, j: int)
    requires
        0 <= j <= s.len(),
        all_digits(s),
    ensures
        digits_value(s.take(j)) <= digits_value(s),
    decreases s.len() - j,
{
    if j == s.len() {
        assert(s.take(j) =~= s);
    } else {
        lemma_digits_value_step(s, j);
        assert forall|i: int| 0 <= i < s.take(j).len() implies is_digit(
            #[trigger] s.take(j)[i],
        ) by {
            assert(s.take(j)[i] == s[i]);
        }
        lemma_digits_value_nonneg(s.take(j));
        lemma_digits_value_prefix_le(s, j + 1);
    }
}

/// Parse a decimal string into a fixed-point price.
///
/// The fractional segment is truncated to exactly its first six digits,
/// never rounded. Every malformed input — no decimal point, an empty or
/// non-digit or overflowing integer part, fewer than six fractional
/// digits, a non-digit among the first six — is rejected, and nothing
/// panics.
pub fn parse(s: &[u8]) -> (r: Result<PricePoint, ParseError>)
    ensures
        match r {
            Ok(p) => valid_price_str(s@) && p.wf() && p.integer == int_value(s@) && p.fraction
                == frac_value(s@),
            Err(e) => e == ParseError::Malformed && !valid_price_str(s@),
        },
{
    let n = s.len();
    // Find the first decimal point.
    let mut i: usize = 0;
    while i < n && s[i] != DOT
        invariant
            0 <= i <= n,
            n == s@.len(),
            forall|j: int| 0 <= j < i ==> s@[j] != DOT,
        decreases n - i,
    {
        i += 1;
    }
    proof {
        lemma_first_dot(s@);
    }
    if i == n {
        // No decimal point at all.
        return Err(ParseError::Malformed);
    }
    proof {
        assert(first_dot(s@) == i);
    }
    if i == 0 {
        // Empty integer part.
        return Err(ParseError::Malformed);
    }
    // Parse the integer part, watching for overflow.
    let ghost iseg = s@.take(i as int);
    let mut acc: u64 = 0;
    let mut j: usize = 0;
    while j < i
        invariant
            0 <= j <= i <= n,
            n == s@.len(),
            iseg == s@.take(i as int),
            iseg.len() == i,
            first_dot(s@) == i,
            forall|m: int| 0 <= m < j ==> is_digit(#[trigger] iseg[m]),
            acc == digits_value(iseg.take(j as int)),
        decreases i - j,
    {
        let d = s[j];
        proof {
            assert(iseg[j as int] == s@[j as int]);
        }
        if d < 48 || d > 57 {
            // A non-digit in the integer part.
            assert(!all_digits(iseg));
            return Err(ParseError::Malformed);
        }
        proof {
            lemma_digits_value_step(iseg, j as int);
        }
        let wide = match acc.checked_mul(10) {
            Some(v) => v,
            None => {
                // The integer part cannot fit: its value only grows with
                // further digits.
                proof {
                    if all_digits(iseg) {
                        lemma_digits_value_prefix_le(iseg, j + 1);
                    }
                }
                return Err(ParseError::Malformed);
            },
        };
        let next = match wide.checked_add((d - 48) as u64) {
            Some(v) => v,
            None => {
                proof {
                    if all_digits(iseg) {
                        lemma_digits_value_prefix_le(iseg, j + 1);
                    }
                }
                return Err(ParseError::Malformed);
            },
        };
        acc = next;
        j += 1;
    }
    proof {
        assert(iseg.take(i as int) =~= iseg);
    }
    // Find the decimal point (or the end) that closes the fractional
    // segment.
    let mut k: usize = i + 1;
    while k < n && s[k] != DOT
        invariant
            i + 1 <= k <= n,
            n == s@.len(),
            forall|j: int| i + 1 <= j < k ==> s@[j] != DOT,
        decreases n - k,
    {
        k += 1;
    }
    let ghost rest = s@.subrange(i + 1, n as int);
    proof {
        lemma_first_dot(rest);
        assert forall|m: int| 0 <= m < k - (i + 1) implies rest[m] != DOT by {
            assert(rest[m] == s@[i + 1 + m]);
        }
        if k < n {
            assert(rest[(k - (i + 1)) as int] == s@[k as int]);
        }
        assert(first_dot(rest) == k - (i + 1));
        assert(frac_seg(s@) =~= s@.subrange(i + 1, k as int));
    }
    if k - (i + 1) < 6 {
        // Fewer than six fractional digits on offer.
        return Err(ParseError::Malformed);
    }
    let ghost f6 = frac_seg(s@).take(6);
    proof {
        assert(f6 =~= s@.subrange(i + 1, i + 7));
    }
    // Read exactly the first six fractional digits; anything past them is
    // discarded — truncation, not rounding.
    let base = i + 1;
    let d0 = s[base];
    let d1 = s[base + 1];
    let d2 = s[base + 2];
    let d3 = s[base + 3];
    let d4 = s[base + 4];
    let d5 = s[base + 5];
    if d0 < 48 || d0 > 57 || d1 < 48 || d1 > 57 || d2 < 48 || d2 > 57 || d3 < 48 || d3 > 57 || d4
        < 48 || d4 > 57 || d5 < 48 || d5 > 57 {
        proof {
            assert(f6[0] == s@[base as int]);
            assert(f6[1] == s@[base + 1]);
            assert(f6[2] == s@[base + 2]);
            assert(f6[3] == s@[base + 3]);
            assert(f6[4] == s@[base + 4]);
            assert(f6[5] == s@[base + 5]);
        }
        assert(!all_digits(f6));
        return Err(ParseError::Malformed);
    }
    let fraction: u32 = (d0 - 48) as u32 * 100000 + (d1 - 48) as u32 * 10000 + (d2 - 48) as u32
        * 1000 + (d3 - 48) as u32 * 100 + (d4 - 48) as u32 * 10 + (d5 - 48) as u32;
    proof {
        lemma_digits_value_step(f6, 0);
        lemma_digits_value_step(f6, 1);
        lemma_digits_value_step(f6, 2);
        lemma_digits_value_step(f6, 3);
        lemma_digits_value_step(f6, 4);
        lemma_digits_value_step(f6, 5);
        assert(f6.take(0) =~= Seq::<u8>::empty());
        assert(f6.take(6) =~= f6);
    }
    Ok(PricePoint { integer: acc, fraction })
}

/// Truncation law: a string made of one or more digits, a decimal point,
/// then six or more digits always parses; its integer part is the value
/// of the digits before the point and its fractional part is the value of
/// exactly the first six digits after it — digits beyond the sixth never
/// round it.
pub proof fn lemma_parse_truncates(ip: Seq<u8>, fp: Seq<u8>)
    requires
        ip.len() > 0,
        all_digits(ip),
        digits_value(ip) <= u64::MAX,
        fp.len() >= 6,
        all_digits(fp),
    ensures
        valid_price_str(ip + seq![DOT] + fp),
        int_value(ip + seq![DOT] + fp) == digits_value(ip),
        frac_value(ip + seq![DOT] + fp) == digits_value(fp.take(6)),
{
    let s = ip + seq![DOT] + fp;
    lemma_first_dot(s);
    assert forall|j: int| 0 <= j < ip.len() implies s[j] != DOT by {
        assert(s[j] == ip[j]);
        assert(is_digit(ip[j]));
    }
    assert(s[ip.len() as int] == DOT);
    assert(first_dot(s) == ip.len());
    assert(int_seg(s) =~= ip);
    let rest = s.subrange(first_dot(s) + 1, s.len() as int);
    assert(rest =~= fp);
    lemma_first_dot(rest);
    assert forall|j: int| 0 <= j < fp.len() implies fp[j] != DOT by {
        assert(is_digit(fp[j]));
    }
    assert(first_dot(rest) == fp.len());
    assert(frac_seg(s) =~= fp);
    assert(frac_seg(s).take(6) =~= fp.take(6));
    assert forall|j: int| 0 <= j < fp.take(6).len() implies is_digit(#[trigger] fp.take(6)[j]) by {
        assert(fp.take(6)[j] == fp[j]);
    }
}

} // verus!
