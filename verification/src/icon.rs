//! Decoding of icon-source descriptors.
//!
//! A device's property store describes its icon as a comma-separated
//! `path,index` pair: the path of the file holding the icon resources and
//! the number of the icon within it.  The index part may be empty, in
//! which case it defaults to 0, and anything after a second comma is
//! ignored.  A descriptor with no comma at all, or whose index part is not
//! an optionally signed decimal number fitting a 32-bit signed integer, is
//! malformed and rejected with [`IndicatorError::InvalidIconDescriptor`].

use crate::error::IndicatorError;
use vstd::prelude::*;

verus! {

/// A decoded icon-source descriptor.
#[derive(Debug)]
pub struct IconSource {
    /// The file the icon is extracted from.
    pub path: String,
    /// The number of the icon within that file.
    pub index: i32,
}

/// Whether `c` is a decimal digit.
pub open spec fn is_dec_digit(c: char) -> bool {
    48 <= c as int <= 57
}

/// The value of the digit `c`.
pub open spec fn digit_val(c: char) -> int {
    c as int - 48
}

/// Whether every character of `s` is a decimal digit.
pub open spec fn all_digits(s: Seq<char>) -> bool {
    forall|i: int| 0 <= i < s.len() ==> is_dec_digit(#[trigger] s[i])
}

/// The number the digit string `s` denotes in base ten.
pub open spec fn digits_value(s: Seq<char>) -> int
    decreases s.len(),
{
    if s.len() == 0 {
        0
    } else {
        digits_value(s.drop_last()) * 10 + digit_val(s.last())
    }
}

/// The icon index denoted by the index part of a descriptor: empty means
/// 0, otherwise an optional sign followed by at least one digit, denoting
/// a value that must fit a 32-bit signed integer.
pub open spec fn spec_parse_index(s: Seq<char>) -> Option<int> {
    if s.len() == 0 {
        Some(0)
    } else {
        let negative = s[0] == '-';
        let digits = if s[0] == '-' || s[0] == '+' {
            s.drop_first()
        } else {
            s
        };
        if digits.len() > 0 && all_digits(digits) {
            let v = if negative {
                -digits_value(digits)
            } else {
                digits_value(digits)
            };
            if i32::MIN <= v <= i32::MAX {
                Some(v)
            } else {
                None
            }
        } else {
            None
        }
    }
}

/// What a descriptor denotes: the path (up to the first comma) and the
/// index (between the first comma and the second comma or the end), or the
/// error a malformed descriptor is rejected with.
pub open spec fn spec_parse_icon_descriptor(s: Seq<char>) -> Result<
    (Seq<char>, int),
    IndicatorError,
> {
    match s.index_of_first(',') {
        None => Err(IndicatorError::InvalidIconDescriptor),
        Some(p) => {
            let rest = s.skip(p + 1);
            let idx_part = match rest.index_of_first(',') {
                None => rest,
                Some(q) => rest.take(q),
            };
            match spec_parse_index(idx_part) {
                Some(v) => Ok((s.take(p), v)),
                None => Err(IndicatorError::InvalidIconDescriptor),
            }
        },
    }
}

/// A digit string denotes a non-negative number.
proof fn lemma_digits_value_nonneg(s: Seq<char>)
    requires
        all_digits(s),
    ensures
        digits_value(s) >= 0,
    decreases s.len(),
{
    if s.len() > 0 {
        assert(all_digits(s.drop_last())) by {
            assert forall|i: int| 0 <= i < s.drop_last().len() implies is_dec_digit(
                #[trigger] s.drop_last()[i],
            ) by {
                assert(s.drop_last()[i] == s[i]);
            }
        }
        lemma_digits_value_nonneg(s.drop_last());
    }
}

/// Extending a digit string never shrinks the number it denotes.
proof fn lemma_digits_value_prefix(s: Seq<char>, k: int)
    requires
        all_digits(s),
        0 <= k <= s.len(),
    ensures
        digits_value(s.take(k)) <= digits_value(s),
    decreases s.len(),
{
    if k == s.len() {
        assert(s.take(k) =~= s);
    } else {
        assert(all_digits(s.drop_last())) by {
            assert forall|i: int| 0 <= i < s.drop_last().len() implies is_dec_digit(
                #[trigger] s.drop_last()[i],
            ) by {
                assert(s.drop_last()[i] == s[i]);
            }
        }
        assert(s.drop_last().take(k) =~= s.take(k));
        lemma_digits_value_prefix(s.drop_last(), k);
        lemma_digits_value_nonneg(s.drop_last());
        assert(digit_val(s.last()) >= 0);
    }
}

/// Find the first occurrence of `c` in `s` at or after position `from`.
fn find_char_from(s: &str, n: usize, from: usize, c: char) -> (r: Option<usize>)
    requires
        n == s@.len(),
        from <= n,
    ensures
        match r {
            Some(j) => {
                &&& from <= j < n
                &&& s@[j as int] == c
                &&& forall|k: int| from <= k < j ==> s@[k] != c
            },
            None => forall|k: int| from <= k < n ==> s@[k] != c,
        },
{
    let mut i: usize = from;
    while i < n
        invariant
            n == s@.len(),
            from <= i <= n,
            forall|k: int| from <= k < i ==> s@[k] != c,
        decreases n - i,
    {
        if s.get_char(i) == c {
            return Some(i);
        }
        i = i + 1;
    }
    None
}

/// Decode an icon-source descriptor, or reject it as malformed.
///
/// Returns the path before the first comma together with the icon index
/// the part after it denotes (0 when that part is empty); a descriptor
/// with no comma or with an index that is not an optionally signed decimal
/// number fitting a 32-bit signed integer yields
/// `IndicatorError::InvalidIconDescriptor`.
pub fn parse_icon_descriptor(s: &str) -> (r: Result<IconSource, IndicatorError>)
    ensures
        match r {
            Ok(src) => spec_parse_icon_descriptor(s@) == Ok::<_, IndicatorError>(
                (src.path@, src.index as int),
            ),
            Err(e) => spec_parse_icon_descriptor(s@) == Err::<(Seq<char>, int), _>(e),
        },
{
    let n = s.unicode_len();
    let first = find_char_from(s, n, 0, ',');
    proof {
        s@.index_of_first_ensures(',');
    }
    let p = match first {
        Some(p) => p,
        None => {
            proof {
                if s@.index_of_first(',') is Some {
                    let j = s@.index_of_first(',')->0;
                    assert(s@[j] == ',');
                }
            }
            return Err(IndicatorError::InvalidIconDescriptor);
        },
    };
    proof {
        if s@.index_of_first(',') is None {
            assert(s@.contains(',')) by {
                assert(s@[p as int] == ',');
            }
        }
        assert(s@.index_of_first(',') == Some(p as int));
    }
    let ghost rest = s@.skip(p + 1);
    let second = find_char_from(s, n, p + 1, ',');
    let q: usize = match second {
        Some(j) => j,
        None => n,
    };
    let ghost idx_part = s@.subrange(p + 1, q as int);
    proof {
        rest.index_of_first_ensures(',');
        assert forall|m: int| 0 <= m < rest.len() implies rest[m] == s@[p + 1 + m] by {}
        match second {
            Some(j) => {
                assert(rest[j - (p + 1)] == ',');
                if rest.index_of_first(',') is None {
                    assert(rest.contains(','));
                }
                let qr = rest.index_of_first(',')->0;
                if qr < j - (p + 1) {
                    assert(s@[p + 1 + qr] != ',');
                    assert(rest[qr] == ',');
                }
                if qr > j - (p + 1) {
                    assert(rest[j - (p + 1)] != ',');
                }
                assert(rest.index_of_first(',') == Some(j - (p + 1)));
                assert(rest.take(j - (p + 1)) =~= idx_part);
            },
            None => {
                if rest.index_of_first(',') is Some {
                    let qr = rest.index_of_first(',')->0;
                    assert(rest[qr] == ',');
                    assert(s@[p + 1 + qr] != ',');
                }
                assert(rest.index_of_first(',') is None);
                assert(rest =~= idx_part);
            },
        }
    }
    let index = match parse_index_part(s, n, p + 1, q) {
        Some(v) => v,
        None => {
            return Err(IndicatorError::InvalidIconDescriptor);
        },
    };
    let path = s.substring_char(0, p).to_owned();
    proof {
        assert(s@.take(p as int) =~= s@.subrange(0, p as int));
    }
    Ok(IconSource { path, index })
}

/// Parse the index part of a descriptor, the characters of `s` from
/// `start` up to `end`, as [`spec_parse_index`] reads them.
#[verifier::loop_isolation(false)]
fn parse_index_part(s: &str, n: usize, start: usize, end: usize) -> (r: Option<i32>)
    requires
        n == s@.len(),
        start <= end <= n,
    ensures
        match r {
            Some(v) => spec_parse_index(s@.subrange(start as int, end as int)) == Some(v as int),
            None => spec_parse_index(s@.subrange(start as int, end as int)) is None,
        },
{
    let ghost part = s@.subrange(start as int, end as int);
    if start == end {
        return Some(0);
    }
    let c0 = s.get_char(start);
    assert(part[0] == c0);
    let negative = c0 == '-';
    let ds: usize = if c0 == '-' || c0 == '+' {
        start + 1
    } else {
        start
    };
    let ghost digits = s@.subrange(ds as int, end as int);
    proof {
        if c0 == '-' || c0 == '+' {
            assert(part.drop_first() =~= digits);
        } else {
            assert(part =~= digits);
        }
    }
    if ds == end {
        // a bare sign with no digits
        return None;
    }
    let mut acc: u64 = 0;
    let mut k: usize = ds;
    while k < end
        invariant
            n == s@.len(),
            ds <= k <= end <= n,
            digits == s@.subrange(ds as int, end as int),
            all_digits(s@.subrange(ds as int, k as int)),
            acc == digits_value(s@.subrange(ds as int, k as int)),
            acc <= 0x8000_0000,
        decreases end - k,
    {
        let c = s.get_char(k);
        let ghost seen = s@.subrange(ds as int, k as int);
        let ghost seen1 = s@.subrange(ds as int, k as int + 1);
        proof {
            assert(seen1.drop_last() =~= seen);
            assert(seen1.last() == s@[k as int]);
            assert(digits[k - ds] == s@[k as int]);
        }
        let cu = c as u32;
        if cu < 48 || cu > 57 {
            proof {
                assert(!is_dec_digit(digits[k - ds]));
            }
            return None;
        }
        let d = (c as u32 - 48) as u64;
        acc = acc * 10 + d;
        proof {
            assert forall|i: int| 0 <= i < seen1.len() implies is_dec_digit(
                #[trigger] seen1[i],
            ) by {
                if i < seen.len() {
                    assert(seen1[i] == seen[i]);
                }
            }
        }
        if acc > 0x8000_0000 {
            proof {
                if all_digits(digits) {
                    assert(digits.take(k + 1 - ds) =~= seen1);
                    lemma_digits_value_prefix(digits, k + 1 - ds);
                    lemma_digits_value_nonneg(digits);
                }
            }
            return None;
        }
        k = k + 1;
    }
    proof {
        assert(s@.subrange(ds as int, k as int) =~= digits);
    }
    if negative {
        let v64: i64 = -(acc as i64);
        assert(i32::MIN <= v64 <= i32::MAX);
        Some(v64 as i32)
    } else {
        if acc > 0x7fff_ffff {
            return None;
        }
        Some(acc as i32)
    }
}

} // verus!
