//! Verified text parsing for the small input grammars the library
//! accepts: calendar dates (`yyyy-mm-dd`), UTC offsets (`[+|-]HH:MM`)
//! and signed decimal angles (`-51.4769`), each turned into the plain
//! integer values the rest of the library works on.

use vstd::prelude::*;
use vstd::string::StringSliceAdditionalSpecFns;
use vstd::string::StrSliceExecFns;

verus! {

/// ASCII decimal digit.
pub open spec fn spec_is_digit(b: u8) -> bool {
    48 <= b <= 57
}

/// Numeric value of the digit run `b[from..to]`, most significant first.
pub open spec fn digits_val(b: Seq<u8>, from: int, to: int) -> int
    decreases to - from,
{
    if to <= from {
        0
    } else {
        digits_val(b, from, to - 1) * 10 + (b[to - 1] - 48)
    }
}

/// First position at or after `i` that does not hold a digit.
pub open spec fn end_of_digits(b: Seq<u8>, i: int) -> int
    decreases b.len() - i,
{
    if i < 0 || i >= b.len() {
        i
    } else if spec_is_digit(b[i]) {
        end_of_digits(b, i + 1)
    } else {
        i
    }
}

/// Ten to the power `k`, for `0 <= k <= 6`.
pub open spec fn spec_pow10(k: int) -> int {
    if k <= 0 {
        1
    } else if k == 1 {
        10
    } else if k == 2 {
        100
    } else if k == 3 {
        1000
    } else if k == 4 {
        10_000
    } else if k == 5 {
        100_000
    } else {
        1_000_000
    }
}

/// Everything from `i` up to `end_of_digits(b, i)` is a digit, and the
/// end position stays within the sequence.
proof fn lemma_end_of_digits(b: Seq<u8>, i: int)
    requires
        0 <= i <= b.len(),
    ensures
        i <= end_of_digits(b, i) <= b.len(),
        forall|k: int| i <= k < end_of_digits(b, i) ==> spec_is_digit(#[trigger] b[k]),
    decreases b.len() - i,
{
    if i < b.len() && spec_is_digit(b[i]) {
        lemma_end_of_digits(b, i + 1);
    }
}

/// A digit run has a nonnegative value.
proof fn lemma_digits_val_nonneg(b: Seq<u8>, from: int, j: int)
    requires
        from <= j <= b.len(),
        forall|k: int| from <= k < j ==> spec_is_digit(#[trigger] b[k]),
    ensures
        0 <= digits_val(b, from, j),
    decreases j - from,
{
    if j > from {
        lemma_digits_val_nonneg(b, from, j - 1);
    }
}

/// Extending a digit run on the right never decreases its value.
proof fn lemma_digits_val_mono(b: Seq<u8>, from: int, j: int, to: int)
    requires
        from <= j <= to <= b.len(),
        forall|k: int| from <= k < to ==> spec_is_digit(#[trigger] b[k]),
    ensures
        digits_val(b, from, j) <= digits_val(b, from, to),
    decreases to - j,
{
    if j < to {
        lemma_digits_val_mono(b, from, j, to - 1);
        lemma_digits_val_nonneg(b, from, to - 1);
    }
}

/// The parsed date grammar: exactly `yyyy-mm-dd`, all digits. Range
/// checking (month, day) is the instant constructor's concern.
pub open spec fn spec_parse_date(b: Seq<u8>) -> Option<(int, int, int)> {
    if b.len() == 10 && b[4] == 45 && b[7] == 45 && spec_is_digit(b[0]) && spec_is_digit(b[1])
        && spec_is_digit(b[2]) && spec_is_digit(b[3]) && spec_is_digit(b[5]) && spec_is_digit(b[6])
        && spec_is_digit(b[8]) && spec_is_digit(b[9]) {
        Some(
            (
                digits_val(b, 0, 4),
                digits_val(b, 5, 7),
                digits_val(b, 8, 10),
            ),
        )
    } else {
        None
    }
}

/// Parse a date in `yyyy-mm-dd` form into (year, month, day); `None`
/// exactly when the text does not match the grammar.
pub fn parse_date(s: &str) -> (r: Option<(i64, i64, i64)>)
    ensures
        r is Some <==> spec_parse_date(s.spec_bytes()) is Some,
        (r matches Some(t) ==> spec_parse_date(s.spec_bytes()) matches Some(u) && (
        t.0 as int,
        t.1 as int,
        t.2 as int,
        ) == u),
{
    proof {
        reveal_with_fuel(digits_val, 5);
    }
    let b = s.as_bytes_vec();
    if b.len() != 10 {
        return None;
    }
    let d0 = digit_at(&b, 0);
    let d1 = digit_at(&b, 1);
    let d2 = digit_at(&b, 2);
    let d3 = digit_at(&b, 3);
    let d5 = digit_at(&b, 5);
    let d6 = digit_at(&b, 6);
    let d8 = digit_at(&b, 8);
    let d9 = digit_at(&b, 9);
    if *b.get(4).unwrap() != 45 || *b.get(7).unwrap() != 45 {
        return None;
    }
    match (d0, d1, d2, d3, d5, d6, d8, d9) {
        (
            Some(v0),
            Some(v1),
            Some(v2),
            Some(v3),
            Some(v5),
            Some(v6),
            Some(v8),
            Some(v9),
        ) => Some(
            (
                ((v0 * 10 + v1) * 10 + v2) * 10 + v3,
                v5 * 10 + v6,
                v8 * 10 + v9,
            ),
        ),
        _ => None,
    }
}

/// The UTC-offset grammar: `[+|-]HH:MM` with hours at most 23 and
/// minutes at most 59; the value is seconds east of UTC.
pub open spec fn spec_parse_utc_offset(b: Seq<u8>) -> Option<int> {
    if b.len() == 6 && (b[0] == 43 || b[0] == 45) && b[3] == 58 && spec_is_digit(b[1])
        && spec_is_digit(b[2]) && spec_is_digit(b[4]) && spec_is_digit(b[5]) {
        let hh = digits_val(b, 1, 3);
        let mm = digits_val(b, 4, 6);
        if hh <= 23 && mm <= 59 {
            if b[0] == 45 {
                Some(-(hh * 3600 + mm * 60))
            } else {
                Some(hh * 3600 + mm * 60)
            }
        } else {
            None
        }
    } else {
        None
    }
}

/// Parse a fixed UTC offset in `[+|-]HH:MM` form into seconds east of
/// UTC; `None` exactly when the text does not match the grammar or the
/// hours or minutes are out of range.
pub fn parse_utc_offset(s: &str) -> (r: Option<i64>)
    ensures
        r is Some <==> spec_parse_utc_offset(s.spec_bytes()) is Some,
        (r matches Some(v) ==> spec_parse_utc_offset(s.spec_bytes()) matches Some(u) && v as int
            == u),
        (r matches Some(v) ==> -86340 <= v <= 86340),
{
    proof {
        reveal_with_fuel(digits_val, 3);
    }
    let b = s.as_bytes_vec();
    if b.len() != 6 {
        return None;
    }
    let sign = *b.get(0).unwrap();
    if sign != 43 && sign != 45 {
        return None;
    }
    if *b.get(3).unwrap() != 58 {
        return None;
    }
    match (digit_at(&b, 1), digit_at(&b, 2), digit_at(&b, 4), digit_at(&b, 5)) {
        (Some(h1), Some(h2), Some(m1), Some(m2)) => {
            let hh = h1 * 10 + h2;
            let mm = m1 * 10 + m2;
            if hh <= 23 && mm <= 59 {
                let v = hh * 3600 + mm * 60;
                if sign == 45 {
                    Some(-v)
                } else {
                    Some(v)
                }
            } else {
                None
            }
        },
        _ => None,
    }
}

/// Whether the byte at position `i` is an ASCII digit.
fn is_digit_at(b: &Vec<u8>, i: usize) -> (r: bool)
    requires
        i < b@.len(),
    ensures
        r == spec_is_digit(b@[i as int]),
{
    let c = *b.get(i).unwrap();
    48 <= c && c <= 57
}

/// The numeric value of the digit at position `i`, if it is one.
fn digit_at(b: &Vec<u8>, i: usize) -> (r: Option<i64>)
    requires
        i < b@.len(),
    ensures
        r is Some <==> spec_is_digit(b@[i as int]),
        (r matches Some(v) ==> v as int == b@[i as int] - 48 && 0 <= v <= 9),
{
    let c = *b.get(i).unwrap();
    if 48 <= c && c <= 57 {
        Some((c - 48) as i64)
    } else {
        None
    }
}

/// The signed-decimal-angle grammar: an optional sign, an integer part
/// of value at most 100000, and optionally a dot with at least one
/// fraction digit. The value is in microdegrees; fraction digits past
/// the sixth are truncated away.
pub open spec fn spec_parse_angle_udeg(b: Seq<u8>) -> Option<int> {
    let n = b.len() as int;
    if n == 0 {
        None
    } else {
        let start: int = if b[0] == 43 || b[0] == 45 {
            1
        } else {
            0
        };
        let ie = end_of_digits(b, start);
        if ie == start {
            None
        } else {
            let ip = digits_val(b, start, ie);
            if ip > 100_000 {
                None
            } else {
                let magnitude: Option<int> = if ie == n {
                    Some(ip * 1_000_000)
                } else if b[ie] != 46 || ie + 1 == n {
                    None
                } else if end_of_digits(b, ie + 1) != n {
                    None
                } else {
                    let fe = if n < ie + 1 + 6 {
                        n
                    } else {
                        ie + 1 + 6
                    };
                    Some(
                        ip * 1_000_000 + digits_val(b, ie + 1, fe) * spec_pow10(
                            6 - (fe - (ie + 1)),
                        ),
                    )
                };
                match magnitude {
                    None => None,
                    Some(v) => if b[0] == 45 {
                        Some(-v)
                    } else {
                        Some(v)
                    },
                }
            }
        }
    }
}

/// Parse a signed decimal angle into microdegrees. `None` exactly when
/// the text does not match the grammar or the integer part exceeds
/// 100000 degrees; otherwise the exact truncated microdegree value.
#[verifier::loop_isolation(false)]
pub fn parse_angle_udeg(s: &str) -> (r: Option<i64>)
    ensures
        r is Some <==> spec_parse_angle_udeg(s.spec_bytes()) is Some,
        (r matches Some(v) ==> spec_parse_angle_udeg(s.spec_bytes()) matches Some(u) && v as int
            == u),
        (r matches Some(v) ==> -100_001_000_000 <= v <= 100_001_000_000),
{
    let b = s.as_bytes_vec();
    let n = b.len();
    if n == 0 {
        return None;
    }
    let first = *b.get(0).unwrap();
    let neg = first == 45;
    let start: usize = if first == 43 || first == 45 {
        1
    } else {
        0
    };
    let mut i: usize = start;
    let mut acc: i64 = 0;
    while i < n && is_digit_at(&b, i)
        invariant
            start <= i <= n,
            n == b@.len(),
            forall|k: int| start <= k < i ==> spec_is_digit(#[trigger] b@[k]),
            acc as int == digits_val(b@, start as int, i as int),
            0 <= acc <= 100_000,
            end_of_digits(b@, start as int) == end_of_digits(b@, i as int),
        decreases n - i,
    {
        let c = *b.get(i).unwrap();
        let acc2 = acc * 10 + ((c - 48) as i64);
        i = i + 1;
        proof {
            assert(end_of_digits(b@, i as int - 1) == end_of_digits(b@, i as int));
        }
        if acc2 > 100_000 {
            proof {
                lemma_end_of_digits(b@, i as int);
                lemma_digits_val_mono(b@, start as int, i as int, end_of_digits(b@, i as int));
            }
            return None;
        }
        acc = acc2;
    }
    if i == start {
        return None;
    }
    proof {
        assert(end_of_digits(b@, i as int) == i as int);
    }
    let magnitude: i64;
    if i == n {
        magnitude = acc * 1_000_000;
    } else {
        let dot = *b.get(i).unwrap();
        if dot != 46 {
            return None;
        }
        if i + 1 == n {
            return None;
        }
        let fs: usize = i + 1;
        let mut j: usize = fs;
        let mut fl: i64 = 0;
        let mut frac: i64 = 0;
        while j < n
            invariant
                fs <= j <= n,
                n == b@.len(),
                fs >= 1,
                forall|k: int| fs <= k < j ==> spec_is_digit(#[trigger] b@[k]),
                end_of_digits(b@, fs as int) == end_of_digits(b@, j as int),
                fl == if j - fs < 6 {
                    (j - fs) as int
                } else {
                    6
                },
                frac as int == digits_val(b@, fs as int, fs as int + fl),
                0 <= frac < spec_pow10(fl as int),
            decreases n - j,
        {
            let c = *b.get(j).unwrap();
            if !(48 <= c && c <= 57) {
                proof {
                    assert(end_of_digits(b@, j as int) == j as int);
                }
                return None;
            }
            if fl < 6 {
                frac = frac * 10 + ((c - 48) as i64);
                fl = fl + 1;
            }
            j = j + 1;
            proof {
                assert(end_of_digits(b@, j as int - 1) == end_of_digits(b@, j as int));
            }
        }
        proof {
            assert(end_of_digits(b@, j as int) == j as int);
        }
        let mut scale: i64 = 1;
        let mut k: i64 = 6 - fl;
        while k > 0
            invariant
                0 <= k <= 6 - fl,
                0 <= fl <= 6,
                scale as int == spec_pow10(6 - fl - k),
            decreases k,
        {
            scale = scale * 10;
            k = k - 1;
        }
        proof {
            assert((frac as int) * (scale as int) < 1_000_000) by {
                if fl == 0 {
                } else if fl == 1 {
                } else if fl == 2 {
                } else if fl == 3 {
                } else if fl == 4 {
                } else if fl == 5 {
                }
            }
            lemma_digits_val_nonneg(b@, fs as int, fs as int + fl as int);
        }
        magnitude = acc * 1_000_000 + frac * scale;
    }
    if neg {
        Some(-magnitude)
    } else {
        Some(magnitude)
    }
}

} // verus!
