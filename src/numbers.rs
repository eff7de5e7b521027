//! Decimal number texts: unsigned integers and seconds with a fraction.
use vstd::prelude::*;

verus! {

pub open spec fn is_digit(c: char) -> bool {
    '0' as u32 <= c as u32 <= '9' as u32
}

pub open spec fn all_digits(s: Seq<char>) -> bool {
    forall|i: int| 0 <= i < s.len() ==> is_digit(#[trigger] s[i])
}

pub open spec fn digit_value(c: char) -> nat {
    (c as u32 - '0' as u32) as nat
}

/// The value of a string of decimal digits, most significant first.
pub open spec fn digits_value(s: Seq<char>) -> nat
    decreases s.len(),
{
    if s.len() == 0 {
        0
    } else {
        digits_value(s.drop_last()) * 10 + digit_value(s.last())
    }
}

/// The position of the first `c` in `s`, or `s.len()` when there is none.
pub open spec fn char_pos(s: Seq<char>, c: char) -> int
    decreases s.len(),
{
    if s.len() == 0 || s[0] == c {
        0
    } else {
        1 + char_pos(s.drop_first(), c)
    }
}

/// The value of an unsigned integer text as `u32`'s `from_str` reads it: an
/// optional `+`, then one or more digits, the value fitting in 32 bits.
pub open spec fn parsed_u32(s: Seq<char>) -> Option<u32> {
    let d = if s.len() > 0 && s[0] == '+' {
        s.drop_first()
    } else {
        s
    };
    if d.len() > 0 && all_digits(d) && digits_value(d) <= u32::MAX {
        Some(digits_value(d) as u32)
    } else {
        None
    }
}

/// The digit at position `i` of a fraction, zero past its end.
pub open spec fn frac_digit(f: Seq<char>, i: int) -> nat {
    if i < f.len() {
        digit_value(f[i])
    } else {
        0
    }
}

/// Whether `s` is a decimal number text: digits, optionally a `.` and more
/// digits, with at least one digit in all.
pub open spec fn is_decimal_text(s: Seq<char>) -> bool {
    let p = char_pos(s, '.');
    let w = s.subrange(0, p);
    let f = if p < s.len() {
        s.subrange(p + 1, s.len() as int)
    } else {
        seq![]
    };
    all_digits(w) && all_digits(f) && w.len() + f.len() > 0
}

/// The value in milliseconds of a number of seconds written as a decimal
/// text; digits past the millisecond are dropped, and a text that is not a
/// decimal number counts as zero.
pub open spec fn text_millis(s: Seq<char>) -> nat {
    let p = char_pos(s, '.');
    let w = s.subrange(0, p);
    let f = if p < s.len() {
        s.subrange(p + 1, s.len() as int)
    } else {
        seq![]
    };
    if is_decimal_text(s) {
        digits_value(w) * 1000 + 100 * frac_digit(f, 0) + 10 * frac_digit(f, 1) + frac_digit(
            f,
            2,
        )
    } else {
        0
    }
}

pub open spec fn cap_u64(n: nat) -> u64 {
    if n <= u64::MAX {
        n as u64
    } else {
        u64::MAX
    }
}

proof fn lemma_char_pos(s: Seq<char>, c: char, p: int)
    requires
        0 <= p <= s.len(),
        forall|j: int| 0 <= j < p ==> s[j] != c,
        p == s.len() || s[p] == c,
    ensures
        char_pos(s, c) == p,
    decreases p,
{
    if p > 0 {
        lemma_char_pos(s.drop_first(), c, p - 1);
    }
}

/// The position of the first `c` in `v[lo..hi]`, relative to `lo`.
pub fn find_char(v: &Vec<char>, lo: usize, hi: usize, c: char) -> (r: usize)
    requires
        lo <= hi <= v.len(),
    ensures
        r as int == char_pos(v@.subrange(lo as int, hi as int), c),
        r <= hi - lo,
{
    let mut k: usize = 0;
    while lo + k < hi && v[lo + k] != c
        invariant
            lo + k <= hi <= v.len(),
            forall|j: int| lo <= j < lo + k ==> v@[j] != c,
        decreases hi - lo - k,
    {
        k = k + 1;
    }
    proof {
        let s = v@.subrange(lo as int, hi as int);
        assert forall|j: int| 0 <= j < k implies s[j] != c by {
            assert(s[j] == v@[lo + j]);
        }
        lemma_char_pos(s, c, k as int);
    }
    k
}

/// Reads the digits `v[lo..hi]`; `None` when one is not a digit, and the
/// flag `true` when the value does not fit in `u64`.
fn read_digits(v: &Vec<char>, lo: usize, hi: usize) -> (r: Option<(u64, bool)>)
    requires
        lo <= hi <= v.len(),
    ensures
        r is None <==> !all_digits(v@.subrange(lo as int, hi as int)),
        r matches Some((n, big)) ==> (big <==> digits_value(v@.subrange(lo as int, hi as int))
            > u64::MAX) && (!big ==> n == digits_value(v@.subrange(lo as int, hi as int))),
{
    let mut n: u64 = 0;
    let mut big = false;
    let mut i: usize = lo;
    while i < hi
        invariant
            lo <= i <= hi <= v.len(),
            all_digits(v@.subrange(lo as int, i as int)),
            big <==> digits_value(v@.subrange(lo as int, i as int)) > u64::MAX,
            !big ==> n == digits_value(v@.subrange(lo as int, i as int)),
        decreases hi - i,
    {
        let c = v[i];
        let ghost prev = v@.subrange(lo as int, i as int);
        let ghost next = v@.subrange(lo as int, i + 1);
        assert(next.drop_last() =~= prev);
        let u = c as u32;
        if !(48 <= u && u <= 57) {
            assert(!all_digits(v@.subrange(lo as int, hi as int))) by {
                assert(v@.subrange(lo as int, hi as int)[i - lo] == c);
            }
            return None;
        }
        let d = (u - 48) as u64;
        if !big {
            let m: u128 = n as u128 * 10 + d as u128;
            if m > u64::MAX as u128 {
                big = true;
            } else {
                n = m as u64;
            }
        }
        proof {
            assert(all_digits(next)) by {
                assert forall|j: int| 0 <= j < next.len() implies is_digit(#[trigger] next[j]) by {
                    if j < prev.len() {
                        assert(next[j] == prev[j]);
                    }
                }
            }
        }
        i = i + 1;
    }
    Some((n, big))
}

/// Reads an unsigned integer text as `u32`'s `from_str` does.
pub fn parse_u32_range(v: &Vec<char>, lo: usize, hi: usize) -> (r: Option<u32>)
    requires
        lo <= hi <= v.len(),
    ensures
        r == parsed_u32(v@.subrange(lo as int, hi as int)),
{
    let ghost s = v@.subrange(lo as int, hi as int);
    let start = if lo < hi && v[lo] == '+' {
        lo + 1
    } else {
        lo
    };
    assert(start > lo ==> s.drop_first() =~= v@.subrange(start as int, hi as int));
    assert(start == lo ==> s =~= v@.subrange(start as int, hi as int));
    if start == hi {
        return None;
    }
    match read_digits(v, start, hi) {
        None => None,
        Some((n, big)) => {
            if big || n > u32::MAX as u64 {
                None
            } else {
                Some(n as u32)
            }
        },
    }
}

/// Reads a number of seconds written as a decimal text, in milliseconds,
/// capped at `u64::MAX`.
pub fn parse_millis_range(v: &Vec<char>, lo: usize, hi: usize) -> (r: u64)
    requires
        lo <= hi <= v.len(),
    ensures
        r == cap_u64(text_millis(v@.subrange(lo as int, hi as int))),
{
    let ghost s = v@.subrange(lo as int, hi as int);
    let p = find_char(v, lo, hi, '.');
    let fstart = if lo + p < hi {
        lo + p + 1
    } else {
        hi
    };
    let ghost w = s.subrange(0, p as int);
    let ghost f = if p < s.len() {
        s.subrange(p + 1, s.len() as int)
    } else {
        seq![]
    };
    assert(w =~= v@.subrange(lo as int, lo + p));
    assert(f =~= v@.subrange(fstart as int, hi as int));
    if p == 0 && fstart == hi {
        return 0;
    }
    let whole = read_digits(v, lo, lo + p);
    let frac = read_digits(v, fstart, hi);
    match (whole, frac) {
        (Some((n, big)), Some(_)) => {
            proof {
                assert(all_digits(f));
                if fstart < hi {
                    assert(f[0] == v@[fstart as int]);
                    assert(is_digit(f[0]));
                }
                if fstart < hi && hi - fstart > 1 {
                    assert(f[1] == v@[fstart + 1]);
                    assert(is_digit(f[1]));
                }
                if fstart < hi && hi - fstart > 2 {
                    assert(f[2] == v@[fstart + 2]);
                    assert(is_digit(f[2]));
                }
            }
            let d0: u64 = if fstart < hi {
                (v[fstart] as u32 - 48) as u64
            } else {
                0
            };
            let d1: u64 = if fstart < hi && hi - fstart > 1 {
                (v[fstart + 1] as u32 - 48) as u64
            } else {
                0
            };
            let d2: u64 = if fstart < hi && hi - fstart > 2 {
                (v[fstart + 2] as u32 - 48) as u64
            } else {
                0
            };
            assert(d0 == frac_digit(f, 0) && d1 == frac_digit(f, 1) && d2 == frac_digit(f, 2));
            let fr: u64 = 100 * d0 + 10 * d1 + d2;
            if big {
                return u64::MAX;
            }
            let m: u128 = n as u128 * 1000 + fr as u128;
            if m > u64::MAX as u128 {
                u64::MAX
            } else {
                m as u64
            }
        },
        _ => 0,
    }
}

/// The elapsed wall-clock time of a timing report, in milliseconds: either
/// `M:SS.ss` (minutes before the first colon) or `SS.ss`.
pub open spec fn elapsed_millis(t: Seq<char>) -> nat {
    let p = char_pos(t, ':');
    if p < t.len() {
        text_millis(t.subrange(0, p)) * 60 + text_millis(t.subrange(p + 1, t.len() as int))
    } else {
        text_millis(t)
    }
}

/// Reads an elapsed-time text, in milliseconds, capped at `u64::MAX`.
pub fn parse_elapsed_range(v: &Vec<char>, lo: usize, hi: usize) -> (r: u64)
    requires
        lo <= hi <= v.len(),
    ensures
        r == cap_u64(elapsed_millis(v@.subrange(lo as int, hi as int))),
{
    let ghost t = v@.subrange(lo as int, hi as int);
    let p = find_char(v, lo, hi, ':');
    if lo + p < hi {
        assert(t.subrange(0, p as int) =~= v@.subrange(lo as int, lo + p));
        assert(t.subrange(p + 1, t.len() as int) =~= v@.subrange(lo + p + 1, hi as int));
        let m = parse_millis_range(v, lo, lo + p);
        let s = parse_millis_range(v, lo + p + 1, hi);
        let total: u128 = m as u128 * 60 + s as u128;
        if m == u64::MAX || s == u64::MAX || total > u64::MAX as u128 {
            u64::MAX
        } else {
            total as u64
        }
    } else {
        parse_millis_range(v, lo, hi)
    }
}

} // verus!
