use vstd::prelude::*;

use crate::text::decimal;
use crate::time::Duration;

verus! {

/// One item of the text that humantime writes for a span: nothing where `value` is
/// zero, and otherwise the value and the unit's name (with an `s` where `plural` and the
/// value is above one), after a space where an item came before. The second result
/// tells whether an item has been written by now.
pub open spec fn duration_item(started: bool, value: nat, name: Seq<char>, plural: bool) -> (Seq<char>, bool) {
    if value > 0 {
        ((if started {
            " "@
        } else {
            Seq::empty()
        }) + decimal(value) + name + (if plural && value > 1 {
            "s"@
        } else {
            Seq::empty()
        }), true)
    } else {
        (Seq::empty(), started)
    }
}

/// What `humantime::format_duration` writes for a span of the given seconds and
/// nanoseconds: `0s` for an empty span, and otherwise its years (365.25 days), months
/// (30.44 days), days, hours, minutes, seconds, milliseconds, microseconds and
/// nanoseconds, each as `duration_item` writes it, such as `2h 37m`.
pub open spec fn formatted_duration(secs: nat, nanos: nat) -> Seq<char> {
    if secs == 0 && nanos == 0 {
        "0s"@
    } else {
        let years = secs / 31_557_600;
        let ydays = secs % 31_557_600;
        let months = ydays / 2_630_016;
        let mdays = ydays % 2_630_016;
        let days = mdays / 86400;
        let day_secs = mdays % 86400;
        let i1 = duration_item(false, years, "year"@, true);
        let i2 = duration_item(i1.1, months, "month"@, true);
        let i3 = duration_item(i2.1, days, "day"@, true);
        let i4 = duration_item(i3.1, day_secs / 3600, "h"@, false);
        let i5 = duration_item(i4.1, day_secs % 3600 / 60, "m"@, false);
        let i6 = duration_item(i5.1, day_secs % 60, "s"@, false);
        let i7 = duration_item(i6.1, nanos / 1_000_000, "ms"@, false);
        let i8 = duration_item(i7.1, nanos / 1000 % 1000, "us"@, false);
        let i9 = duration_item(i8.1, nanos % 1000, "ns"@, false);
        i1.0 + i2.0 + i3.0 + i4.0 + i5.0 + i6.0 + i7.0 + i8.0 + i9.0
    }
}

/// `humantime::format_duration`, written out with `to_string`: the text that
/// `formatted_duration` describes, as the crate's `Display` writes it (without its
/// `mu` feature, so microseconds are written `us`).
#[verifier::external_body]
pub(crate) fn format_duration_text(d: Duration) -> (text: String)
    ensures
        text@ == formatted_duration(d@.0, d@.1),
{
    humantime::format_duration(std::time::Duration::new(d.as_secs(), d.subsec_nanos())).to_string()
}

/// Whether humantime reads a character as part of a unit, which ends the number of a
/// span: an ASCII letter or `µ`.
pub open spec fn is_unit_char(c: char) -> bool {
    ('a' <= c && c <= 'z') || ('A' <= c && c <= 'Z') || c == 'µ'
}

/// Whether a character is an ASCII digit.
pub open spec fn is_digit_char(c: char) -> bool {
    '0' <= c && c <= '9'
}

/// Ten to the power `n`.
pub open spec fn pow10(n: nat) -> nat
    decreases n,
{
    if n == 0 {
        1
    } else {
        10 * pow10((n - 1) as nat)
    }
}

/// The groups of digits of a text, split where a unit character stands: the sum of ten
/// to the power of the digit count of each closed group, and the digit count of the
/// group still open at the end.
pub open spec fn digit_groups(s: Seq<char>) -> (nat, nat)
    decreases s.len(),
{
    if s.len() == 0 {
        (0, 0)
    } else {
        let p = digit_groups(s.drop_last());
        let c = s.last();
        if is_digit_char(c) {
            (p.0, p.1 + 1)
        } else if is_unit_char(c) {
            (p.0 + if p.1 > 0 {
                pow10(p.1)
            } else {
                0
            }, 0)
        } else {
            p
        }
    }
}

/// The sum, over the groups of digits of a text between unit characters, of ten to the
/// power of the digit count of the group. Every span that humantime reads has its
/// digits (whole and fractional, which humantime reads across whitespace) within one
/// such group, so a span of a group of `k` digits is less than `10^k` years.
pub open spec fn duration_weight(s: Seq<char>) -> nat {
    let g = digit_groups(s);
    g.0 + if g.1 > 0 {
        pow10(g.1)
    } else {
        0
    }
}

/// The largest weight of a text that is handed to humantime: a text of this weight
/// denotes less than `500_000_000_000` years of 31,557,600 seconds, which is less than
/// `u64::MAX` seconds.
pub const DURATION_WEIGHT_LIMIT: u64 = 500_000_000_000;

/// Whether a text is one that humantime reads without its seconds reaching `u64::MAX`.
pub open spec fn duration_text_bounded(s: Seq<char>) -> bool {
    duration_weight(s) <= DURATION_WEIGHT_LIMIT
}

/// The weight of a text grows with each character appended.
proof fn lemma_weight_grows(s: Seq<char>, i: int, j: int)
    requires
        0 <= i <= j <= s.len(),
    ensures
        duration_weight(s.take(i)) <= duration_weight(s.take(j)),
    decreases j - i,
{
    if i < j {
        lemma_weight_grows(s, i, j - 1);
        assert(s.take(j).drop_last() =~= s.take(j - 1));
        let g = digit_groups(s.take(j - 1));
        if g.1 > 0 {
            assert(pow10(g.1 + 1) == 10 * pow10(g.1));
        }
    }
}

/// Ten to the power `n`, for `n` up to 12.
fn pow10_exec(n: u64) -> (r: u64)
    requires
        n <= 12,
    ensures
        r == pow10(n as nat),
{
    let mut r: u64 = 1;
    let mut i: u64 = 0;
    while i < n
        invariant
            i <= n <= 12,
            r == pow10(i as nat),
            r <= 1_000_000_000_000,
        decreases n - i,
    {
        proof {
            assert(pow10((i + 1) as nat) == 10 * pow10(i as nat));
            assert(pow10(i as nat) <= pow10(11)) by {
                lemma_pow10_grows(i as nat, 11);
            }
            assert(pow10(11) == 100_000_000_000) by {
                reveal_with_fuel(pow10, 12);
            }
        }
        r = r * 10;
        i = i + 1;
    }
    r
}

/// Powers of ten grow with the exponent.
proof fn lemma_pow10_grows(a: nat, b: nat)
    requires
        a <= b,
    ensures
        pow10(a) <= pow10(b),
    decreases b,
{
    if a < b {
        lemma_pow10_grows(a, (b - 1) as nat);
    }
}

/// Whether humantime can be given a text: whether its weight is at most
/// `DURATION_WEIGHT_LIMIT`.
pub fn duration_text_is_bounded(text: &str) -> (r: bool)
    ensures
        r == duration_text_bounded(text@),
{
    let n = text.unicode_len();
    let mut closed: u64 = 0;
    let mut open: u64 = 0;
    let mut i: usize = 0;
    proof {
        assert(text@.take(0) =~= Seq::<char>::empty());
        assert(pow10(12) == 1_000_000_000_000) by {
            reveal_with_fuel(pow10, 13);
        }
    }
    while i < n
        invariant
            n == text@.len(),
            i <= n,
            digit_groups(text@.take(i as int)) == (closed as nat, open as nat),
            duration_weight(text@.take(i as int)) <= DURATION_WEIGHT_LIMIT,
            pow10(12) == 1_000_000_000_000,
        decreases n - i,
    {
        let c = text.get_char(i);
        proof {
            assert(text@.take(i + 1).drop_last() =~= text@.take(i as int));
            assert(text@.take(i + 1).last() == c);
            if open > 0 {
                if open > 11 {
                    lemma_pow10_grows(12, open as nat);
                }
            }
        }
        if '0' <= c && c <= '9' {
            proof {
                if open > 0 && open <= 11 {
                    lemma_pow10_grows(open as nat, 11);
                    assert(pow10(11) == 100_000_000_000) by {
                reveal_with_fuel(pow10, 12);
            }
                }
            }
            let p = pow10_exec(open + 1);
            proof {
                lemma_pow10_grows((open + 1) as nat, 12);
            }
            if closed + p > DURATION_WEIGHT_LIMIT {
                proof {
                    lemma_weight_grows(text@, i + 1, n as int);
                    assert(text@.take(n as int) =~= text@);
                }
                return false;
            }
            open = open + 1;
        } else if ('a' <= c && c <= 'z') || ('A' <= c && c <= 'Z') || c == 'µ' {
            if open > 0 {
                let p = pow10_exec(open);
                closed = closed + p;
            }
            open = 0;
        }
        i = i + 1;
    }
    proof {
        assert(text@.take(n as int) =~= text@);
    }
    true
}

/// What `humantime::parse_duration` gives for a text: the span, as seconds and
/// nanoseconds, or the text of its error.
pub uninterp spec fn parsed_duration(text: Seq<char>) -> Result<(nat, nat), Seq<char>>;

/// `humantime::parse_duration`: a span for a text such as `2h 37min`, or an error whose
/// text is returned. Which texts it accepts is not written out here, only that the
/// outcome depends on the text alone. The crate builds its result with
/// `Duration::new`, which panics where the seconds would pass `u64::MAX`; the bound on
/// the weight of the text keeps its seconds below `31_557_600 * 500_000_000_000`, far
/// from that.
#[verifier::external_body]
pub(crate) fn parse_duration_text(text: &str) -> (r: Result<Duration, String>)
    requires
        duration_text_bounded(text@),
    ensures
        match r {
            Ok(d) => parsed_duration(text@) == Ok::<(nat, nat), Seq<char>>(d@),
            Err(e) => parsed_duration(text@) == Err::<(nat, nat), Seq<char>>(e@),
        },
{
    match humantime::parse_duration(text) {
        Ok(d) => Ok(Duration::new(d.as_secs(), d.subsec_nanos())),
        Err(e) => Err(e.to_string()),
    }
}

} // verus!
