//! The terminal client's text shaping: shortened labels, the logarithmic
//! traffic meter, and the tone a status line is painted in.

use vstd::prelude::*;

use crate::text::{chars_of, contains_spec, contains_str, push_chars};

verus! {

/// `value`, or its first `max - 1` characters and an ellipsis when it has more
/// than `max` characters.
pub open spec fn short_label_spec(value: Seq<char>, max: nat) -> Seq<char> {
    if value.len() <= max {
        value
    } else {
        value.subrange(0, if max >= 1 {
            max - 1
        } else {
            0
        }) + seq!['…']
    }
}

/// Shortens a label to at most `max` characters, marking the cut with `…`.
pub fn short_label(value: &str, max: usize) -> (s: String)
    ensures
        s@ == short_label_spec(value@, max as nat),
{
    let v = chars_of(value);
    let mut s = String::new();
    if v.len() <= max {
        push_chars(&mut s, &v, 0, v.len());
        assert(v@.subrange(0, v@.len() as int) =~= v@);
    } else {
        let keep = if max >= 1 {
            max - 1
        } else {
            0
        };
        push_chars(&mut s, &v, 0, keep);
        s.push('…');
    }
    assert(s@ =~= short_label_spec(value@, max as nat));
    s
}

/// A shortened label never runs past `max` characters once `max` leaves room
/// for the ellipsis.
pub proof fn short_label_fits(value: Seq<char>, max: nat)
    requires
        max >= 1,
    ensures
        short_label_spec(value, max).len() <= max,
{
}

/// How many decimal digits `n` has (`n.ilog10() + 1` for `n > 0`).
pub open spec fn num_digits(n: nat) -> nat
    decreases n,
{
    if n < 10 {
        1
    } else {
        1 + num_digits(n / 10)
    }
}

proof fn lemma_num_digits_bound(n: u64)
    ensures
        1 <= num_digits(n as nat) <= 20,
{
    assert(pow10(20) == 100000000000000000000) by {
        reveal_with_fuel(pow10, 21);
    }
    lemma_digits_le(n as nat, 20);
}

proof fn lemma_digits_le(n: nat, d: nat)
    requires
        d >= 1,
        n < pow10(d),
    ensures
        num_digits(n) <= d,
    decreases d,
{
    if n >= 10 {
        assert(d >= 2) by {
            if d == 1 {
                assert(pow10(1) == 10) by {
                    reveal_with_fuel(pow10, 2);
                }
            }
        }
        assert(n / 10 < pow10((d - 1) as nat)) by {
            assert(pow10(d) == 10 * pow10((d - 1) as nat));
        }
        lemma_digits_le(n / 10, (d - 1) as nat);
    }
}

pub open spec fn pow10(d: nat) -> nat
    decreases d,
{
    if d == 0 {
        1
    } else {
        10 * pow10((d - 1) as nat)
    }
}

fn digits_of(value: u64) -> (d: usize)
    ensures
        d == num_digits(value as nat),
        1 <= d <= 20,
{
    proof {
        lemma_num_digits_bound(value);
    }
    let mut n = value;
    let mut d: usize = 1;
    while n >= 10
        invariant
            d + num_digits(n as nat) == 1 + num_digits(value as nat),
            num_digits(value as nat) <= 20,
            d >= 1,
        decreases n,
    {
        n = n / 10;
        d = d + 1;
    }
    d
}

/// How many of the meter's `width` cells are filled for `value`: none for
/// zero, otherwise a tenth of the width per decimal digit, kept between one
/// cell and the whole meter.
pub open spec fn meter_filled(value: nat, width: nat) -> nat {
    if value == 0 {
        0
    } else {
        let raw = num_digits(value) * width / 10;
        if raw < 1 {
            1
        } else if raw > width {
            width
        } else {
            raw
        }
    }
}

/// `n` copies of `c`.
pub open spec fn repeat(c: char, n: nat) -> Seq<char> {
    Seq::new(n, |i: int| c)
}

pub open spec fn meter_spec(value: nat, width: nat) -> Seq<char> {
    repeat('█', meter_filled(value, width)) + repeat(
        '░',
        (width - meter_filled(value, width)) as nat,
    )
}

fn push_repeat(out: &mut String, c: char, n: usize)
    ensures
        final(out)@ == old(out)@ + repeat(c, n as nat),
{
    let ghost start = out@;
    let mut i: usize = 0;
    while i < n
        invariant
            i <= n,
            out@ == start + repeat(c, i as nat),
        decreases n - i,
    {
        out.push(c);
        i = i + 1;
        assert(out@ =~= start + repeat(c, i as nat));
    }
}

/// A logarithmic bar of `width` cells for a byte rate. A zero-width meter
/// cannot show a non-zero rate (the fill is kept at one cell or more), and the
/// digit count times the width has to fit a `usize`.
pub fn meter(value: u64, width: usize) -> (bar: String)
    requires
        value == 0 || width >= 1,
        20 * width <= usize::MAX,
    ensures
        bar@ == meter_spec(value as nat, width as nat),
        bar@.len() == width,
{
    let filled: usize = if value == 0 {
        0
    } else {
        let digits = digits_of(value);
        assert(digits * width <= 20 * width) by (nonlinear_arith)
            requires
                digits <= 20,
        ;
        let raw = digits * width / 10;
        if raw < 1 {
            1
        } else if raw > width {
            width
        } else {
            raw
        }
    };
    let mut bar = String::new();
    push_repeat(&mut bar, '█', filled);
    push_repeat(&mut bar, '░', width - filled);
    assert(bar@ =~= meter_spec(value as nat, width as nat));
    bar
}

/// The meter is always exactly as wide as asked, whatever the rate.
pub proof fn meter_keeps_its_width(value: nat, width: nat)
    requires
        value == 0 || width >= 1,
    ensures
        meter_spec(value, width).len() == width,
        meter_filled(value, width) <= width,
{
}

/// The tone a status line is painted in.
#[derive(Clone, Copy, Debug, PartialEq, Eq, Structural)]
pub enum StatusTone {
    /// Failures, errors, crashes.
    Danger,
    /// Something the user still has to do.
    Amber,
    /// Done, started, already in place.
    Mint,
    /// Anything else.
    Text,
}

/// The tone the wording of a status line calls for, checked in order of
/// severity.
pub open spec fn status_tone_spec(status: Seq<char>) -> StatusTone {
    if contains_spec(status, "失败"@) || contains_spec(status, "错误"@) || contains_spec(
        status,
        "崩溃"@,
    ) {
        StatusTone::Danger
    } else if contains_spec(status, "需要"@) || contains_spec(status, "未"@) {
        StatusTone::Amber
    } else if contains_spec(status, "成功"@) || contains_spec(status, "启动"@) || contains_spec(
        status,
        "已"@,
    ) {
        StatusTone::Mint
    } else {
        StatusTone::Text
    }
}

/// Reads the tone of a status line from its wording.
pub fn status_color(status: &str) -> (tone: StatusTone)
    ensures
        tone == status_tone_spec(status@),
{
    if contains_str(status, "失败") || contains_str(status, "错误") || contains_str(status, "崩溃") {
        StatusTone::Danger
    } else if contains_str(status, "需要") || contains_str(status, "未") {
        StatusTone::Amber
    } else if contains_str(status, "成功") || contains_str(status, "启动") || contains_str(
        status,
        "已",
    ) {
        StatusTone::Mint
    } else {
        StatusTone::Text
    }
}

/// How a measured delay is graded for display.
#[derive(Clone, Copy, Debug, PartialEq, Eq, Structural)]
pub enum DelayLevel {
    /// Under [`FAST_BELOW_MS`].
    Fast,
    /// Under [`SLOW_BELOW_MS`].
    Slow,
    /// At or above [`SLOW_BELOW_MS`].
    Timeout,
    /// Not measured, or measured as zero (a failed probe).
    Unknown,
}

/// Delays under this many milliseconds are fast. The grading belongs to the
/// proxy engine's crate, which is not part of this workspace; these limits
/// are this library's own.
pub const FAST_BELOW_MS: u64 = 300;

/// Delays under this many milliseconds (and not fast) are slow; longer ones
/// count as timed out.
pub const SLOW_BELOW_MS: u64 = 1000;

pub open spec fn delay_level_spec(delay: Option<u64>) -> DelayLevel {
    match delay {
        None => DelayLevel::Unknown,
        Some(ms) => if ms == 0 {
            DelayLevel::Unknown
        } else if ms < FAST_BELOW_MS {
            DelayLevel::Fast
        } else if ms < SLOW_BELOW_MS {
            DelayLevel::Slow
        } else {
            DelayLevel::Timeout
        },
    }
}

/// Grades a measured delay in milliseconds.
pub fn delay_level(delay: Option<u64>) -> (level: DelayLevel)
    ensures
        level == delay_level_spec(delay),
{
    match delay {
        None => DelayLevel::Unknown,
        Some(ms) => if ms == 0 {
            DelayLevel::Unknown
        } else if ms < FAST_BELOW_MS {
            DelayLevel::Fast
        } else if ms < SLOW_BELOW_MS {
            DelayLevel::Slow
        } else {
            DelayLevel::Timeout
        },
    }
}

} // verus!
