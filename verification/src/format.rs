//! Byte counts for people: a plain count below a kibibyte, otherwise one
//! decimal in the largest binary unit the count reaches.

use vstd::prelude::*;

use crate::text::{decimal, decimal_spec, digit_char, push_str};

verus! {

pub open spec fn pow1024(k: nat) -> nat
    decreases k,
{
    if k == 0 {
        1
    } else {
        1024 * pow1024((k - 1) as nat)
    }
}

/// The binary unit a count is shown in: the largest of KiB, MiB, GiB and
/// TiB the count reaches, or plain bytes below a kibibyte.
pub open spec fn unit_rank(n: nat) -> nat {
    if n >= pow1024(4) {
        4
    } else if n >= pow1024(3) {
        3
    } else if n >= pow1024(2) {
        2
    } else if n >= pow1024(1) {
        1
    } else {
        0
    }
}

pub open spec fn unit_name(k: nat) -> Seq<char> {
    if k == 1 {
        "KiB"@
    } else if k == 2 {
        "MiB"@
    } else if k == 3 {
        "GiB"@
    } else {
        "TiB"@
    }
}

/// `n / d` in tenths, rounded to the nearest tenth, a tie going to the even
/// tenth (how a one-decimal float format rounds an exact quotient).
pub open spec fn tenths(n: nat, d: nat) -> nat
    recommends
        d > 0,
{
    let q = (n * 10) / d;
    let r = (n * 10) % d;
    if 2 * r > d || (2 * r == d && q % 2 == 1) {
        q + 1
    } else {
        q
    }
}

/// A byte count for people: `512 B`, `4.0 KiB`, `1.5 MiB`.
pub open spec fn human_bytes_spec(n: nat) -> Seq<char> {
    let k = unit_rank(n);
    if k == 0 {
        decimal_spec(n) + " B"@
    } else {
        let t = tenths(n, pow1024(k));
        decimal_spec(t / 10) + "."@ + seq![digit_char(t % 10)] + " "@ + unit_name(k)
    }
}

/// Formats a byte count.
pub fn human_bytes(n: u64) -> (s: String)
    ensures
        s@ == human_bytes_spec(n as nat),
{
    proof {
        reveal_with_fuel(pow1024, 5);
        assert(pow1024(1) == 1024);
        assert(pow1024(2) == 1048576);
        assert(pow1024(3) == 1073741824);
        assert(pow1024(4) == 1099511627776);
    }
    let mut s = String::new();
    let (k, d): (u64, u64) = if n >= 1099511627776 {
        (4, 1099511627776)
    } else if n >= 1073741824 {
        (3, 1073741824)
    } else if n >= 1048576 {
        (2, 1048576)
    } else if n >= 1024 {
        (1, 1024)
    } else {
        (0, 1)
    };
    if k == 0 {
        let digits = decimal(n);
        push_str(&mut s, digits.as_str());
        push_str(&mut s, " B");
        return s;
    }
    let scaled: u128 = (n as u128) * 10;
    let q: u128 = scaled / (d as u128);
    let r: u128 = scaled % (d as u128);
    let t: u128 = if 2 * r > d as u128 || (2 * r == d as u128 && q % 2 == 1) {
        q + 1
    } else {
        q
    };
    assert(t <= n as nat * 10 + 1) by (nonlinear_arith)
        requires
            q == (n as nat * 10) / (d as nat),
            d >= 1,
            t <= q + 1,
    {
        assert((n as nat * 10) / (d as nat) <= n as nat * 10) by (nonlinear_arith)
            requires d >= 1;
    }
    let whole = (t / 10) as u64;
    let frac = (t % 10) as u64;
    let digits = decimal(whole);
    push_str(&mut s, digits.as_str());
    push_str(&mut s, ".");
    s.push(crate::text::digit_of(frac));
    push_str(&mut s, " ");
    push_str(&mut s, if k == 1 {
        "KiB"
    } else if k == 2 {
        "MiB"
    } else if k == 3 {
        "GiB"
    } else {
        "TiB"
    });
    assert(s@ =~= human_bytes_spec(n as nat));
    s
}

} // verus!
