//! Decimal rendering of numbers and the human-readable duration formatter.
//!
//! The formatter lists the non-zero components of a time span among days,
//! hours, minutes and seconds, in descending order of magnitude, each as
//! `"<N> <unit> "`; a zero-magnitude component is omitted. Components are
//! the remainders of the span under truncating (towards-zero) division, so
//! a negative span lists its non-zero components with their signs; callers
//! clamp a negative span to zero where a negative reading would be
//! meaningless. A span whose components are all zero yields the empty
//! string.

use vstd::prelude::*;
use vstd::string::StringExecFns;

verus! {

pub const MS_PER_SECOND: i64 = 1_000;

pub const MS_PER_MINUTE: i64 = 60_000;

pub const MS_PER_HOUR: i64 = 3_600_000;

pub const MS_PER_DAY: i64 = 86_400_000;

/// The character for a single decimal digit.
pub open spec fn dec_digit(d: nat) -> char {
    if d == 0 {
        '0'
    } else if d == 1 {
        '1'
    } else if d == 2 {
        '2'
    } else if d == 3 {
        '3'
    } else if d == 4 {
        '4'
    } else if d == 5 {
        '5'
    } else if d == 6 {
        '6'
    } else if d == 7 {
        '7'
    } else if d == 8 {
        '8'
    } else {
        '9'
    }
}

/// The numeric value of a decimal digit character; 10 for any other character.
pub open spec fn digit_val(c: char) -> nat {
    if c == '0' {
        0
    } else if c == '1' {
        1
    } else if c == '2' {
        2
    } else if c == '3' {
        3
    } else if c == '4' {
        4
    } else if c == '5' {
        5
    } else if c == '6' {
        6
    } else if c == '7' {
        7
    } else if c == '8' {
        8
    } else if c == '9' {
        9
    } else {
        10
    }
}

pub open spec fn is_digit(c: char) -> bool {
    digit_val(c) < 10
}

pub open spec fn all_digits(s: Seq<char>) -> bool {
    forall|i: int| 0 <= i < s.len() ==> is_digit(#[trigger] s[i])
}

/// The usual decimal rendering of a natural number, without sign or leading
/// zeros (except for zero itself, rendered "0").
pub open spec fn dec(n: nat) -> Seq<char>
    decreases n,
{
    if n < 10 {
        seq![dec_digit(n)]
    } else {
        dec(n / 10) + seq![dec_digit(n % 10)]
    }
}

/// The value of a string of decimal digits, read most significant first.
pub open spec fn val_of(s: Seq<char>) -> nat
    decreases s.len(),
{
    if s.len() == 0 {
        0
    } else {
        val_of(s.drop_last()) * 10 + digit_val(s.last())
    }
}

/// Decimal rendering consists of digits and evaluates back to the number it
/// renders; hence it is injective.
pub proof fn lemma_dec_of(n: nat)
    ensures
        dec(n).len() >= 1,
        all_digits(dec(n)),
        val_of(dec(n)) == n,
    decreases n,
{
    if n < 10 {
        let s = dec(n);
        assert(s.drop_last() =~= Seq::<char>::empty());
        assert(val_of(Seq::<char>::empty()) == 0);
        assert(s.last() == dec_digit(n));
        assert(val_of(s) == val_of(s.drop_last()) * 10 + digit_val(s.last()));
        assert(val_of(s) == digit_val(dec_digit(n)));
    } else {
        lemma_dec_of(n / 10);
        let s = dec(n);
        assert(s.drop_last() =~= dec(n / 10));
        assert(s.last() == dec_digit(n % 10));
        assert(digit_val(dec_digit(n % 10)) == n % 10);
        assert(val_of(s) == (n / 10) * 10 + n % 10);
        assert((n / 10) * 10 + n % 10 == n) by (nonlinear_arith);
        assert forall|i: int| 0 <= i < s.len() implies is_digit(#[trigger] s[i]) by {
            if i < s.len() - 1 {
                assert(s[i] == dec(n / 10)[i]);
            }
        }
    }
}

/// Truncating (towards-zero) division, under which a span decomposes into
/// components carrying the span's sign; `b` is always a positive unit here.
pub open spec fn tdiv(a: int, b: int) -> int {
    if a >= 0 {
        a / b
    } else {
        -((-a) / b)
    }
}

/// The remainder matching `tdiv`: it carries the sign of the dividend.
pub open spec fn tmod(a: int, b: int) -> int {
    a - b * tdiv(a, b)
}

/// The decimal rendering of a possibly negative count.
pub open spec fn dec_signed(n: int) -> Seq<char> {
    if n < 0 {
        seq!['-'] + dec((-n) as nat)
    } else {
        dec(n as nat)
    }
}

/// One component of a formatted span: the signed count followed by its unit
/// label, or nothing when the count is zero.
pub open spec fn unit_part(n: int, label: Seq<char>) -> Seq<char> {
    if n != 0 {
        dec_signed(n) + label
    } else {
        Seq::<char>::empty()
    }
}

/// The formatted rendering of a span of `ms` milliseconds: the non-zero
/// components among days, hours, minutes and seconds, largest first, each as
/// `"<N> <unit> "`. The components are the remainders under truncating
/// division consistent with the span's sign, so a negative span lists
/// negative components and a span of all-zero components renders empty.
pub open spec fn spec_format(ms: int) -> Seq<char> {
    unit_part(tdiv(ms, MS_PER_DAY as int), " days "@) + unit_part(
        tmod(tdiv(ms, MS_PER_HOUR as int), 24),
        " hours "@,
    ) + unit_part(tmod(tdiv(ms, MS_PER_MINUTE as int), 60), " minutes "@) + unit_part(
        tmod(tdiv(ms, MS_PER_SECOND as int), 60),
        " seconds "@,
    )
}

/// The one-character string for a decimal digit.
fn digit_str(d: u64) -> (s: &'static str)
    requires
        d < 10,
    ensures
        s@ =~= seq![dec_digit(d as nat)],
{
    proof {
        reveal_strlit("0");
        reveal_strlit("1");
        reveal_strlit("2");
        reveal_strlit("3");
        reveal_strlit("4");
        reveal_strlit("5");
        reveal_strlit("6");
        reveal_strlit("7");
        reveal_strlit("8");
        reveal_strlit("9");
    }
    if d == 0 {
        "0"
    } else if d == 1 {
        "1"
    } else if d == 2 {
        "2"
    } else if d == 3 {
        "3"
    } else if d == 4 {
        "4"
    } else if d == 5 {
        "5"
    } else if d == 6 {
        "6"
    } else if d == 7 {
        "7"
    } else if d == 8 {
        "8"
    } else {
        "9"
    }
}

/// Appends the decimal rendering of `n` to `out`.
pub fn push_dec(out: &mut String, n: u64)
    ensures
        final(out)@ == old(out)@ + dec(n as nat),
    decreases n,
{
    let ghost pre = out@;
    if n >= 10 {
        push_dec(out, n / 10);
        out.append(digit_str(n % 10));
        assert(out@ =~= pre + (dec((n / 10) as nat) + seq![dec_digit((n % 10) as nat)]));
    } else {
        out.append(digit_str(n));
        assert(out@ =~= pre + dec(n as nat));
    }
}

/// The decimal rendering of `n` as a fresh string.
pub fn u64_string(n: u64) -> (s: String)
    ensures
        s@ == dec(n as nat),
{
    let mut s = String::new();
    push_dec(&mut s, n);
    assert(s@ =~= dec(n as nat));
    s
}

/// Appends one formatted span component to `out`: a count of magnitude `n`,
/// negated when `neg` holds.
fn push_part(out: &mut String, n: u64, neg: bool, label: &str)
    ensures
        final(out)@ == old(out)@ + unit_part(
            if neg {
                -(n as int)
            } else {
                n as int
            },
            label@,
        ),
{
    let ghost pre = out@;
    if n > 0 {
        if neg {
            out.append("-");
        }
        push_dec(out, n);
        out.append(label);
        proof {
            reveal_strlit("-");
            if neg {
                assert(out@ =~= pre + ((seq!['-'] + dec(n as nat)) + label@));
            } else {
                assert(out@ =~= pre + (dec(n as nat) + label@));
            }
        }
    } else {
        assert(out@ =~= pre + unit_part(0, label@));
    }
}

/// Formats a span given in milliseconds, per `spec_format`: the non-zero
/// components among days, hours, minutes and seconds, in that order, each as
/// `"<N> <unit> "`, signed as the span is; the empty string when every
/// component is zero. The result depends on the span alone.
pub fn duration_formatter(ms: i64) -> (s: String)
    ensures
        s@ == spec_format(ms as int),
{
    let neg = ms < 0;
    let t: u64 = if ms >= 0 {
        ms as u64
    } else {
        ((-(ms + 1)) as u64) + 1
    };
    assert(t as int == if ms >= 0 { ms as int } else { -(ms as int) });
    let days: u64 = t / 86_400_000;
    let hours: u64 = (t / 3_600_000) % 24;
    let minutes: u64 = (t / 60_000) % 60;
    let seconds: u64 = (t / 1_000) % 60;
    let ghost m = ms as int;
    let ghost cd = tdiv(m, MS_PER_DAY as int);
    let ghost ch = tmod(tdiv(m, MS_PER_HOUR as int), 24);
    let ghost cm = tmod(tdiv(m, MS_PER_MINUTE as int), 60);
    let ghost cs = tmod(tdiv(m, MS_PER_SECOND as int), 60);
    proof {
        lemma_truncating_components(m, t as int);
        assert(cd == if neg { -(days as int) } else { days as int });
        assert(ch == if neg { -(hours as int) } else { hours as int });
        assert(cm == if neg { -(minutes as int) } else { minutes as int });
        assert(cs == if neg { -(seconds as int) } else { seconds as int });
    }
    let mut out = String::new();
    push_part(&mut out, days, neg, " days ");
    push_part(&mut out, hours, neg, " hours ");
    push_part(&mut out, minutes, neg, " minutes ");
    push_part(&mut out, seconds, neg, " seconds ");
    assert(out@ =~= spec_format(m));
    out
}

/// The truncating decomposition of a span mirrors the decomposition of its
/// magnitude: each signed component is the span's sign put on the magnitude's
/// component.
proof fn lemma_truncating_components(m: int, t: int)
    requires
        t == if m >= 0 { m } else { -m },
    ensures
        tdiv(m, MS_PER_DAY as int) == if m >= 0 { t / 86_400_000 } else { -(t / 86_400_000) },
        tmod(tdiv(m, MS_PER_HOUR as int), 24) == if m >= 0 {
            (t / 3_600_000) % 24
        } else {
            -((t / 3_600_000) % 24)
        },
        tmod(tdiv(m, MS_PER_MINUTE as int), 60) == if m >= 0 {
            (t / 60_000) % 60
        } else {
            -((t / 60_000) % 60)
        },
        tmod(tdiv(m, MS_PER_SECOND as int), 60) == if m >= 0 {
            (t / 1_000) % 60
        } else {
            -((t / 1_000) % 60)
        },
{
    if m >= 0 {
        lemma_nonneg_tmod(t / 3_600_000, 24);
        lemma_nonneg_tmod(t / 60_000, 60);
        lemma_nonneg_tmod(t / 1_000, 60);
    } else {
        lemma_neg_tmod(t / 3_600_000, 24);
        lemma_neg_tmod(t / 60_000, 60);
        lemma_neg_tmod(t / 1_000, 60);
    }
}

/// For a non-negative dividend the truncating remainder is the Euclidean one.
proof fn lemma_nonneg_tmod(x: int, b: int)
    requires
        x >= 0,
        b > 0,
    ensures
        tmod(x, b) == x % b,
{
    assert(x == b * (x / b) + x % b) by (nonlinear_arith)
        requires
            x >= 0,
            b > 0,
    ;
}

/// Negating a non-negative dividend negates its truncating remainder.
proof fn lemma_neg_tmod(x: int, b: int)
    requires
        x >= 0,
        b > 0,
    ensures
        tmod(-x, b) == -(x % b),
{
    assert(x == b * (x / b) + x % b) by (nonlinear_arith)
        requires
            x >= 0,
            b > 0,
    ;
    assert(tdiv(-x, b) == -(x / b));
    assert(tmod(-x, b) == -x - b * (-(x / b)));
    assert(-x - b * (-(x / b)) == -(x - b * (x / b))) by (nonlinear_arith);
}

} // verus!
