//! Numbers in text: decimal digits, and sizes in bytes.
use crate::text;
use vstd::prelude::*;

verus! {

// ---------------------------------------------------------------------------------------------
// Decimal digits
// ---------------------------------------------------------------------------------------------

/// The digit that stands for `d`.
pub open spec fn digit(d: nat) -> char {
    (48 + d) as char
}

/// `n` in decimal, without leading zeros.
pub open spec fn decimal(n: nat) -> Seq<char>
    decreases n,
{
    if n < 10 {
        seq![digit(n)]
    } else {
        decimal(n / 10).push(digit(n % 10))
    }
}

/// `c` is a digit from `0` to `9`.
pub open spec fn is_digit(c: char) -> bool {
    '0' <= c <= '9'
}

/// Every character of `s` is a digit.
pub open spec fn all_digits(s: Seq<char>) -> bool {
    forall|i: int| 0 <= i < s.len() ==> is_digit(#[trigger] s[i])
}

/// The number that a sequence of digits stands for.
pub open spec fn digits_value(s: Seq<char>) -> nat
    decreases s.len(),
{
    if s.len() == 0 {
        0
    } else {
        (digits_value(s.drop_last()) * 10 + (s.last() as int - 48)) as nat
    }
}

/// The number of at most `max` that `s` stands for: digits, behind a plus sign or not.
pub open spec fn unsigned_value(s: Seq<char>, max: nat) -> Option<nat> {
    let digits = if text::starts_with(s, seq!['+']) {
        s.drop_first()
    } else {
        s
    };
    if digits.len() > 0 && all_digits(digits) && digits_value(digits) <= max {
        Some(digits_value(digits))
    } else {
        None
    }
}

/// A number's decimal digits are digits, and stand for it.
pub proof fn decimal_stands_for_the_number(n: nat)
    ensures
        decimal(n).len() > 0,
        all_digits(decimal(n)),
        digits_value(decimal(n)) == n,
    decreases n,
{
    if n < 10 {
        assert(decimal(n).drop_last() =~= Seq::empty());
        assert(digits_value(decimal(n).drop_last()) == 0);
    } else {
        decimal_stands_for_the_number(n / 10);
        assert(decimal(n).drop_last() =~= decimal(n / 10));
    }
}

/// Different numbers have different decimal digits.
pub proof fn decimal_tells_numbers_apart(a: nat, b: nat)
    requires
        decimal(a) == decimal(b),
    ensures
        a == b,
{
    decimal_stands_for_the_number(a);
    decimal_stands_for_the_number(b);
}

/// No number but zero begins with a zero.
pub proof fn decimal_has_no_leading_zeros(n: nat)
    ensures
        decimal(n)[0] == '0' ==> n == 0 && decimal(n).len() == 1,
    decreases n,
{
    if n >= 10 {
        decimal_has_no_leading_zeros(n / 10);
        decimal_stands_for_the_number(n / 10);
        assert(decimal(n)[0] == decimal(n / 10)[0]);
    } else {
        assert(digit(n) as int == 48 + n);
    }
}

/// The whole number that is taken for a size is the nearest one that double precision holds: it is
/// off by half the distance between neighbours at most, and by nothing up to fifty-three bits.
pub proof fn sizes_are_rounded_to_the_nearest_double(n: nat)
    requires
        n <= u64::MAX,
    ensures
        n < 0x20_0000_0000_0000 ==> nearest_double(n) == n,
        2 * (nearest_double(n) - n) <= spacing(n),
        2 * (n - nearest_double(n)) <= spacing(n),
        spacing(n) > 1 ==> n >= 0x10_0000_0000_0000 * spacing(n),
        n < 0x20_0000_0000_0000 * spacing(n),
{
    lemma_spacing(n);
    let d = spacing(n);
    let q = n / d;
    let r = n % d;
    assert(n == q * d + r && r < d) by (nonlinear_arith)
        requires
            q == n / d,
            r == n % d,
            d > 0,
    ;
    assert((q + 1) * d == q * d + d) by (nonlinear_arith);
    if n < 0x20_0000_0000_0000 {
        assert(q * d == q) by (nonlinear_arith)
            requires
                d == 1,
        ;
    }
    reveal_with_fuel(spacing, 13);
}

/// A number that fits reads back as itself.
pub proof fn decimal_reads_back(n: nat, max: nat)
    requires
        n <= max,
    ensures
        unsigned_value(decimal(n), max) == Some(n),
{
    decimal_stands_for_the_number(n);
    assert(is_digit(decimal(n)[0]));
    if text::starts_with(decimal(n), seq!['+']) {
        assert(decimal(n).subrange(0, 1)[0] == '+');
    }
}

/// More digits stand for no smaller a number.
proof fn lemma_prefix_value(s: Seq<char>, n: int)
    requires
        0 <= n <= s.len(),
        forall|i: int| n <= i < s.len() ==> is_digit(#[trigger] s[i]),
    ensures
        digits_value(s.take(n)) <= digits_value(s),
    decreases s.len(),
{
    if n < s.len() {
        assert(is_digit(s[s.len() - 1]));
        lemma_prefix_value(s.drop_last(), n);
        assert(s.drop_last().take(n) =~= s.take(n));
    } else {
        assert(s.take(n) =~= s);
    }
}

/// Appends `n` in decimal.
pub fn push_decimal(out: &mut String, n: u64)
    ensures
        final(out)@ == old(out)@ + decimal(n as nat),
    decreases n,
{
    if n >= 10 {
        push_decimal(out, n / 10);
    }
    let d: u8 = (n % 10) as u8;
    out.push((48 + d) as char);
    assert(out@ =~= old(out)@ + decimal(n as nat));
}

/// Whether every character of `s` is a digit.
pub fn are_digits(s: &[char]) -> (b: bool)
    ensures
        b == all_digits(s@),
{
    let mut i: usize = 0;
    while i < s.len()
        invariant
            i <= s.len(),
            forall|j: int| 0 <= j < i ==> is_digit(#[trigger] s@[j]),
        decreases s.len() - i,
    {
        if !('0' <= s[i] && s[i] <= '9') {
            assert(!is_digit(s@[i as int]));
            return false;
        }
        i += 1;
    }
    true
}

/// The number of at most `max` that `s` stands for.
pub fn parse_unsigned(s: &[char], max: u64) -> (value: Option<u64>)
    ensures
        match value {
            Some(v) => unsigned_value(s@, max as nat) == Some(v as nat),
            None => unsigned_value(s@, max as nat) is None,
        },
{
    let digits: &[char] = match text::after_prefix(s, "+") {
        Some(rest) => rest,
        None => s,
    };
    proof {
        reveal_strlit("+");
        assert("+"@ =~= seq!['+']);
        assert(s@.len() > 0 ==> s@.skip(1) =~= s@.drop_first());
    }
    if digits.len() == 0 || !are_digits(digits) {
        return None;
    }
    let mut value: u64 = 0;
    let mut i: usize = 0;
    while i < digits.len()
        invariant
            i <= digits.len(),
            all_digits(digits@),
            value <= max,
            value == digits_value(digits@.take(i as int)),
            unsigned_value(s@, max as nat) == if digits_value(digits@) <= max {
                Some(digits_value(digits@))
            } else {
                None
            },
        decreases digits.len() - i,
    {
        assert(is_digit(digits@[i as int]));
        let next: u128 = value as u128 * 10 + (digits[i] as u8 - 48) as u128;
        proof {
            assert(digits@.take(i + 1).drop_last() =~= digits@.take(i as int));
            assert(next == digits_value(digits@.take(i + 1)));
            lemma_prefix_value(digits@, i + 1);
        }
        if next > max as u128 {
            return None;
        }
        value = next as u64;
        i += 1;
    }
    assert(digits@.take(digits@.len() as int) =~= digits@);
    Some(value)
}

// ---------------------------------------------------------------------------------------------
// Sizes
// ---------------------------------------------------------------------------------------------

/// `n` divided by `d`, rounded to the nearest whole number; halfway, to the even one.
pub open spec fn half_even(n: nat, d: nat) -> nat {
    let q = n / d;
    let r = n % d;
    if 2 * r < d || (2 * r == d && q % 2 == 0) {
        q
    } else {
        q + 1
    }
}

/// The distance between neighbours of `n` among the numbers with a significand of 53 bits.
pub open spec fn spacing(n: nat) -> nat
    decreases n,
{
    if n < 0x20_0000_0000_0000 {
        1
    } else {
        2 * spacing(n / 2)
    }
}

/// The whole number with a significand of 53 bits that is nearest to `n`; halfway, the one whose
/// significand is even.
pub open spec fn nearest_double(n: nat) -> nat {
    half_even(n, spacing(n)) * spacing(n)
}

/// How many bytes the unit makes in which a size of `n` bytes is told: 1024 times as many as the
/// unit before, as long as the size reaches that much, up to GiB.
pub open spec fn unit_size(n: nat) -> nat {
    if n < 0x400 {
        1
    } else if n < 0x10_0000 {
        0x400
    } else if n < 0x4000_0000 {
        0x10_0000
    } else {
        0x4000_0000
    }
}

/// The name of the unit that makes `size` bytes.
pub open spec fn unit_name(size: nat) -> Seq<char> {
    if size == 1 {
        "B"@
    } else if size == 0x400 {
        "KiB"@
    } else if size == 0x10_0000 {
        "MiB"@
    } else {
        "GiB"@
    }
}

/// A size in bytes as text: in double precision, in the largest unit that it reaches, with one
/// digit behind the point.
pub open spec fn size_text(bytes: nat) -> Seq<char> {
    let value = nearest_double(bytes);
    let size = unit_size(value);
    let tenths = half_even(value * 10, size);
    decimal(tenths / 10) + "."@ + seq![digit(tenths % 10)] + " "@ + unit_name(size)
}

/// `n` divided by `d`, rounded to the nearest whole number; halfway, to the even one.
fn divide_half_even(n: u128, d: u128) -> (q: u128)
    requires
        0 < d <= 0x1_0000_0000_0000_0000,
        n < 0x1_0000_0000_0000_0000_0000,
    ensures
        q == half_even(n as nat, d as nat),
{
    let q: u128 = n / d;
    let r: u128 = n % d;
    assert(q <= n) by (nonlinear_arith)
        requires
            q == n / d,
            d > 0,
    ;
    if 2 * r < d || (2 * r == d && q % 2 == 0) {
        q
    } else {
        q + 1
    }
}

/// The spacing at `n` keeps the rounded significand within 53 bits.
proof fn lemma_spacing(n: nat)
    requires
        n <= u64::MAX,
    ensures
        0 < spacing(n) <= 0x800,
        n < 0x20_0000_0000_0000 * spacing(n),
{
    reveal_with_fuel(spacing, 13);
}

/// The distance between neighbours of `n` among the numbers with a significand of 53 bits.
fn spacing_of(n: u64) -> (s: u64)
    ensures
        s == spacing(n as nat),
{
    let mut m: u64 = n;
    let mut s: u64 = 1;
    proof {
        lemma_spacing(n as nat);
    }
    while m >= 0x20_0000_0000_0000
        invariant
            s * spacing(m as nat) == spacing(n as nat),
            spacing(n as nat) <= 0x800,
        decreases m,
    {
        proof {
            lemma_spacing((m / 2) as nat);
            let t = spacing((m / 2) as nat);
            assert(spacing(m as nat) == 2 * t);
            assert(s * (2 * t) == (s * 2) * t && s * 2 <= s * (2 * t)) by (nonlinear_arith)
                requires
                    t >= 1,
            ;
        }
        m = m / 2;
        s = s * 2;
    }
    assert(spacing(m as nat) == 1);
    assert(s * spacing(m as nat) == s) by (nonlinear_arith)
        requires
            spacing(m as nat) == 1,
    ;
    s
}

/// A size in bytes as text, in the largest unit that it reaches, with one digit behind the point.
pub fn format_bytes(bytes: u64) -> (out: String)
    ensures
        out@ == size_text(bytes as nat),
{
    let step: u64 = spacing_of(bytes);
    proof {
        lemma_spacing(bytes as nat);
    }
    let significand: u128 = divide_half_even(bytes as u128, step as u128);
    assert(significand <= 0x20_0000_0000_0000) by {
        assert(bytes / step < 0x20_0000_0000_0000) by (nonlinear_arith)
            requires
                bytes < 0x20_0000_0000_0000 * step,
                step > 0,
        ;
    }
    assert(significand * step <= 0x20_0000_0000_0000 * 0x800) by (nonlinear_arith)
        requires
            significand <= 0x20_0000_0000_0000,
            step <= 0x800,
    ;
    let value: u128 = significand * step as u128;
    let (size, name): (u128, &str) = if value < 0x400 {
        (1, "B")
    } else if value < 0x10_0000 {
        (0x400, "KiB")
    } else if value < 0x4000_0000 {
        (0x10_0000, "MiB")
    } else {
        (0x4000_0000, "GiB")
    };
    let tenths: u128 = divide_half_even(value * 10, size);
    assert(tenths / 10 <= u64::MAX) by {
        let n = value * 10;
        let d = size as int;
        if value >= 0x400 {
            assert(n / d <= n / 0x400) by (nonlinear_arith)
                requires
                    d >= 0x400,
                    n >= 0,
            ;
        }
    }
    let mut out: String = String::new();
    push_decimal(&mut out, (tenths / 10) as u64);
    out.append(".");
    out.push((48 + (tenths % 10) as u8) as char);
    out.append(" ");
    out.append(name);
    assert(out@ =~= size_text(bytes as nat));
    out
}

} // verus!
