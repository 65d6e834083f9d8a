//! Integer rendering for emitted code: decimal (as `{}` writes it) and
//! zero-padded lowercase hexadecimal (as `{:08x}` writes it).
use vstd::prelude::*;
use vstd::arithmetic::power2::{pow2, lemma2_to64, lemma_pow2_unfold};

verus! {

/// The character of digit `d` (`0`-`9`, then `a`-`f`).
pub open spec fn digit_char(d: int) -> char {
    if d == 0 {
        '0'
    } else if d == 1 {
        '1'
    } else if d == 2 {
        '2'
    } else if d == 3 {
        '3'
    } else if d == 4 {
        '4'
    } else if d == 5 {
        '5'
    } else if d == 6 {
        '6'
    } else if d == 7 {
        '7'
    } else if d == 8 {
        '8'
    } else if d == 9 {
        '9'
    } else if d == 10 {
        'a'
    } else if d == 11 {
        'b'
    } else if d == 12 {
        'c'
    } else if d == 13 {
        'd'
    } else if d == 14 {
        'e'
    } else {
        'f'
    }
}

/// The digits of `n` in base `base`, most significant first, without
/// leading zeros.
pub open spec fn digits_text(n: nat, base: nat) -> Seq<char>
    recommends
        2 <= base <= 16,
    decreases n,
{
    if n < base || base < 2 {
        seq![digit_char(n as int)]
    } else {
        proof {
            assert(n / base < n) by (nonlinear_arith)
                requires
                    base >= 2,
                    n >= base,
            ;
        }
        digits_text(n / base, base).push(digit_char((n % base) as int))
    }
}

/// `part` occurs somewhere in `s`.
pub open spec fn contains_text(s: Seq<char>, part: Seq<char>) -> bool {
    exists|a: Seq<char>, b: Seq<char>| #[trigger] (a + part + b) == s
}

/// Text that follows a piece of the form label, value, closer contains
/// that piece.
pub broadcast proof fn lemma_contains_triple(x: Seq<char>, a: Seq<char>, v: Seq<char>, b: Seq<char>)
    ensures
        #[trigger] contains_text(x + a + v + b, a + v + b),
{
    assert(x + (a + v + b) + Seq::<char>::empty() =~= x + a + v + b);
}

/// Appending text keeps every piece that occurs.
pub broadcast proof fn lemma_contains_append(x: Seq<char>, y: Seq<char>, p: Seq<char>)
    requires
        contains_text(x, p),
    ensures
        #[trigger] contains_text(x + y, p),
{
    let (a, b): (Seq<char>, Seq<char>) = choose|a: Seq<char>, b: Seq<char>| #[trigger] (a + p + b) == x;
    assert(a + p + (b + y) =~= x + y);
}

/// The decimal form of `n`.
pub open spec fn decimal_text(n: nat) -> Seq<char> {
    digits_text(n, 10)
}

/// The number that a string of decimal digits spells.
pub open spec fn decimal_value(s: Seq<char>) -> int
    decreases s.len(),
{
    if s.len() == 0 {
        0
    } else {
        decimal_value(s.drop_last()) * 10 + (s.last() as int - '0' as int)
    }
}

/// The decimal form of `n` is made of the digits `0` to `9`, has no
/// leading zero, and reads back as `n`.
pub proof fn lemma_decimal_text_reads_back(n: nat)
    ensures
        decimal_text(n).len() >= 1,
        forall|i: int| 0 <= i < decimal_text(n).len() ==> '0' <= #[trigger] decimal_text(n)[i] <= '9',
        n > 0 ==> decimal_text(n)[0] != '0',
        decimal_value(decimal_text(n)) == n,
    decreases n,
{
    if n >= 10 {
        lemma_quotient_smaller(n, 10);
        lemma_decimal_text_reads_back(n / 10);
        let prev = decimal_text(n / 10);
        assert(decimal_text(n) == prev.push(digit_char(n as int % 10)));
        assert(decimal_text(n).drop_last() =~= prev);
        lemma_digit_char_value(n as int % 10);
        assert(n == (n / 10) * 10 + n % 10);
        assert(decimal_value(decimal_text(n)) == decimal_value(prev) * 10 + (digit_char(n as int % 10) as int
            - '0' as int));
        assert forall|i: int| 0 <= i < decimal_text(n).len() implies '0' <= #[trigger] decimal_text(n)[i]
            <= '9' by {
            if i < prev.len() {
                assert(decimal_text(n)[i] == prev[i]);
            }
        }
    } else {
        lemma_digit_char_value(n as int);
        assert(decimal_text(n).drop_last() =~= Seq::<char>::empty());
        assert(decimal_value(Seq::<char>::empty()) == 0);
    }
}

/// Digit characters `0` to `9` spell their values.
proof fn lemma_digit_char_value(d: int)
    requires
        0 <= d < 10,
    ensures
        digit_char(d) as int - '0' as int == d,
        '0' <= digit_char(d) <= '9',
{
}

/// The decimal form of a signed `i`: a minus sign before the magnitude of a
/// negative number.
pub open spec fn signed_decimal_text(i: int) -> Seq<char> {
    if i < 0 {
        seq!['-'] + decimal_text((-i) as nat)
    } else {
        decimal_text(i as nat)
    }
}

/// `k` zero digits.
pub open spec fn zeros_text(k: nat) -> Seq<char>
    decreases k,
{
    if k == 0 {
        Seq::empty()
    } else {
        zeros_text((k - 1) as nat).push('0')
    }
}

/// The digits of `n` in base `base`, padded with zeros on the left to at
/// least `width` digits.
pub open spec fn padded_digits_text(n: nat, base: nat, width: nat) -> Seq<char> {
    let h = digits_text(n, base);
    if h.len() < width {
        zeros_text((width - h.len()) as nat) + h
    } else {
        h
    }
}

/// The lowercase hexadecimal form of `n`, padded with zeros on the left to
/// at least `width` digits.
pub open spec fn padded_hex_text(n: nat, width: nat) -> Seq<char> {
    padded_digits_text(n, 16, width)
}

fn digit_str(d: u64) -> (s: &'static str)
    requires
        d < 16,
    ensures
        s@ == seq![digit_char(d as int)],
{
    proof {
        reveal_strlit("0");
        reveal_strlit("1");
        reveal_strlit("2");
        reveal_strlit("3");
        reveal_strlit("4");
        reveal_strlit("5");
        reveal_strlit("6");
        reveal_strlit("7");
        reveal_strlit("8");
        reveal_strlit("9");
        reveal_strlit("a");
        reveal_strlit("b");
        reveal_strlit("c");
        reveal_strlit("d");
        reveal_strlit("e");
        reveal_strlit("f");
    }
    if d == 0 {
        "0"
    } else if d == 1 {
        "1"
    } else if d == 2 {
        "2"
    } else if d == 3 {
        "3"
    } else if d == 4 {
        "4"
    } else if d == 5 {
        "5"
    } else if d == 6 {
        "6"
    } else if d == 7 {
        "7"
    } else if d == 8 {
        "8"
    } else if d == 9 {
        "9"
    } else if d == 10 {
        "a"
    } else if d == 11 {
        "b"
    } else if d == 12 {
        "c"
    } else if d == 13 {
        "d"
    } else if d == 14 {
        "e"
    } else {
        "f"
    }
}

/// The digits of `n` in base `base`.
fn digits(n: u64, base: u64) -> (s: String)
    requires
        2 <= base <= 16,
    ensures
        s@ == digits_text(n as nat, base as nat),
    decreases n,
{
    if n < base {
        String::from_str(digit_str(n))
    } else {
        proof {
            lemma_quotient_smaller(n as nat, base as nat);
        }
        let mut s = digits(n / base, base);
        s.append(digit_str(n % base));
        s
    }
}

/// The decimal form of `n`, as `format!("{}", n)` writes it.
pub fn decimal(n: u64) -> (s: String)
    ensures
        s@ == decimal_text(n as nat),
{
    digits(n, 10)
}

/// The decimal form of a signed `i`, as `format!("{}", i)` writes it.
pub fn signed_decimal(i: i32) -> (s: String)
    ensures
        s@ == signed_decimal_text(i as int),
{
    proof {
        reveal_strlit("-");
    }
    if i < 0 {
        let wide: i64 = i as i64;
        let magnitude: u64 = (-wide) as u64;
        let mut s = String::from_str("-");
        let d = decimal(magnitude);
        s.append(d.as_str());
        s
    } else {
        decimal(i as u64)
    }
}

/// The number of digits of `n` in base `base`.
fn digit_count(n: u64, base: u64) -> (c: u64)
    requires
        2 <= base <= 16,
    ensures
        c == digits_text(n as nat, base as nat).len(),
        c <= 64,
    decreases n,
{
    proof {
        lemma_digits_len_bound(n as nat, base as nat);
    }
    if n < base {
        1
    } else {
        digit_count(n / base, base) + 1
    }
}

/// The digits of `n` in base `base`, padded with zeros to `width` digits.
fn padded_digits(n: u64, base: u64, width: u64) -> (s: String)
    requires
        2 <= base <= 16,
    ensures
        s@ == padded_digits_text(n as nat, base as nat, width as nat),
{
    let count = digit_count(n, base);
    let mut s = String::new();
    let mut pad: u64 = 0;
    let target: u64 = if count < width {
        width - count
    } else {
        0
    };
    while pad < target
        invariant
            pad <= target,
            s@ == zeros_text(pad as nat),
        decreases target - pad,
    {
        proof {
            reveal_strlit("0");
        }
        s.append("0");
        pad = pad + 1;
    }
    let h = digits(n, base);
    s.append(h.as_str());
    proof {
        if count >= width {
            assert(zeros_text(0) =~= Seq::<char>::empty());
            assert(s@ =~= digits_text(n as nat, base as nat));
        }
    }
    s
}

/// The lowercase hexadecimal form of `n` padded to 8 digits, as
/// `format!("{:08x}", n)` writes it.
pub fn hex08(n: u64) -> (s: String)
    ensures
        s@ == padded_hex_text(n as nat, 8),
{
    padded_digits(n, 16, 8)
}

/// The decimal form of `n` padded to 2 digits, as `format!("{:02}", n)`
/// writes it.
pub fn decimal02(n: u64) -> (s: String)
    ensures
        s@ == padded_digits_text(n as nat, 10, 2),
{
    padded_digits(n, 10, 2)
}

/// Dividing by a base of at least 2 makes a positive number smaller.
proof fn lemma_quotient_smaller(n: nat, base: nat)
    requires
        base >= 2,
        n >= base,
    ensures
        n / base < n,
{
    assert(n / base < n) by (nonlinear_arith)
        requires
            base >= 2,
            n >= base,
    ;
}

/// A number below `2^64` has at most 64 digits in any base from 2.
proof fn lemma_digits_len_bound(n: nat, base: nat)
    requires
        2 <= base <= 16,
        n < 0x1_0000_0000_0000_0000,
    ensures
        digits_text(n, base).len() <= 64,
        n >= base ==> digits_text(n, base).len() == digits_text(n / base, base).len() + 1,
{
    lemma2_to64();
    lemma_digits_len_log(n, base, 0x1_0000_0000_0000_0000, 64);
}

proof fn lemma_digits_len_log(n: nat, base: nat, bound: nat, k: nat)
    requires
        2 <= base <= 16,
        n < bound,
        bound <= pow2(k),
    ensures
        digits_text(n, base).len() <= if k == 0 { 1 } else { k },
        n >= base ==> digits_text(n, base).len() == digits_text(n / base, base).len() + 1,
    decreases n,
{
    if n >= base {
        if k == 0 {
            assert(false) by {
                lemma2_to64();
            }
        } else {
            assert(n / base < pow2((k - 1) as nat)) by {
                lemma_pow2_unfold(k);
                assert(n / base <= n / 2) by (nonlinear_arith)
                    requires
                        base >= 2,
                ;
                assert(n / 2 < pow2((k - 1) as nat));
            }
            lemma_quotient_smaller(n, base);
            lemma_digits_len_log(n / base, base, pow2((k - 1) as nat), (k - 1) as nat);
            if k == 1 {
                lemma2_to64();
                assert(n / base == 0);
            }
        }
    }
}

} // verus!
