//! Text: comparing it, joining it and writing whole numbers into it.

use vstd::prelude::*;

verus! {

/// Compares two texts, with `==` on `str`: true exactly where both hold the
/// same characters in the same order.
#[verifier::external_body]
pub(crate) fn same(a: &str, b: &str) -> (r: bool)
    ensures
        r == (a@ == b@),
{
    a == b
}

/// One decimal digit as a character.
pub open spec fn digit(d: int) -> char {
    (('0' as int) + d) as char
}

/// `n` in decimal, without a sign and without leading zeros.
pub open spec fn decimal(n: nat) -> Seq<char>
    decreases n,
{
    if n < 10 {
        seq![digit(n as int)]
    } else {
        decimal(n / 10).push(digit((n % 10) as int))
    }
}

/// `n` in decimal, with a leading minus sign where it is below zero.
pub open spec fn signed_decimal(n: int) -> Seq<char> {
    if n < 0 {
        seq!['-'] + decimal((-n) as nat)
    } else {
        decimal(n as nat)
    }
}

fn digit_text(d: u8) -> (r: &'static str)
    requires
        d < 10,
    ensures
        r@ == seq![digit(d as int)],
{
    proof {
        reveal_strlit("0");
        reveal_strlit("1");
        reveal_strlit("2");
        reveal_strlit("3");
        reveal_strlit("4");
        reveal_strlit("5");
        reveal_strlit("6");
        reveal_strlit("7");
        reveal_strlit("8");
        reveal_strlit("9");
    }
    match d {
        0 => "0",
        1 => "1",
        2 => "2",
        3 => "3",
        4 => "4",
        5 => "5",
        6 => "6",
        7 => "7",
        8 => "8",
        _ => "9",
    }
}

/// Appends `n` in decimal to `out`.
pub fn push_decimal(out: &mut String, n: u64)
    ensures
        final(out)@ == old(out)@ + decimal(n as nat),
    decreases n,
{
    if n < 10 {
        out.append(digit_text(n as u8));
    } else {
        push_decimal(out, n / 10);
        out.append(digit_text((n % 10) as u8));
    }
    assert(out@ =~= old(out)@ + decimal(n as nat));
}

/// Appends `n` in decimal, signed, to `out`.
pub fn push_signed(out: &mut String, n: i64)
    ensures
        final(out)@ == old(out)@ + signed_decimal(n as int),
{
    if n < 0 {
        proof {
            reveal_strlit("-");
        }
        out.append("-");
        assert("-"@ =~= seq!['-']);
        let m: u64 = (-(n as i128)) as u64;
        push_decimal(out, m);
        assert(out@ =~= old(out)@ + signed_decimal(n as int));
    } else {
        push_decimal(out, n as u64);
    }
}

/// `n` in decimal.
pub fn decimal_string(n: u64) -> (r: String)
    ensures
        r@ == decimal(n as nat),
{
    let mut out = String::new();
    push_decimal(&mut out, n);
    assert(out@ =~= decimal(n as nat));
    out
}

/// `a` followed by `b`.
pub fn join2(a: &str, b: &str) -> (r: String)
    ensures
        r@ == a@ + b@,
{
    let mut out = a.to_owned();
    out.append(b);
    out
}

/// `a`, `b` and `c`, one behind the other.
pub fn join3(a: &str, b: &str, c: &str) -> (r: String)
    ensures
        r@ == a@ + b@ + c@,
{
    let mut out = a.to_owned();
    out.append(b);
    out.append(c);
    out
}

/// `c` is a decimal digit.
pub open spec fn is_digit(c: char) -> bool {
    '0' <= c <= '9'
}

/// Each character of `s` is a decimal digit.
pub open spec fn all_digits(s: Seq<char>) -> bool {
    forall|i: int| 0 <= i < s.len() ==> is_digit(#[trigger] s[i])
}

/// The number that the digits `s` stand for.
pub open spec fn digits_value(s: Seq<char>) -> int
    decreases s.len(),
{
    if s.len() == 0 {
        0
    } else {
        digits_value(s.drop_last()) * 10 + (s.last() as int - '0' as int)
    }
}

/// `s` without the sign that it may begin with.
pub open spec fn unsigned_part(s: Seq<char>) -> Seq<char> {
    if s.len() > 0 && (s[0] == '+' || s[0] == '-') {
        s.skip(1)
    } else {
        s
    }
}

/// `s` begins with a minus sign.
pub open spec fn negative(s: Seq<char>) -> bool {
    s.len() > 0 && s[0] == '-'
}

/// The whole number that `s` stands for: a sign or none, then at least one digit
/// and nothing else.
pub open spec fn whole_number(s: Seq<char>) -> Option<int> {
    let d = unsigned_part(s);
    if d.len() > 0 && all_digits(d) {
        Some(
            if negative(s) {
                -digits_value(d)
            } else {
                digits_value(d)
            },
        )
    } else {
        None
    }
}

/// More digits stand for no smaller number.
proof fn more_digits(s: Seq<char>, n: int)
    requires
        0 <= n <= s.len(),
        all_digits(s),
    ensures
        0 <= digits_value(s.take(n)) <= digits_value(s),
    decreases s.len(),
{
    if n == s.len() {
        assert(s.take(n) =~= s);
        if n > 0 {
            assert(all_digits(s.drop_last()));
            more_digits(s.drop_last(), n - 1);
            assert(s.drop_last().take(n - 1) =~= s.drop_last());
            assert(is_digit(s[n - 1]));
        }
    } else {
        assert(all_digits(s.drop_last()));
        more_digits(s.drop_last(), n);
        assert(s.drop_last().take(n) =~= s.take(n));
        assert(is_digit(s[s.len() - 1]));
    }
}

/// What [`decimal`] writes are digits that stand for the same number.
pub proof fn decimal_reads_back(n: nat)
    ensures
        decimal(n).len() > 0,
        all_digits(decimal(n)),
        digits_value(decimal(n)) == n,
    decreases n,
{
    let d = decimal(n);
    if n < 10 {
        assert(d.drop_last() =~= Seq::<char>::empty());
        assert(digits_value(d.drop_last()) == 0);
        assert(d.last() as int == '0' as int + n);
    } else {
        decimal_reads_back(n / 10);
        assert(d.drop_last() =~= decimal(n / 10));
        assert(d.last() as int == '0' as int + n % 10);
        assert forall|i: int| 0 <= i < d.len() implies is_digit(#[trigger] d[i]) by {
            if i < d.len() - 1 {
                assert(d[i] == decimal(n / 10)[i]);
            }
        }
    }
}

/// A whole number that was written is read back as the same number.
pub proof fn written_number_reads_back(n: int)
    ensures
        whole_number(signed_decimal(n)) == Some(n),
{
    if n < 0 {
        decimal_reads_back((-n) as nat);
        assert(unsigned_part(signed_decimal(n)) =~= decimal((-n) as nat));
    } else {
        decimal_reads_back(n as nat);
        assert(is_digit(decimal(n as nat)[0]));
    }
}

/// The characters of `s`.
fn characters(s: &str) -> (r: Vec<char>)
    ensures
        r@ == s@,
{
    let n = s.unicode_len();
    let mut r: Vec<char> = Vec::new();
    let mut i: usize = 0;
    while i < n
        invariant
            i <= n,
            n == s@.len(),
            r@ == s@.take(i as int),
        decreases n - i,
    {
        r.push(s.get_char(i));
        assert(r@ =~= s@.take(i + 1));
        i += 1;
    }
    assert(s@.take(n as int) =~= s@);
    r
}

/// The number that the digits of `c` from `from` on stand for, where there are
/// any and it is at most `max`.
fn parse_digits(c: &Vec<char>, from: usize, max: u64) -> (r: Option<u64>)
    requires
        from <= c@.len(),
    ensures
        ({
            let d = c@.skip(from as int);
            r == (if d.len() > 0 && all_digits(d) && digits_value(d) <= max {
                Some(digits_value(d) as u64)
            } else {
                None
            })
        }),
{
    let ghost d = c@.skip(from as int);
    if from == c.len() {
        return None;
    }
    let mut value: u64 = 0;
    let mut i: usize = from;
    assert(d.take(0) =~= Seq::<char>::empty());
    while i < c.len()
        invariant
            from <= i <= c@.len(),
            d == c@.skip(from as int),
            forall|j: int| 0 <= j < i - from ==> is_digit(#[trigger] d[j]),
            value == digits_value(d.take(i - from)),
            value <= max,
        decreases c@.len() - i,
    {
        let ghost n = i - from;
        assert(d[n] == c@[i as int]);
        if c[i] < '0' || c[i] > '9' {
            assert(!is_digit(d[n]));
            return None;
        }
        let digit: u64 = (c[i] as u32 - '0' as u32) as u64;
        let next: u128 = value as u128 * 10 + digit as u128;
        proof {
            assert(d.take(n + 1).drop_last() =~= d.take(n));
            if all_digits(d) {
                more_digits(d, n + 1);
            }
        }
        if next > max as u128 {
            return None;
        }
        value = next as u64;
        i += 1;
    }
    assert(d.take(d.len() as int) =~= d);
    Some(value)
}

/// The number that `s` stands for, where it has no minus sign and is at most
/// `max`.
pub fn parse_unsigned(s: &str, max: u64) -> (r: Option<u64>)
    ensures
        match r {
            Some(v) => whole_number(s@) == Some(v as int) && !negative(s@) && v <= max,
            None => match whole_number(s@) {
                Some(n) => negative(s@) || n > max,
                None => true,
            },
        },
{
    let c = characters(s);
    if c.len() > 0 && c[0] == '-' {
        return None;
    }
    let from: usize = if c.len() > 0 && c[0] == '+' {
        1
    } else {
        0
    };
    assert(c@.skip(from as int) =~= unsigned_part(s@));
    proof {
        let d = unsigned_part(s@);
        if all_digits(d) {
            more_digits(d, 0);
        }
    }
    parse_digits(&c, from, max)
}

/// The number that `s` stands for, where it fits.
pub fn parse_signed(s: &str) -> (r: Option<i64>)
    ensures
        match r {
            Some(v) => whole_number(s@) == Some(v as int),
            None => match whole_number(s@) {
                Some(n) => n < i64::MIN || n > i64::MAX,
                None => true,
            },
        },
{
    let c = characters(s);
    proof {
        let d = unsigned_part(s@);
        if all_digits(d) {
            more_digits(d, 0);
        }
    }
    if c.len() > 0 && c[0] == '-' {
        assert(c@.skip(1) =~= unsigned_part(s@));
        match parse_digits(&c, 1, 9_223_372_036_854_775_808) {
            Some(n) => Some((-(n as i128)) as i64),
            None => None,
        }
    } else {
        let from: usize = if c.len() > 0 && c[0] == '+' {
            1
        } else {
            0
        };
        assert(c@.skip(from as int) =~= unsigned_part(s@));
        match parse_digits(&c, from, 9_223_372_036_854_775_807) {
            Some(n) => Some(n as i64),
            None => None,
        }
    }
}

/// Each digit more at the end makes the number ten times as large and adds itself.
pub proof fn digits_count_by_tens(s: Seq<char>, d: int)
    requires
        0 <= d < 10,
    ensures
        digits_value(s.push(digit(d))) == 10 * digits_value(s) + d,
        digits_value(Seq::empty()) == 0,
        is_digit(digit(d)),
{
    assert(s.push(digit(d)).drop_last() =~= s);
}

/// Digits stand for their number, with a plus sign or none, and for the number below zero with a
/// minus sign.
pub proof fn a_sign_tells_the_side_of_zero(d: Seq<char>)
    requires
        d.len() > 0,
        all_digits(d),
    ensures
        whole_number(d) == Some(digits_value(d)),
        whole_number(seq!['+'] + d) == Some(digits_value(d)),
        whole_number(seq!['-'] + d) == Some(-digits_value(d)),
        !negative(d) && !negative(seq!['+'] + d) && negative(seq!['-'] + d),
{
    assert(is_digit(d[0]));
    assert((seq!['+'] + d).skip(1) =~= d);
    assert((seq!['-'] + d).skip(1) =~= d);
}

/// A text that holds anything but a sign at its start and digits is no whole number, nor is one
/// without a digit.
pub proof fn other_texts_are_no_numbers(s: Seq<char>, i: int)
    ensures
        0 < i < s.len() && !is_digit(s[i]) ==> whole_number(s) is None,
        s.len() > 0 && !is_digit(s[0]) && s[0] != '+' && s[0] != '-' ==> whole_number(s) is None,
        s.len() == 0 ==> whole_number(s) is None,
        s == seq!['-'] || s == seq!['+'] ==> whole_number(s) is None,
{
    if 0 < i < s.len() && !is_digit(s[i]) {
        let d = unsigned_part(s);
        if s[0] == '+' || s[0] == '-' {
            assert(d[i - 1] == s[i]);
        } else {
            assert(d[i] == s[i]);
        }
    }
}

/// A number is written with its own digits, and with a minus sign before them below zero.
pub proof fn numbers_are_written_with_their_digits(n: nat)
    ensures
        n < 10 ==> decimal(n) == seq![digit(n as int)],
        n >= 10 ==> decimal(n) == decimal(n / 10).push(digit((n % 10) as int)),
        signed_decimal(n as int) == decimal(n),
        n > 0 ==> signed_decimal(-(n as int)) == seq!['-'] + decimal(n),
        digit(0) == '0' && digit(9) == '9',
{
}

} // verus!
