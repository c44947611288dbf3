//! Decimal text for integers and for fixed-point numbers with three decimals.
use vstd::prelude::*;
use vstd::string::StringExecFns;

verus! {

/// The character of one decimal digit.
pub open spec fn digit_char(d: nat) -> char {
    if d == 0 {
        '0'
    } else if d == 1 {
        '1'
    } else if d == 2 {
        '2'
    } else if d == 3 {
        '3'
    } else if d == 4 {
        '4'
    } else if d == 5 {
        '5'
    } else if d == 6 {
        '6'
    } else if d == 7 {
        '7'
    } else if d == 8 {
        '8'
    } else {
        '9'
    }
}

/// The decimal digits of `n`, most significant first, without leading zeros.
pub open spec fn digits(n: nat) -> Seq<char>
    decreases n,
{
    if n < 10 {
        seq![digit_char(n)]
    } else {
        digits(n / 10).push(digit_char(n % 10))
    }
}

/// The decimal text of a signed integer.
pub open spec fn signed_digits(v: int) -> Seq<char> {
    if v < 0 {
        seq!['-'] + digits((-v) as nat)
    } else {
        digits(v as nat)
    }
}

/// The text of `v` thousandths with exactly three decimals: sign, whole
/// part, point, three digits.
pub open spec fn fixed3(v: int) -> Seq<char> {
    let m = if v < 0 { (-v) as nat } else { v as nat };
    let sign = if v < 0 { seq!['-'] } else { Seq::<char>::empty() };
    let frac = m % 1000;
    sign + digits(m / 1000) + seq![
        '.',
        digit_char(frac / 100),
        digit_char((frac / 10) % 10),
        digit_char(frac % 10),
    ]
}

/// `s` without the run of `c` at its end.
pub open spec fn trim_end(s: Seq<char>, c: char) -> Seq<char>
    decreases s.len(),
{
    if s.len() > 0 && s.last() == c {
        trim_end(s.drop_last(), c)
    } else {
        s
    }
}

/// `s` without its trailing zeros and then without a trailing point.
pub open spec fn trim_decimal_text(s: Seq<char>) -> Seq<char> {
    trim_end(trim_end(s, '0'), '.')
}

/// The shortest text of `v` thousandths: three decimals, trailing zeros and
/// a bare point removed.
pub open spec fn trimmed_fixed3(v: int) -> Seq<char> {
    trim_decimal_text(fixed3(v))
}

/// A decimal text ends in a digit, never in a point.
pub proof fn lemma_digits_end_in_digit(n: nat)
    ensures
        digits(n).len() > 0,
        digits(n).last() != '.',
    decreases n,
{
    if n >= 10 {
        lemma_digits_end_in_digit(n / 10);
    }
}

/// A whole number is labelled without a point and without decimals: `2000`
/// thousandths show as the integer `2`.
pub proof fn lemma_whole_number_has_no_decimals(v: int)
    requires
        v % 1000 == 0,
    ensures
        trimmed_fixed3(v) == signed_digits(v / 1000),
{
    let m = if v < 0 { (-v) as nat } else { v as nat };
    let sign = if v < 0 { seq!['-'] } else { Seq::<char>::empty() };
    let whole = sign + digits(m / 1000);
    lemma_digits_end_in_digit(m / 1000);
    assert(m % 1000 == 0);
    let s3 = fixed3(v);
    let s2 = whole + seq!['.', '0', '0'];
    let s1 = whole + seq!['.', '0'];
    let s0 = whole + seq!['.'];
    assert(s3 =~= whole + seq!['.', '0', '0', '0']);
    assert(s3.drop_last() =~= s2);
    assert(s2.drop_last() =~= s1);
    assert(s1.drop_last() =~= s0);
    assert(s0.drop_last() =~= whole);
    assert(trim_end(s3, '0') == trim_end(s2, '0'));
    assert(trim_end(s2, '0') == trim_end(s1, '0'));
    assert(trim_end(s1, '0') == trim_end(s0, '0'));
    assert(trim_end(s0, '0') == s0);
    assert(trim_end(s0, '.') == trim_end(whole, '.'));
    assert(whole.last() == digits(m / 1000).last());
    assert(trim_end(whole, '.') == whole);
    if v < 0 {
        assert(v / 1000 == -(m / 1000)) by (nonlinear_arith)
            requires
                v == -m,
                m % 1000 == 0,
        ;
        assert(m / 1000 > 0);
    }
    assert(whole =~= signed_digits(v / 1000));
}

fn digit_str(d: u64) -> (r: &'static str)
    requires
        d < 10,
    ensures
        r@ == seq![digit_char(d as nat)],
{
    proof {
        reveal_strlit("0");
        reveal_strlit("1");
        reveal_strlit("2");
        reveal_strlit("3");
        reveal_strlit("4");
        reveal_strlit("5");
        reveal_strlit("6");
        reveal_strlit("7");
        reveal_strlit("8");
        reveal_strlit("9");
    }
    let r = if d == 0 {
        "0"
    } else if d == 1 {
        "1"
    } else if d == 2 {
        "2"
    } else if d == 3 {
        "3"
    } else if d == 4 {
        "4"
    } else if d == 5 {
        "5"
    } else if d == 6 {
        "6"
    } else if d == 7 {
        "7"
    } else if d == 8 {
        "8"
    } else {
        "9"
    };
    assert(r@ =~= seq![digit_char(d as nat)]);
    r
}

fn push_digits(out: &mut String, n: u64)
    ensures
        final(out)@ == old(out)@ + digits(n as nat),
    decreases n,
{
    if n >= 10 {
        push_digits(out, n / 10);
    }
    out.append(digit_str(n % 10));
    proof {
        if n >= 10 {
            assert(final(out)@ =~= old(out)@ + digits(n as nat));
        } else {
            assert(final(out)@ =~= old(out)@ + digits(n as nat));
        }
    }
}

/// The size of `v` without its sign.
pub fn magnitude(v: i64) -> (m: u64)
    ensures
        m == if v < 0 { -v } else { v as int },
{
    if v < 0 {
        let w: i64 = -(v + 1);
        (w as u64) + 1
    } else {
        v as u64
    }
}

/// Writes `v` in decimal, as `Display` does for an integer.
pub fn format_integer(v: i64) -> (s: String)
    ensures
        s@ == signed_digits(v as int),
{
    let mut out = String::new();
    if v < 0 {
        proof {
            reveal_strlit("-");
        }
        out.append("-");
    }
    push_digits(&mut out, magnitude(v));
    assert(out@ =~= signed_digits(v as int));
    out
}

/// Writes `v` thousandths with exactly three decimals.
pub fn format_fixed3(v: i64) -> (s: String)
    ensures
        s@ == fixed3(v as int),
{
    let m: u64 = magnitude(v);
    let frac: u64 = m % 1000;
    let mut out = String::new();
    proof {
        reveal_strlit("-");
        reveal_strlit(".");
    }
    if v < 0 {
        out.append("-");
    }
    push_digits(&mut out, m / 1000);
    out.append(".");
    out.append(digit_str(frac / 100));
    out.append(digit_str((frac / 10) % 10));
    out.append(digit_str(frac % 10));
    assert(out@ =~= fixed3(v as int));
    out
}

/// How many characters of `s` stay when the run of `c` at its end is cut.
fn trimmed_len(s: &str, c: char) -> (n: usize)
    ensures
        n <= s@.len(),
        s@.subrange(0, n as int) == trim_end(s@, c),
{
    let mut n: usize = s.unicode_len();
    assert(s@.subrange(0, n as int) =~= s@);
    while n > 0 && s.get_char(n - 1) == c
        invariant
            n <= s@.len(),
            trim_end(s@, c) == trim_end(s@.subrange(0, n as int), c),
        decreases n,
    {
        proof {
            let cur = s@.subrange(0, n as int);
            assert(cur.last() == s@[n - 1]);
            assert(cur.drop_last() =~= s@.subrange(0, n - 1));
        }
        n = n - 1;
    }
    proof {
        let cur = s@.subrange(0, n as int);
        if n > 0 {
            assert(cur.last() == s@[n - 1]);
        }
    }
    n
}

/// Cuts the trailing zeros of a decimal text, then a trailing point:
/// `"1.500"` becomes `"1.5"` and `"2.000"` becomes `"2"`.
pub fn trim_decimal(s: &str) -> (t: String)
    ensures
        t@ == trim_decimal_text(s@),
{
    let n: usize = trimmed_len(s, '0');
    let head = s.substring_char(0, n);
    let k: usize = trimmed_len(head, '.');
    String::from_str(head.substring_char(0, k))
}

/// Writes `v` thousandths in the shortest form: `1500` is `"1.5"`, `2000`
/// is `"2"`, `1235` is `"1.235"`.
pub fn format_trimmed(v: i64) -> (s: String)
    ensures
        s@ == trimmed_fixed3(v as int),
{
    let full = format_fixed3(v);
    trim_decimal(full.as_str())
}

} // verus!
