//! Text helpers: comparing string slices, and reading and writing decimal
//! integers the way upstream payloads and rendered messages need them.

use vstd::prelude::*;

verus! {

/// Whether two string slices hold the same characters.
pub fn same_text(a: &str, b: &str) -> (r: bool)
    ensures
        r == (a@ == b@),
{
    let x = String::from_str(a);
    let y = String::from_str(b);
    x == y
}

/// Whether `name` begins with all of `prefix`, character for character.
pub fn has_prefix(name: &str, prefix: &str) -> (r: bool)
    ensures
        r == prefix@.is_prefix_of(name@),
{
    let n: usize = name.unicode_len();
    let p: usize = prefix.unicode_len();
    if p > n {
        return false;
    }
    let head = name.substring_char(0, p);
    let r = same_text(head, prefix);
    proof {
        if r {
            assert(prefix@ =~= name@.subrange(0, p as int));
        }
    }
    r
}

/// The characters of a string slice, in order.
pub fn chars_of(s: &str) -> (v: Vec<char>)
    ensures
        v@ == s@,
{
    let n: usize = s.unicode_len();
    let mut v: Vec<char> = Vec::new();
    let mut i: usize = 0;
    while i < n
        invariant
            n == s@.len(),
            i <= n,
            v@ == s@.take(i as int),
        decreases n - i,
    {
        v.push(s.get_char(i));
        assert(s@.take(i + 1) =~= s@.take(i as int).push(s@[i as int]));
        i = i + 1;
    }
    assert(s@.take(n as int) =~= s@);
    v
}

/// The decimal digit that stands for `d`, for `d` below ten.
pub open spec fn digit_char(d: nat) -> char {
    if d == 0 {
        '0'
    } else if d == 1 {
        '1'
    } else if d == 2 {
        '2'
    } else if d == 3 {
        '3'
    } else if d == 4 {
        '4'
    } else if d == 5 {
        '5'
    } else if d == 6 {
        '6'
    } else if d == 7 {
        '7'
    } else if d == 8 {
        '8'
    } else {
        '9'
    }
}

/// What a decimal digit counts for; `None` for any other character.
pub open spec fn digit_value(c: char) -> Option<nat> {
    if c == '0' {
        Some(0)
    } else if c == '1' {
        Some(1)
    } else if c == '2' {
        Some(2)
    } else if c == '3' {
        Some(3)
    } else if c == '4' {
        Some(4)
    } else if c == '5' {
        Some(5)
    } else if c == '6' {
        Some(6)
    } else if c == '7' {
        Some(7)
    } else if c == '8' {
        Some(8)
    } else if c == '9' {
        Some(9)
    } else {
        None
    }
}

/// The digits of a natural number, most significant first, without padding.
pub open spec fn decimal_digits(n: nat) -> Seq<char>
    decreases n,
{
    if n < 10 {
        seq![digit_char(n)]
    } else {
        decimal_digits(n / 10).push(digit_char(n % 10))
    }
}

/// An integer in decimal, with a leading minus sign when negative.
pub open spec fn decimal_text(n: int) -> Seq<char> {
    if n < 0 {
        seq!['-'] + decimal_digits((-n) as nat)
    } else {
        decimal_digits(n as nat)
    }
}

/// Whether every character is a decimal digit.
pub open spec fn all_digits(s: Seq<char>) -> bool {
    forall|i: int| 0 <= i < s.len() ==> (#[trigger] digit_value(s[i])) is Some
}

/// The number that a run of decimal digits denotes; zero for the empty run.
pub open spec fn digits_number(s: Seq<char>) -> nat
    decreases s.len(),
{
    if s.len() == 0 {
        0
    } else {
        match digit_value(s.last()) {
            Some(d) => digits_number(s.drop_last()) * 10 + d,
            None => digits_number(s.drop_last()) * 10,
        }
    }
}

/// Whether the text opens with a plus or minus sign.
pub open spec fn has_sign(s: Seq<char>) -> bool {
    s.len() > 0 && (s[0] == '-' || s[0] == '+')
}

/// The text after its sign, or all of it when it has none.
pub open spec fn unsigned_part(s: Seq<char>) -> Seq<char> {
    if has_sign(s) {
        s.skip(1)
    } else {
        s
    }
}

/// The integer that a text denotes: an optional sign, then one or more decimal
/// digits and nothing else. `None` for any other text.
pub open spec fn signed_number(s: Seq<char>) -> Option<int> {
    let body = unsigned_part(s);
    if body.len() == 0 || !all_digits(body) {
        None
    } else if has_sign(s) && s[0] == '-' {
        Some(-(digits_number(body) as int))
    } else {
        Some(digits_number(body) as int)
    }
}

/// The 64-bit signed integer that a text denotes, `None` where it denotes no
/// integer or one that does not fit.
pub open spec fn parsed_i64(s: Seq<char>) -> Option<i64> {
    match signed_number(s) {
        Some(v) => if i64::MIN <= v <= i64::MAX {
            Some(v as i64)
        } else {
            None
        },
        None => None,
    }
}

/// A run of digits never denotes less than any of its leading parts.
pub proof fn lemma_digits_number_grows(s: Seq<char>, k: int)
    requires
        0 <= k <= s.len(),
    ensures
        digits_number(s.take(k)) <= digits_number(s),
    decreases s.len() - k,
{
    if k == s.len() {
        assert(s.take(k) =~= s);
    } else {
        lemma_digits_number_grows(s.drop_last(), k);
        assert(s.drop_last().take(k) =~= s.take(k));
    }
}

/// The digits written for a number are digits and nothing else, and denote
/// that number.
pub proof fn lemma_decimal_digits(n: nat)
    ensures
        decimal_digits(n).len() > 0,
        all_digits(decimal_digits(n)),
        digits_number(decimal_digits(n)) == n,
    decreases n,
{
    let s = decimal_digits(n);
    if n < 10 {
        assert(s.len() == 1 && s[0] == digit_char(n));
        assert(digit_value(digit_char(n)) == Some(n));
        assert(s.drop_last().len() == 0);
        assert(digits_number(s.drop_last()) == 0);
    } else {
        lemma_decimal_digits(n / 10);
        let head = decimal_digits(n / 10);
        let d = n % 10;
        assert(s == head.push(digit_char(d)));
        assert(s.drop_last() =~= head);
        assert(s.last() == digit_char(d));
        assert(digit_value(digit_char(d)) == Some(d));
        assert forall|i: int| 0 <= i < s.len() implies (#[trigger] digit_value(s[i])) is Some by {
            if i < head.len() {
                assert(s[i] == head[i]);
            }
        }
    }
}

/// Reading what was written gives the number back: every 64-bit integer in
/// decimal denotes itself.
pub proof fn lemma_parse_decimal_text(n: i64)
    ensures
        parsed_i64(decimal_text(n as int)) == Some(n),
        forall|i: int|
            0 <= i < decimal_text(n as int).len() ==> (#[trigger] decimal_text(n as int)[i])
                != '.',
{
    let s = decimal_text(n as int);
    if n < 0 {
        let m = (-n) as nat;
        lemma_decimal_digits(m);
        let digits = decimal_digits(m);
        assert(s[0] == '-');
        assert(s.skip(1) =~= digits);
        assert forall|i: int| 0 <= i < s.len() implies (#[trigger] s[i]) != '.' by {
            if i > 0 {
                assert(s[i] == digits[i - 1]);
                assert(digit_value(digits[i - 1]) is Some);
            }
        }
    } else {
        lemma_decimal_digits(n as nat);
        assert(digit_value(s[0]) is Some);
        assert forall|i: int| 0 <= i < s.len() implies (#[trigger] s[i]) != '.' by {
            assert(digit_value(s[i]) is Some);
        }
    }
}

fn digit_of(c: char) -> (r: Option<u64>)
    ensures
        match r {
            Some(d) => digit_value(c) == Some(d as nat) && d < 10,
            None => digit_value(c) is None,
        },
{
    if c == '0' {
        Some(0)
    } else if c == '1' {
        Some(1)
    } else if c == '2' {
        Some(2)
    } else if c == '3' {
        Some(3)
    } else if c == '4' {
        Some(4)
    } else if c == '5' {
        Some(5)
    } else if c == '6' {
        Some(6)
    } else if c == '7' {
        Some(7)
    } else if c == '8' {
        Some(8)
    } else if c == '9' {
        Some(9)
    } else {
        None
    }
}

/// Reads a 64-bit signed integer from the characters `v[..end]`: an optional
/// sign, then decimal digits only. Leading zeros are accepted; an empty text, a
/// bare sign, any other character, and a value outside the 64-bit range are not.
pub fn parse_i64_chars(v: &Vec<char>, end: usize) -> (r: Option<i64>)
    requires
        end <= v.len(),
    ensures
        r == parsed_i64(v@.take(end as int)),
{
    let ghost s = v@.take(end as int);
    if end == 0 {
        return None;
    }
    let negative: bool = v[0] == '-';
    let start: usize = if v[0] == '-' || v[0] == '+' {
        1
    } else {
        0
    };
    let ghost body = unsigned_part(s);
    assert(body =~= v@.subrange(start as int, end as int));
    if start == end {
        return None;
    }
    let limit: u64 = 0x8000_0000_0000_0000;
    let mut acc: u64 = 0;
    let mut i: usize = start;
    while i < end
        invariant
            start <= i <= end <= v.len(),
            s == v@.take(end as int),
            body == unsigned_part(s),
            body == v@.subrange(start as int, end as int),
            acc <= limit,
            limit == 0x8000_0000_0000_0000,
            acc == digits_number(body.take(i - start)),
            forall|j: int| 0 <= j < i - start ==> (#[trigger] digit_value(body[j])) is Some,
        decreases end - i,
    {
        let ghost k = i - start;
        assert(body.take(k + 1).drop_last() =~= body.take(k));
        assert(body.take(k + 1).last() == v@[i as int]);
        match digit_of(v[i]) {
            None => {
                assert(digit_value(body[k]) is None);
                return None;
            },
            Some(d) => {
                if acc > (limit - d) / 10 {
                    proof {
                        lemma_digits_number_grows(body, k + 1);
                        assert(digits_number(body.take(k + 1)) == acc * 10 + d);
                    }
                    return None;
                }
                acc = acc * 10 + d;
            },
        }
        i = i + 1;
    }
    assert(body.take(end - start) =~= body);
    assert(all_digits(body));
    if negative {
        if acc == limit {
            Some(i64::MIN)
        } else {
            let m: i64 = acc as i64;
            Some(-m)
        }
    } else if acc == limit {
        None
    } else {
        Some(acc as i64)
    }
}

/// Reads a 64-bit signed integer from a whole string slice.
pub fn parse_i64(s: &str) -> (r: Option<i64>)
    ensures
        r == parsed_i64(s@),
{
    let v = chars_of(s);
    assert(v@.take(v.len() as int) =~= v@);
    parse_i64_chars(&v, v.len())
}

fn digit_str(d: u64) -> (r: &'static str)
    requires
        d < 10,
    ensures
        r@ == seq![digit_char(d as nat)],
{
    proof {
        reveal_strlit("0");
        reveal_strlit("1");
        reveal_strlit("2");
        reveal_strlit("3");
        reveal_strlit("4");
        reveal_strlit("5");
        reveal_strlit("6");
        reveal_strlit("7");
        reveal_strlit("8");
        reveal_strlit("9");
    }
    let r: &'static str = if d == 0 {
        "0"
    } else if d == 1 {
        "1"
    } else if d == 2 {
        "2"
    } else if d == 3 {
        "3"
    } else if d == 4 {
        "4"
    } else if d == 5 {
        "5"
    } else if d == 6 {
        "6"
    } else if d == 7 {
        "7"
    } else if d == 8 {
        "8"
    } else {
        "9"
    };
    assert(r@ =~= seq![digit_char(d as nat)]);
    r
}

/// Appends the decimal digits of `n` to `out`.
pub fn push_decimal_digits(out: &mut String, n: u64)
    ensures
        final(out)@ == old(out)@ + decimal_digits(n as nat),
    decreases n,
{
    if n >= 10 {
        push_decimal_digits(out, n / 10);
    }
    out.append(digit_str(n % 10));
    assert(final(out)@ =~= old(out)@ + decimal_digits(n as nat));
}

/// Appends an integer in decimal to `out`, with a minus sign when negative.
pub fn push_decimal(out: &mut String, n: i64)
    ensures
        final(out)@ == old(out)@ + decimal_text(n as int),
{
    if n < 0 {
        proof {
            reveal_strlit("-");
        }
        out.append("-");
        let m: u64 = if n == i64::MIN {
            0x8000_0000_0000_0000
        } else {
            (-n) as u64
        };
        push_decimal_digits(out, m);
        assert(final(out)@ =~= old(out)@ + decimal_text(n as int));
    } else {
        push_decimal_digits(out, n as u64);
    }
}

/// An integer written in decimal.
pub fn decimal_string(n: i64) -> (r: String)
    ensures
        r@ == decimal_text(n as int),
{
    let mut out = String::new();
    push_decimal(&mut out, n);
    assert(out@ =~= decimal_text(n as int));
    out
}

} // verus!
