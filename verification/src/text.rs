//! Numbers as decimal text, and back.
use vstd::prelude::*;
use vstd::string::StringExecFns;
use vstd::string::StrSliceExecFns;

verus! {

/// The character that writes the digit `d`.
pub open spec fn digit_char(d: int) -> char {
    if d == 0 {
        '0'
    } else if d == 1 {
        '1'
    } else if d == 2 {
        '2'
    } else if d == 3 {
        '3'
    } else if d == 4 {
        '4'
    } else if d == 5 {
        '5'
    } else if d == 6 {
        '6'
    } else if d == 7 {
        '7'
    } else if d == 8 {
        '8'
    } else {
        '9'
    }
}

/// Whether `c` is one of the ten decimal digits.
pub open spec fn is_digit(c: char) -> bool {
    c == '0' || c == '1' || c == '2' || c == '3' || c == '4' || c == '5' || c == '6' || c == '7'
        || c == '8' || c == '9'
}

/// The digit that `c` writes, for a decimal digit `c`.
pub open spec fn digit_value(c: char) -> int {
    if c == '0' {
        0
    } else if c == '1' {
        1
    } else if c == '2' {
        2
    } else if c == '3' {
        3
    } else if c == '4' {
        4
    } else if c == '5' {
        5
    } else if c == '6' {
        6
    } else if c == '7' {
        7
    } else if c == '8' {
        8
    } else {
        9
    }
}

/// The decimal digits of `n`, most significant first, without leading zeros.
pub open spec fn digits_of(n: nat) -> Seq<char>
    decreases n,
{
    if n < 10 {
        seq![digit_char(n as int)]
    } else {
        digits_of(n / 10).push(digit_char((n % 10) as int))
    }
}

/// The decimal text of `n`: a minus sign for a negative number, then its digits.
pub open spec fn decimal(n: int) -> Seq<char> {
    if n < 0 {
        seq!['-'] + digits_of((-n) as nat)
    } else {
        digits_of(n as nat)
    }
}

/// The number that a run of decimal digits writes.
pub open spec fn value_of(s: Seq<char>) -> nat
    decreases s.len(),
{
    if s.len() == 0 {
        0
    } else {
        value_of(s.drop_last()) * 10 + digit_value(s.last()) as nat
    }
}

/// Whether every character of `s` is a decimal digit.
pub open spec fn all_digits(s: Seq<char>) -> bool {
    forall|i: int| 0 <= i < s.len() ==> is_digit(#[trigger] s[i])
}

/// Whether `s` opens with a plus or a minus sign.
pub open spec fn has_sign(s: Seq<char>) -> bool {
    s.len() > 0 && (s[0] == '-' || s[0] == '+')
}

/// The digits of `s`: what follows the sign, or all of `s` where there is none.
pub open spec fn unsigned_part(s: Seq<char>) -> Seq<char> {
    if has_sign(s) {
        s.subrange(1, s.len() as int)
    } else {
        s
    }
}

/// The number that `s` writes, taken with its sign, whatever its size.
pub open spec fn signed_value(s: Seq<char>) -> int {
    if has_sign(s) && s[0] == '-' {
        -(value_of(unsigned_part(s)) as int)
    } else {
        value_of(unsigned_part(s)) as int
    }
}

/// The 64-bit integer that `s` writes: an optional sign, then at least one
/// digit and nothing else, with a value that fits. `None` otherwise.
pub open spec fn parse_decimal(s: Seq<char>) -> Option<int> {
    if unsigned_part(s).len() > 0 && all_digits(unsigned_part(s)) && i64::MIN <= signed_value(s)
        <= i64::MAX {
        Some(signed_value(s))
    } else {
        None
    }
}

/// Each digit has its character, and each such character its digit.
pub proof fn lemma_digit_chars()
    ensures
        forall|d: int| 0 <= d < 10 ==> is_digit(#[trigger] digit_char(d)),
        forall|d: int| 0 <= d < 10 ==> digit_value(#[trigger] digit_char(d)) == d,
        forall|d: int| 0 <= d < 10 ==> digit_char(d) != '-' && #[trigger] digit_char(d) != '+',
        forall|c: char| is_digit(c) ==> 0 <= #[trigger] digit_value(c) < 10 && digit_char(
            digit_value(c),
        ) == c,
{
}

/// Two texts are the same sequence of characters.
pub fn same_text(a: &str, b: &str) -> (r: bool)
    ensures
        r == (a@ == b@),
{
    let x = a.to_owned();
    let y = b.to_owned();
    x == y
}

fn digit_text(d: u64) -> (r: &'static str)
    requires
        d < 10,
    ensures
        r@ == seq![digit_char(d as int)],
{
    proof {
        reveal_strlit("0");
        reveal_strlit("1");
        reveal_strlit("2");
        reveal_strlit("3");
        reveal_strlit("4");
        reveal_strlit("5");
        reveal_strlit("6");
        reveal_strlit("7");
        reveal_strlit("8");
        reveal_strlit("9");
    }
    let r = if d == 0 {
        "0"
    } else if d == 1 {
        "1"
    } else if d == 2 {
        "2"
    } else if d == 3 {
        "3"
    } else if d == 4 {
        "4"
    } else if d == 5 {
        "5"
    } else if d == 6 {
        "6"
    } else if d == 7 {
        "7"
    } else if d == 8 {
        "8"
    } else {
        "9"
    };
    assert(r@ =~= seq![digit_char(d as int)]);
    r
}

/// Writes `n` in decimal.
pub fn unsigned_text(n: u64) -> (r: String)
    ensures
        r@ == digits_of(n as nat),
    decreases n,
{
    if n < 10 {
        String::from_str(digit_text(n))
    } else {
        let head = unsigned_text(n / 10);
        let r = head.concat(digit_text(n % 10));
        assert(r@ =~= digits_of(n as nat));
        r
    }
}

/// Writes `n` in decimal, with a minus sign where it is negative.
pub fn signed_text(n: i64) -> (r: String)
    ensures
        r@ == decimal(n as int),
{
    if n < 0 {
        let magnitude: u64 = (-(n + 1)) as u64 + 1;
        let digits = unsigned_text(magnitude);
        proof {
            reveal_strlit("-");
        }
        let r = String::from_str("-").concat(digits.as_str());
        assert(r@ =~= decimal(n as int));
        r
    } else {
        unsigned_text(n as u64)
    }
}

/// The value of a prefix of `s` is no larger than the value of `s`.
pub proof fn lemma_value_of_prefix(s: Seq<char>, k: int)
    requires
        0 <= k <= s.len(),
    ensures
        value_of(s.take(k)) <= value_of(s),
    decreases s.len(),
{
    if k == s.len() {
        assert(s.take(k) =~= s);
    } else {
        lemma_value_of_prefix(s.drop_last(), k);
        assert(s.drop_last().take(k) =~= s.take(k));
    }
}

/// One more digit: the value so far times ten, plus the digit.
pub proof fn lemma_value_of_step(s: Seq<char>, k: int, d: int)
    requires
        0 <= k < s.len(),
        0 <= d < 10,
        s[k] == digit_char(d),
    ensures
        value_of(s.take(k + 1)) == value_of(s.take(k)) * 10 + d,
        all_digits(s.take(k)) ==> all_digits(s.take(k + 1)),
{
    lemma_digit_chars();
    let t = s.take(k + 1);
    assert(t.drop_last() =~= s.take(k));
    assert(t.last() == s[k]);
    assert(digit_value(digit_char(d)) == d);
    if all_digits(s.take(k)) {
        assert forall|j: int| 0 <= j < t.len() implies is_digit(#[trigger] t[j]) by {
            if j < k {
                assert(t[j] == s.take(k)[j]);
            } else {
                assert(t[j] == digit_char(d));
            }
        }
    }
}

fn char_digit(c: char) -> (r: Option<u64>)
    ensures
        match r {
            Some(d) => d < 10 && c == digit_char(d as int),
            None => !is_digit(c),
        },
{
    proof {
        lemma_digit_chars();
    }
    if c == '0' {
        Some(0)
    } else if c == '1' {
        Some(1)
    } else if c == '2' {
        Some(2)
    } else if c == '3' {
        Some(3)
    } else if c == '4' {
        Some(4)
    } else if c == '5' {
        Some(5)
    } else if c == '6' {
        Some(6)
    } else if c == '7' {
        Some(7)
    } else if c == '8' {
        Some(8)
    } else if c == '9' {
        Some(9)
    } else {
        None
    }
}

/// Reads a 64-bit integer written in decimal: an optional `+` or `-`, then
/// digits only. Anything else, and a number that does not fit, gives `None`.
pub fn parse_signed(s: &str) -> (r: Option<i64>)
    ensures
        match r {
            Some(v) => parse_decimal(s@) == Some(v as int),
            None => parse_decimal(s@) is None,
        },
{
    let len = s.unicode_len();
    if len == 0 {
        return None;
    }
    let first = s.get_char(0);
    let negative = first == '-';
    let start: usize = if first == '-' || first == '+' {
        1
    } else {
        0
    };
    if start == len {
        return None;
    }
    let ghost body = unsigned_part(s@);
    assert(body.len() == len - start);
    let mut acc: u64 = 0;
    let mut i: usize = start;
    assert(body.take(0) =~= Seq::<char>::empty());
    while i < len
        invariant
            start <= i <= len,
            len == s@.len(),
            body == unsigned_part(s@),
            body.len() == len - start,
            forall|j: int| 0 <= j < body.len() ==> body[j] == s@[j + start],
            all_digits(body.take(i - start)),
            acc == value_of(body.take(i - start)),
            acc <= 9223372036854775808,
        decreases len - i,
    {
        let c = s.get_char(i);
        let ghost k = i - start;
        assert(body[k] == c);
        match char_digit(c) {
            None => {
                return None;
            },
            Some(d) => {
                proof {
                    lemma_value_of_step(body, k, d as int);
                }
                if acc > (9223372036854775808 - d) / 10 {
                    proof {
                        lemma_value_of_prefix(body, k + 1);
                    }
                    return None;
                }
                acc = acc * 10 + d;
            },
        }
        i = i + 1;
    }
    assert(body.take(len - start) =~= body);
    if negative {
        if acc == 9223372036854775808 {
            Some(i64::MIN)
        } else {
            Some(-(acc as i64))
        }
    } else {
        if acc == 9223372036854775808 {
            None
        } else {
            Some(acc as i64)
        }
    }
}

/// The digits of a number are digits, at least one of them, and write that number.
pub proof fn lemma_digits_of(n: nat)
    ensures
        digits_of(n).len() > 0,
        all_digits(digits_of(n)),
        !has_sign(digits_of(n)),
        value_of(digits_of(n)) == n,
    decreases n,
{
    lemma_digit_chars();
    if n < 10 {
        let s = digits_of(n);
        assert(s.drop_last() =~= Seq::<char>::empty());
        assert(value_of(s.drop_last()) == 0);
        assert(s.last() == digit_char(n as int));
    } else {
        lemma_digits_of(n / 10);
        let head = digits_of(n / 10);
        let s = digits_of(n);
        assert(s.drop_last() =~= head);
        assert(s.last() == digit_char((n % 10) as int));
        assert(s[0] == head[0]);
        assert forall|i: int| 0 <= i < s.len() implies is_digit(#[trigger] s[i]) by {
            if i < head.len() {
                assert(s[i] == head[i]);
            }
        }
    }
}

/// Reading back the decimal text of a 64-bit integer gives that integer.
pub proof fn lemma_decimal_round_trip(n: int)
    requires
        i64::MIN <= n <= i64::MAX,
    ensures
        parse_decimal(decimal(n)) == Some(n),
{
    let s = decimal(n);
    if n < 0 {
        let digits = digits_of((-n) as nat);
        lemma_digits_of((-n) as nat);
        assert(s[0] == '-');
        assert(unsigned_part(s) =~= digits);
    } else {
        lemma_digits_of(n as nat);
    }
}

} // verus!
