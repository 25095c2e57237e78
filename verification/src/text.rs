//! Small verified helpers on strings: comparison, decimal numerals.
use vstd::prelude::*;
use vstd::string::*;
use vstd::utf8::*;

verus! {

/// `String::push` appends one character to the end of the string.
pub assume_specification[ String::push ](s: &mut String, c: char)
    ensures
        final(s)@ == old(s)@.push(c),
;

/// Whether two string slices hold the same characters.
pub fn str_eq(a: &str, b: &str) -> (same: bool)
    ensures
        same == (a@ == b@),
{
    let x = a.as_bytes();
    let y = b.as_bytes();
    proof {
        encode_utf8_decode_utf8(a@);
        encode_utf8_decode_utf8(b@);
    }
    if x.len() != y.len() {
        return false;
    }
    let mut i: usize = 0;
    while i < x.len()
        invariant
            i <= x.len(),
            x.len() == y.len(),
            x@ == a.spec_bytes(),
            y@ == b.spec_bytes(),
            forall|k: int| 0 <= k < i ==> x@[k] == y@[k],
        decreases x.len() - i,
    {
        if x[i] != y[i] {
            return false;
        }
        i += 1;
    }
    assert(x@ =~= y@);
    true
}

/// The decimal digit that stands for `d`, for `d` below ten.
pub open spec fn digit_char(d: int) -> char {
    if d == 0 {
        '0'
    } else if d == 1 {
        '1'
    } else if d == 2 {
        '2'
    } else if d == 3 {
        '3'
    } else if d == 4 {
        '4'
    } else if d == 5 {
        '5'
    } else if d == 6 {
        '6'
    } else if d == 7 {
        '7'
    } else if d == 8 {
        '8'
    } else {
        '9'
    }
}

/// Whether `c` is one of the ten decimal digits.
pub open spec fn is_digit(c: char) -> bool {
    '0' <= c && c <= '9'
}

/// The number that the decimal digit `c` stands for.
pub open spec fn digit_value(c: char) -> int {
    c as int - '0' as int
}

/// The decimal numeral of a natural number, without leading zeros.
pub open spec fn nat_digits(n: nat) -> Seq<char>
    decreases n,
{
    if n < 10 {
        seq![digit_char(n as int)]
    } else {
        nat_digits(n / 10).push(digit_char((n % 10) as int))
    }
}

/// The decimal numeral of an integer: a minus sign for a negative number,
/// then the digits of its magnitude.
pub open spec fn int_digits(n: int) -> Seq<char> {
    if n < 0 {
        seq!['-'] + nat_digits((-n) as nat)
    } else {
        nat_digits(n as nat)
    }
}

/// The number that a sequence of decimal digits stands for; leading zeros
/// are allowed and the empty sequence stands for zero.
pub open spec fn digits_value(s: Seq<char>) -> nat
    decreases s.len(),
{
    if s.len() == 0 {
        0
    } else {
        (digits_value(s.drop_last()) * 10 + digit_value(s.last())) as nat
    }
}

/// Whether every character of `s` is a decimal digit.
pub open spec fn all_digits(s: Seq<char>) -> bool {
    forall|i: int| 0 <= i < s.len() ==> is_digit(#[trigger] s[i])
}

fn digit_of(d: u64) -> (c: char)
    requires
        d < 10,
    ensures
        c == digit_char(d as int),
{
    if d == 0 {
        '0'
    } else if d == 1 {
        '1'
    } else if d == 2 {
        '2'
    } else if d == 3 {
        '3'
    } else if d == 4 {
        '4'
    } else if d == 5 {
        '5'
    } else if d == 6 {
        '6'
    } else if d == 7 {
        '7'
    } else if d == 8 {
        '8'
    } else {
        '9'
    }
}

/// Appends the decimal numeral of `n` to `out`.
pub fn push_nat(out: &mut String, n: u64)
    ensures
        final(out)@ == old(out)@ + nat_digits(n as nat),
    decreases n,
{
    if n >= 10 {
        push_nat(out, n / 10);
    }
    out.push(digit_of(n % 10));
}

/// Appends the decimal numeral of `n` to `out`.
pub fn push_int(out: &mut String, n: i64)
    ensures
        final(out)@ == old(out)@ + int_digits(n as int),
{
    if n < 0 {
        out.push('-');
        let magnitude: u64 = if n == i64::MIN {
            9223372036854775808u64
        } else {
            (-n) as u64
        };
        push_nat(out, magnitude);
    } else {
        push_nat(out, n as u64);
    }
}

/// The decimal numeral of `n` as a string.
pub fn decimal(n: i64) -> (text: String)
    ensures
        text@ == int_digits(n as int),
{
    let mut out = String::new();
    push_int(&mut out, n);
    out
}

/// A prefix of a digit sequence stands for no more than the whole sequence.
pub proof fn lemma_digits_value_prefix(s: Seq<char>, k: int)
    requires
        0 <= k <= s.len(),
        all_digits(s),
    ensures
        digits_value(s.take(k)) <= digits_value(s),
    decreases s.len(),
{
    if k == s.len() {
        assert(s.take(k) =~= s);
    } else {
        lemma_digits_value_prefix(s.drop_last(), k);
        assert(s.drop_last().take(k) =~= s.take(k));
        assert(is_digit(s.last()));
    }
}

/// The numeral of a natural number is made of digits, is not empty, and
/// stands for that number.
pub proof fn lemma_nat_digits_value(n: nat)
    ensures
        nat_digits(n).len() > 0,
        all_digits(nat_digits(n)),
        digits_value(nat_digits(n)) == n,
    decreases n,
{
    if n < 10 {
        let s = nat_digits(n);
        assert(s.drop_last() =~= Seq::<char>::empty());
        assert(digits_value(s.drop_last()) == 0);
        assert(s.last() == digit_char(n as int));
    } else {
        lemma_nat_digits_value(n / 10);
        let head = nat_digits(n / 10);
        let s = head.push(digit_char((n % 10) as int));
        assert(s.drop_last() =~= head);
        assert(s.last() == digit_char((n % 10) as int));
        assert forall|i: int| 0 <= i < s.len() implies is_digit(#[trigger] s[i]) by {
            if i < head.len() {
                assert(s[i] == head[i]);
            }
        }
    }
}

/// Reading back the numeral of an integer gives that integer; read as an
/// unsigned numeral it gives the integer when that is not negative, and
/// nothing when it is.
pub proof fn lemma_int_digits_value(n: int)
    ensures
        integer_value(int_digits(n)) == Some(n),
        numeral_value(int_digits(n)) == if n >= 0 {
            Some(n as nat)
        } else {
            None
        },
{
    if n < 0 {
        let m = (-n) as nat;
        lemma_nat_digits_value(m);
        let s = int_digits(n);
        assert(s[0] == '-');
        assert(s.drop_first() =~= nat_digits(m));
        assert(!is_digit(s[0]));
    } else {
        lemma_nat_digits_value(n as nat);
        let s = nat_digits(n as nat);
        assert(is_digit(s[0]));
    }
}

/// The value of an unsigned numeral: an optional `+`, then at least one
/// decimal digit and nothing else. `None` for any other text.
pub open spec fn numeral_value(s: Seq<char>) -> Option<nat> {
    let body = if s.len() > 0 && s[0] == '+' {
        s.drop_first()
    } else {
        s
    };
    if body.len() > 0 && all_digits(body) {
        Some(digits_value(body))
    } else {
        None
    }
}

/// The value of a signed numeral: an optional `-`, then at least one decimal
/// digit and nothing else. `None` for any other text.
pub open spec fn integer_value(s: Seq<char>) -> Option<int> {
    if s.len() > 0 && s[0] == '-' {
        let body = s.drop_first();
        if body.len() > 0 && all_digits(body) {
            Some(-(digits_value(body) as int))
        } else {
            None
        }
    } else if s.len() > 0 && all_digits(s) {
        Some(digits_value(s) as int)
    } else {
        None
    }
}

/// Reads the characters of `s` as decimal digits, leaving out the first
/// character when `signed` is set. Gives their value when there is at least
/// one of them, all are digits and the value is at most `limit`.
fn parse_digits(s: &str, signed: bool, limit: u64) -> (r: Option<u64>)
    requires
        signed ==> s@.len() > 0,
    ensures
        r == ({
            let body = if signed {
                s@.drop_first()
            } else {
                s@
            };
            if body.len() > 0 && all_digits(body) && digits_value(body) <= limit {
                Some(digits_value(body) as u64)
            } else {
                None
            }
        }),
{
    broadcast use group_string_axioms;

    let ghost start: int = if signed {
        1
    } else {
        0
    };
    let ghost body = s@.skip(start);
    assert(body =~= if signed {
        s@.drop_first()
    } else {
        s@
    });
    let mut value: u64 = 0;
    let mut sign_pending: bool = signed;
    let mut any: bool = false;
    for c in it: s.chars()
        invariant
            it.seq() == s@,
            body == s@.skip(start),
            body == if signed {
                s@.drop_first()
            } else {
                s@
            },
            0 <= start <= s@.len(),
            start <= 1,
            sign_pending == (it.index() < start),
            any == (it.index() > start),
            value <= limit,
            sign_pending ==> value == 0,
            !sign_pending ==> all_digits(body.take(it.index() - start)) && value == digits_value(
                body.take(it.index() - start),
            ),
    {
        if sign_pending {
            sign_pending = false;
            assert(body.take(0) =~= Seq::<char>::empty());
        } else {
            let ghost k = it.index() - start;
            assert(body[k] == c);
            assert(body.take(k + 1).drop_last() =~= body.take(k));
            assert(body.take(k + 1).last() == c);
            if !(c >= '0' && c <= '9') {
                assert(!is_digit(body[k]));
                return None;
            }
            assert forall|i: int| 0 <= i < k + 1 implies is_digit(#[trigger] body.take(k + 1)[i]) by {
                if i < k {
                    assert(body.take(k + 1)[i] == body.take(k)[i]);
                }
            }
            let d: u64 = (c as u32 - '0' as u32) as u64;
            let wide: u128 = value as u128 * 10 + d as u128;
            if wide > limit as u128 {
                proof {
                    if all_digits(body) {
                        lemma_digits_value_prefix(body, k + 1);
                    }
                }
                return None;
            }
            value = wide as u64;
            any = true;
        }
    }
    assert(body.take(s@.len() - start) =~= body);
    if any {
        Some(value)
    } else {
        None
    }
}

/// Reads an unsigned numeral no larger than `limit`: an optional `+`, then
/// decimal digits. Any other text, and any larger number, gives `None`.
pub fn parse_numeral(s: &str, limit: u64) -> (r: Option<u64>)
    ensures
        r == match numeral_value(s@) {
            Some(v) => if v <= limit {
                Some(v as u64)
            } else {
                None
            },
            None => None,
        },
{
    let signed = first_char_is(s, '+');
    parse_digits(s, signed, limit)
}

/// Reads a signed numeral that fits in 64 bits: an optional `-`, then
/// decimal digits. Any other text, and any number out of range, gives `None`.
pub fn parse_integer(s: &str) -> (r: Option<i64>)
    ensures
        r == match integer_value(s@) {
            Some(v) => if i64::MIN <= v <= i64::MAX {
                Some(v as i64)
            } else {
                None
            },
            None => None,
        },
{
    if first_char_is(s, '-') {
        match parse_digits(s, true, 9223372036854775808u64) {
            Some(m) => {
                if m == 9223372036854775808u64 {
                    Some(i64::MIN)
                } else {
                    Some(-(m as i64))
                }
            },
            None => None,
        }
    } else {
        match parse_digits(s, false, 9223372036854775807u64) {
            Some(m) => Some(m as i64),
            None => None,
        }
    }
}

/// A line without the line ending that it was read with: a final line
/// feed is taken off, and then a final carriage return.
pub open spec fn without_line_end(s: Seq<char>) -> Seq<char> {
    let fed = if s.len() > 0 && s.last() == '\n' {
        s.drop_last()
    } else {
        s
    };
    if fed.len() > 0 && fed.last() == '\r' {
        fed.drop_last()
    } else {
        fed
    }
}

/// Takes the line ending off a line as it was read.
pub fn strip_line_end(line: &str) -> (r: String)
    ensures
        r@ == without_line_end(line@),
{
    let mut end: usize = line.unicode_len();
    if end > 0 && line.get_char(end - 1) == '\n' {
        end -= 1;
    }
    if end > 0 && line.get_char(end - 1) == '\r' {
        end -= 1;
    }
    let kept = line.substring_char(0, end);
    assert(kept@ =~= without_line_end(line@));
    String::from_str(kept)
}

/// Whether `s` is not empty and begins with `c`.
pub fn first_char_is(s: &str, c: char) -> (b: bool)
    ensures
        b == (s@.len() > 0 && s@[0] == c),
{
    broadcast use group_string_axioms;

    let mut it = s.chars();
    match it.next() {
        Some(first) => first == c,
        None => false,
    }
}

} // verus!
