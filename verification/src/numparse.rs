use vstd::prelude::*;
use vstd::string::*;
use crate::text::{digit_char, nat_decimal};

verus! {

/// Whether `c` is an ASCII decimal digit.
pub open spec fn is_digit(c: char) -> bool {
    '0' <= c <= '9'
}

/// The value of an ASCII decimal digit.
pub open spec fn digit_value(c: char) -> nat {
    ((c as u32) - ('0' as u32)) as nat
}

/// Whether every character of `s` is a decimal digit.
pub open spec fn all_digits(s: Seq<char>) -> bool {
    forall|i: int| 0 <= i < s.len() ==> is_digit(#[trigger] s[i])
}

/// The number written by the decimal digits `s` (most significant first).
pub open spec fn digits_value(s: Seq<char>) -> nat
    decreases s.len(),
{
    if s.len() == 0 {
        0
    } else {
        digits_value(s.drop_last()) * 10 + digit_value(s.last())
    }
}

/// What `str::parse` gives for an unsigned integer type whose largest value is `max`:
/// an optional `+`, then one or more decimal digits, whose value is at most `max`.
pub open spec fn parse_unsigned(s: Seq<char>, max: nat) -> Option<nat> {
    let body = if s.len() > 0 && s[0] == '+' {
        s.drop_first()
    } else {
        s
    };
    if body.len() > 0 && all_digits(body) && digits_value(body) <= max {
        Some(digits_value(body))
    } else {
        None
    }
}

/// Appending a digit never makes a number smaller.
pub proof fn lemma_digits_value_grows(s: Seq<char>, c: char)
    requires
        is_digit(c),
    ensures
        digits_value(s.push(c)) == digits_value(s) * 10 + digit_value(c),
        digits_value(s.push(c)) >= digits_value(s),
{
    assert(s.push(c).drop_last() =~= s);
}

/// A prefix of a run of digits is worth no more than the whole run.
pub proof fn lemma_digits_prefix_le(s: Seq<char>, k: int)
    requires
        0 <= k <= s.len(),
        all_digits(s),
    ensures
        digits_value(s.take(k)) <= digits_value(s),
    decreases s.len() - k,
{
    if k < s.len() {
        lemma_digits_prefix_le(s, k + 1);
        assert(s.take(k + 1) =~= s.take(k).push(s[k]));
        lemma_digits_value_grows(s.take(k), s[k]);
    } else {
        assert(s.take(k) =~= s);
    }
}

/// The characters of a string slice, one by one.
pub fn chars_of(s: &str) -> (r: Vec<char>)
    ensures
        r@ == s@,
{
    let n = s.unicode_len();
    let mut r: Vec<char> = Vec::new();
    let mut i: usize = 0;
    while i < n
        invariant
            n == s@.len(),
            i <= n,
            r@ == s@.take(i as int),
        decreases n - i,
    {
        r.push(s.get_char(i));
        i = i + 1;
        assert(r@ =~= s@.take(i as int));
    }
    assert(s@.take(n as int) =~= s@);
    r
}

/// Parses `chars[lo..hi]` as `str::parse` does for an unsigned type whose largest value is `max`.
pub fn parse_field(chars: &Vec<char>, lo: usize, hi: usize, max: u64) -> (r: Option<u64>)
    requires
        lo <= hi <= chars@.len(),
    ensures
        match r {
            Some(v) => parse_unsigned(chars@.subrange(lo as int, hi as int), max as nat) == Some(
                v as nat,
            ),
            None => parse_unsigned(chars@.subrange(lo as int, hi as int), max as nat) is None,
        },
{
    let ghost s = chars@.subrange(lo as int, hi as int);
    let mut start = lo;
    if lo < hi && chars[lo] == '+' {
        start = lo + 1;
    }
    let ghost body = chars@.subrange(start as int, hi as int);
    assert(body =~= (if s.len() > 0 && s[0] == '+' {
        s.drop_first()
    } else {
        s
    }));
    if start == hi {
        return None;
    }
    let mut value: u64 = 0;
    let mut i = start;
    while i < hi
        invariant
            lo <= start <= i <= hi <= chars@.len(),
            start < hi,
            body == chars@.subrange(start as int, hi as int),
            s == chars@.subrange(lo as int, hi as int),
            body == (if s.len() > 0 && s[0] == '+' {
                s.drop_first()
            } else {
                s
            }),
            all_digits(body.take(i - start)),
            value as nat == digits_value(body.take(i - start)),
            value <= max,
        decreases hi - i,
    {
        let c = chars[i];
        assert(body[i - start] == c);
        if !('0' <= c && c <= '9') {
            assert(!is_digit(body[i - start]));
            assert(!all_digits(body));
            return None;
        }
        let d = (c as u32 - '0' as u32) as u64;
        assert(body.take(i - start + 1) =~= body.take(i - start).push(c));
        proof {
            lemma_digits_value_grows(body.take(i - start), c);
        }
        if d > max {
            proof {
                let k = i - start + 1;
                if all_digits(body) {
                    lemma_digits_prefix_le(body, k as int);
                }
            }
            return None;
        }
        if value > (max - d) / 10 {
            proof {
                assert(value * 10 + d > max) by (nonlinear_arith)
                    requires
                        value > (max - d) / 10,
                        d <= 9,
                        d <= max,
                ;
                let k = i - start + 1;
                if all_digits(body) {
                    lemma_digits_prefix_le(body, k as int);
                }
            }
            return None;
        }
        assert(value * 10 + d <= max) by (nonlinear_arith)
            requires
                value <= (max - d) / 10,
                d <= max,
        ;
        value = value * 10 + d;
        i = i + 1;
    }
    assert(body.take(hi - start) =~= body);
    Some(value)
}

/// The digit character of `d` is a digit worth `d`.
pub proof fn lemma_digit_char_value(d: nat)
    requires
        d < 10,
    ensures
        is_digit(digit_char(d)),
        digit_value(digit_char(d)) == d,
{
    assert('0' as u32 == 48 && '1' as u32 == 49 && '2' as u32 == 50 && '3' as u32 == 51);
    assert('4' as u32 == 52 && '5' as u32 == 53 && '6' as u32 == 54 && '7' as u32 == 55);
    assert('8' as u32 == 56 && '9' as u32 == 57);
}

/// The decimal notation of a number is a run of digits worth that number.
pub proof fn lemma_decimal_digits(n: nat)
    ensures
        nat_decimal(n).len() > 0,
        all_digits(nat_decimal(n)),
        digits_value(nat_decimal(n)) == n,
    decreases n,
{
    if n < 10 {
        lemma_digit_char_value(n);
        assert(nat_decimal(n).drop_last() =~= Seq::<char>::empty());
        assert(digits_value(Seq::<char>::empty()) == 0);
        assert(digits_value(nat_decimal(n)) == digits_value(nat_decimal(n).drop_last()) * 10
            + digit_value(nat_decimal(n).last()));
    } else {
        lemma_digit_char_value(n % 10);
        lemma_decimal_digits(n / 10);
        let d = digit_char(n % 10);
        lemma_digits_value_grows(nat_decimal(n / 10), d);
        assert(nat_decimal(n) =~= nat_decimal(n / 10).push(d));
        assert((n / 10) * 10 + n % 10 == n);
    }
}

/// A law of numbers in text: parsing the decimal notation of a number within the
/// bound gives the number back.
pub proof fn lemma_parse_decimal_round_trip(n: nat, max: nat)
    requires
        n <= max,
    ensures
        parse_unsigned(nat_decimal(n), max) == Some(n),
{
    lemma_decimal_digits(n);
    assert(is_digit(nat_decimal(n)[0]));
}

} // verus!
