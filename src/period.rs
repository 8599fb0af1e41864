//! Human-readable time periods such as `"250ms"`, `"5s"`, `"3m"`, `"1h"` or `"42"`.

use vstd::prelude::*;

verus! {

/// A letter that may stand in the unit suffix of a period.
pub open spec fn is_unit_letter(c: char) -> bool {
    ('a' <= c && c <= 'z') || ('A' <= c && c <= 'Z')
}

pub open spec fn is_digit(c: char) -> bool {
    '0' <= c && c <= '9'
}

/// Where the trailing run of letters (the unit) starts.
pub open spec fn unit_start(s: Seq<char>) -> nat
    decreases s.len(),
{
    if s.len() > 0 && is_unit_letter(s.last()) {
        unit_start(s.drop_last())
    } else {
        s.len()
    }
}

pub open spec fn digit_value(c: char) -> nat {
    ((c as u32) - ('0' as u32)) as nat
}

/// The value of a run of decimal digits.
pub open spec fn digits_value(d: Seq<char>) -> nat
    decreases d.len(),
{
    if d.len() == 0 {
        0
    } else {
        digits_value(d.drop_last()) * 10 + digit_value(d.last())
    }
}

/// The digits of a numeral, after an optional leading `+`.
pub open spec fn numeral_digits(s: Seq<char>) -> Seq<char> {
    if s.len() > 0 && s[0] == '+' {
        s.skip(1)
    } else {
        s
    }
}

/// An unsigned decimal numeral: an optional `+`, then one digit or more.
pub open spec fn is_numeral(s: Seq<char>) -> bool {
    let d = numeral_digits(s);
    d.len() > 0 && forall|i: int| 0 <= i < d.len() ==> is_digit(#[trigger] d[i])
}

/// Milliseconds in one of the unit; a missing unit means seconds.
pub open spec fn unit_scale(unit: Seq<char>) -> Option<nat> {
    if unit.len() == 0 {
        Some(1000)
    } else if unit == seq!['m', 's'] {
        Some(1)
    } else if unit == seq!['s'] {
        Some(1000)
    } else if unit == seq!['m'] {
        Some(60 * 1000)
    } else if unit == seq!['h'] {
        Some(60 * 60 * 1000)
    } else {
        None
    }
}

/// The number part of a period string.
pub open spec fn period_number(s: Seq<char>) -> Seq<char> {
    s.take(unit_start(s) as int)
}

/// The unit part of a period string.
pub open spec fn period_unit(s: Seq<char>) -> Seq<char> {
    s.skip(unit_start(s) as int)
}

/// The count of units that a period string gives.
pub open spec fn period_count(s: Seq<char>) -> nat {
    digits_value(numeral_digits(period_number(s)))
}

/// The period in milliseconds, where the string is a valid, non-zero period that fits in a `u64`.
pub open spec fn period_ms(s: Seq<char>) -> Option<nat> {
    let v = period_count(s);
    if is_numeral(period_number(s)) && v > 0 && unit_scale(period_unit(s)) is Some && v
        * unit_scale(period_unit(s))->0 <= u64::MAX {
        Some(v * unit_scale(period_unit(s))->0)
    } else {
        None
    }
}

pub open spec fn digit_char(d: nat) -> char {
    seq!['0', '1', '2', '3', '4', '5', '6', '7', '8', '9'][d as int]
}

/// The decimal representation of `n`, without leading zeros.
pub open spec fn decimal(n: nat) -> Seq<char>
    decreases n,
{
    if n < 10 {
        seq![digit_char(n)]
    } else {
        decimal(n / 10).push(digit_char(n % 10))
    }
}

/// The word naming `count` of the unit.
pub open spec fn unit_word(unit: Seq<char>, count: nat) -> Seq<char> {
    if unit == seq!['m', 's'] {
        seq!['m', 's']
    } else if unit == seq!['m'] {
        if count == 1 {
            seq!['m', 'i', 'n']
        } else {
            seq!['m', 'i', 'n', 's']
        }
    } else if unit == seq!['h'] {
        if count == 1 {
            seq!['h', 'o', 'u', 'r']
        } else {
            seq!['h', 'o', 'u', 'r', 's']
        }
    } else if count == 1 {
        seq!['s', 'e', 'c']
    } else {
        seq!['s', 'e', 'c', 's']
    }
}

/// The human-readable form of a period string: the count, a space, and the unit's word.
pub open spec fn period_label(s: Seq<char>) -> Seq<char> {
    decimal(period_count(s)) + seq![' '] + unit_word(period_unit(s), period_count(s))
}

proof fn lemma_unit_start_bound(s: Seq<char>)
    ensures
        unit_start(s) <= s.len(),
        forall|j: int| unit_start(s) <= j < s.len() ==> is_unit_letter(#[trigger] s[j]),
    decreases s.len(),
{
    if s.len() > 0 && is_unit_letter(s.last()) {
        lemma_unit_start_bound(s.drop_last());
        assert forall|j: int| unit_start(s) <= j < s.len() implies is_unit_letter(#[trigger] s[j]) by {
            if j < s.len() - 1 {
                assert(s.drop_last()[j] == s[j]);
            }
        }
    }
}

proof fn lemma_digits_value_prefix(d: Seq<char>, j: int)
    requires
        0 <= j <= d.len(),
    ensures
        digits_value(d.take(j)) <= digits_value(d),
    decreases d.len() - j,
{
    if j < d.len() {
        lemma_digits_value_prefix(d, j + 1);
        assert(d.take(j + 1).drop_last() =~= d.take(j));
    } else {
        assert(d.take(j) =~= d);
    }
}

fn digit_str(d: u64) -> (r: &'static str)
    requires
        d < 10,
    ensures
        r@ == seq![digit_char(d as nat)],
{
    proof {
        reveal_strlit("0");
        reveal_strlit("1");
        reveal_strlit("2");
        reveal_strlit("3");
        reveal_strlit("4");
        reveal_strlit("5");
        reveal_strlit("6");
        reveal_strlit("7");
        reveal_strlit("8");
        reveal_strlit("9");
    }
    match d {
        0 => "0",
        1 => "1",
        2 => "2",
        3 => "3",
        4 => "4",
        5 => "5",
        6 => "6",
        7 => "7",
        8 => "8",
        _ => "9",
    }
}

/// Appends the decimal representation of `n` to `out`.
pub fn push_decimal(out: &mut String, n: u64)
    ensures
        final(out)@ == old(out)@ + decimal(n as nat),
    decreases n,
{
    if n >= 10 {
        push_decimal(out, n / 10);
    }
    out.append(digit_str(n % 10));
    proof {
        if n >= 10 {
            assert(old(out)@ + decimal(n as nat) =~= old(out)@ + decimal((n / 10) as nat) + seq![
                digit_char((n % 10) as nat),
            ]);
        }
    }
}

fn push_unit_word(out: &mut String, unit: &str, count: u64)
    ensures
        final(out)@ == old(out)@ + unit_word(unit@, count as nat),
{
    proof {
        reveal_strlit("ms");
        reveal_strlit("min");
        reveal_strlit("mins");
        reveal_strlit("hour");
        reveal_strlit("hours");
        reveal_strlit("sec");
        reveal_strlit("secs");
    }
    let word = if unit_is(unit, 'm', 's') {
        "ms"
    } else if unit_is_one(unit, 'm') {
        if count == 1 {
            "min"
        } else {
            "mins"
        }
    } else if unit_is_one(unit, 'h') {
        if count == 1 {
            "hour"
        } else {
            "hours"
        }
    } else if count == 1 {
        "sec"
    } else {
        "secs"
    };
    out.append(word);
}

fn unit_is(unit: &str, a: char, b: char) -> (r: bool)
    ensures
        r == (unit@ == seq![a, b]),
{
    if unit.unicode_len() == 2 {
        let r = unit.get_char(0) == a && unit.get_char(1) == b;
        proof {
            if unit@ == seq![a, b] {
                assert(unit@[0] == a && unit@[1] == b);
            }
            if r {
                assert(unit@ =~= seq![a, b]);
            }
        }
        r
    } else {
        false
    }
}

fn unit_is_one(unit: &str, a: char) -> (r: bool)
    ensures
        r == (unit@ == seq![a]),
{
    if unit.unicode_len() == 1 {
        let r = unit.get_char(0) == a;
        proof {
            if unit@ == seq![a] {
                assert(unit@[0] == a);
            }
            if r {
                assert(unit@ =~= seq![a]);
            }
        }
        r
    } else {
        false
    }
}

fn unit_scale_of(unit: &str) -> (r: Option<u64>)
    ensures
        match r {
            Some(m) => unit_scale(unit@) == Some(m as nat),
            None => unit_scale(unit@) is None,
        },
{
    if unit.unicode_len() == 0 {
        Some(1000)
    } else if unit_is(unit, 'm', 's') {
        Some(1)
    } else if unit_is_one(unit, 's') {
        Some(1000)
    } else if unit_is_one(unit, 'm') {
        Some(60 * 1000)
    } else if unit_is_one(unit, 'h') {
        Some(60 * 60 * 1000)
    } else {
        None
    }
}

fn unit_split(str_val: &str) -> (k: usize)
    ensures
        k as nat == unit_start(str_val@),
{
    let ghost s = str_val@;
    let n = str_val.unicode_len();
    let mut k: usize = n;
    assert(s.take(n as int) =~= s);
    while k > 0 && is_unit_letter_exec(str_val.get_char(k - 1))
        invariant
            n == s.len(),
            s == str_val@,
            k <= n,
            unit_start(s) == unit_start(s.take(k as int)),
        decreases k,
    {
        assert(s.take(k as int).drop_last() =~= s.take(k - 1));
        k = k - 1;
    }
    if k == 0 {
        assert(s.take(0) =~= Seq::<char>::empty());
    } else {
        assert(s.take(k as int).last() == s[k - 1]);
    }
    k
}

/// Reads an unsigned decimal numeral, with an optional leading `+`.
fn parse_count(number: &str) -> (r: Option<u64>)
    ensures
        match r {
            Some(v) => is_numeral(number@) && v as nat == digits_value(numeral_digits(number@)),
            None => !is_numeral(number@) || digits_value(numeral_digits(number@)) > u64::MAX,
        },
{
    let ghost num = number@;
    let ghost d = numeral_digits(num);
    let k = number.unicode_len();
    let mut start: usize = 0;
    if k > 0 && number.get_char(0) == '+' {
        start = 1;
    }
    assert(d =~= num.skip(start as int));
    if start >= k {
        return None;
    }
    let mut i: usize = start;
    let mut value: u64 = 0;
    while i < k
        invariant
            k == num.len(),
            num == number@,
            d =~= num.skip(start as int),
            d == numeral_digits(num),
            start < k,
            start <= i <= k,
            value == digits_value(d.take(i - start)),
            forall|j: int| 0 <= j < i - start ==> is_digit(#[trigger] d[j]),
        decreases k - i,
    {
        let c = number.get_char(i);
        assert(d[i - start] == c);
        if !('0' <= c && c <= '9') {
            assert(!is_digit(d[i - start]));
            return None;
        }
        let digit = (c as u32 - '0' as u32) as u64;
        assert(d.take(i - start + 1).drop_last() =~= d.take(i - start));
        assert(d.take(i - start + 1).last() == c);
        assert(digits_value(d.take(i - start + 1)) == value * 10 + digit);
        if value > (u64::MAX - digit) / 10 {
            proof {
                lemma_digits_value_prefix(d, i - start + 1);
                assert(value * 10 + digit > u64::MAX) by (nonlinear_arith)
                    requires
                        value > (u64::MAX - digit) / 10,
                        digit < 10,
                ;
            }
            return None;
        }
        value = value * 10 + digit;
        i = i + 1;
    }
    assert(d.take(d.len() as int) =~= d);
    Some(value)
}

/// Parses a period such as `"250ms"`, `"5s"`, `"5"` (seconds), `"3m"` or `"1h"` into
/// milliseconds, together with a human-readable form such as `"250 ms"` or `"1 sec"`.
///
/// Returns `None` for an empty string, a missing or malformed number, a zero period,
/// an unknown unit, or a period too long for a `u64` of milliseconds.
pub fn convert_time_period_string_to_ms(str_val: &str) -> (r: Option<(u64, String)>)
    ensures
        match r {
            Some((ms, label)) => period_ms(str_val@) == Some(ms as nat) && label@ == period_label(
                str_val@,
            ),
            None => period_ms(str_val@) is None,
        },
{
    let ghost s = str_val@;
    let n = str_val.unicode_len();
    let k = unit_split(str_val);
    proof {
        lemma_unit_start_bound(s);
    }
    let number = str_val.substring_char(0, k);
    let unit = str_val.substring_char(k, n);
    assert(number@ == period_number(s));
    assert(unit@ == period_unit(s));
    let scale = match unit_scale_of(unit) {
        Some(m) => m,
        None => {
            return None;
        },
    };
    let value = match parse_count(number) {
        Some(v) => v,
        None => {
            proof {
                let v = period_count(s);
                let m = unit_scale(unit@)->0;
                assert(v * m >= v) by (nonlinear_arith)
                    requires
                        m >= 1,
                ;
            }
            return None;
        },
    };
    if value == 0 {
        return None;
    }
    let ms = match value.checked_mul(scale) {
        Some(m) => m,
        None => {
            return None;
        },
    };
    let mut label = String::new();
    push_decimal(&mut label, value);
    proof {
        reveal_strlit(" ");
    }
    label.append(" ");
    push_unit_word(&mut label, unit, value);
    assert(label@ =~= period_label(s));
    Some((ms, label))
}

/// A valid period is never zero, so a parsed sampling interval can never be zero.
pub proof fn lemma_valid_period_is_positive(s: Seq<char>)
    ensures
        period_ms(s) is Some ==> period_ms(s)->0 > 0,
{
    if period_ms(s) is Some {
        let v = period_count(s);
        let m = unit_scale(period_unit(s))->0;
        assert(v * m > 0) by (nonlinear_arith)
            requires
                v > 0,
                m >= 1,
        ;
    }
}

fn is_unit_letter_exec(c: char) -> (r: bool)
    ensures
        r == is_unit_letter(c),
{
    ('a' <= c && c <= 'z') || ('A' <= c && c <= 'Z')
}

} // verus!
