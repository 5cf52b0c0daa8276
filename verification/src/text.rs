//! Decimal numbers as text.
use vstd::prelude::*;

verus! {

/// The character of the digit `d`.
pub open spec fn digit(d: nat) -> char {
    (48 + d) as char
}

/// The decimal text of `n`, without leading zeros.
pub open spec fn decimal(n: nat) -> Seq<char>
    decreases n,
{
    if n < 10 {
        seq![digit(n)]
    } else {
        decimal(n / 10).push(digit(n % 10))
    }
}

/// Whether `c` is one of the ten ASCII digits.
pub open spec fn is_digit(c: char) -> bool {
    '0' <= c <= '9'
}

/// Whether every character of `s` is a digit.
pub open spec fn all_digits(s: Seq<char>) -> bool {
    forall|i: int| 0 <= i < s.len() ==> is_digit(#[trigger] s[i])
}

/// What a run of digits stands for.
pub open spec fn digits_value(s: Seq<char>) -> nat
    decreases s.len(),
{
    if s.len() == 0 {
        0
    } else {
        digits_value(s.drop_last()) * 10 + ((s.last() as int - 48) as nat)
    }
}

/// A number without its optional plus sign.
pub open spec fn unsigned_part(s: Seq<char>) -> Seq<char> {
    if s.len() > 0 && s[0] == '+' {
        s.skip(1)
    } else {
        s
    }
}

/// The number that `s` spells: an optional plus sign, then digits only and at
/// least one, worth no more than `max`.
pub open spec fn number(s: Seq<char>, max: nat) -> Option<nat> {
    let digits = unsigned_part(s);
    if digits.len() > 0 && all_digits(digits) && digits_value(digits) <= max {
        Some(digits_value(digits))
    } else {
        None
    }
}

/// The text of one digit.
fn digit_text(d: u64) -> (text: &'static str)
    requires
        d < 10,
    ensures
        text@ == seq![digit(d as nat)],
{
    proof {
        reveal_strlit("0");
        reveal_strlit("1");
        reveal_strlit("2");
        reveal_strlit("3");
        reveal_strlit("4");
        reveal_strlit("5");
        reveal_strlit("6");
        reveal_strlit("7");
        reveal_strlit("8");
        reveal_strlit("9");
    }
    match d {
        0 => "0",
        1 => "1",
        2 => "2",
        3 => "3",
        4 => "4",
        5 => "5",
        6 => "6",
        7 => "7",
        8 => "8",
        _ => "9",
    }
}

/// The decimal text of `n`.
pub fn decimal_text(n: u64) -> (text: String)
    ensures
        text@ == decimal(n as nat),
    decreases n,
{
    if n < 10 {
        let mut text = String::new();
        text.append(digit_text(n));
        text
    } else {
        let mut text = decimal_text(n / 10);
        text.append(digit_text(n % 10));
        text
    }
}

/// The digit that `c` stands for.
fn digit_value(c: char) -> (value: Option<u64>)
    ensures
        is_digit(c) ==> value == Some((c as int - 48) as u64) && 0 <= c as int - 48 < 10,
        !is_digit(c) ==> value is None,
{
    if '0' <= c && c <= '9' {
        Some((c as u64) - 48)
    } else {
        None
    }
}

/// Taking digits off the end never makes a number larger.
proof fn lemma_prefix_value(s: Seq<char>, n: int)
    requires
        0 <= n <= s.len(),
        all_digits(s),
    ensures
        digits_value(s.take(n)) <= digits_value(s),
    decreases s.len() - n,
{
    if n == s.len() {
        assert(s.take(n) =~= s);
    } else {
        lemma_prefix_value(s, n + 1);
        assert(s.take(n + 1).drop_last() =~= s.take(n));
    }
}

/// The number that `text` spells, if it spells one of at most `max`.
pub fn parse_number(text: &str, max: u64) -> (parsed: Option<u64>)
    ensures
        match parsed {
            Some(n) => number(text@, max as nat) == Some(n as nat),
            None => number(text@, max as nat) is None,
        },
{
    let len: usize = text.unicode_len();
    let start: usize = if len > 0 && text.get_char(0) == '+' {
        1
    } else {
        0
    };
    let ghost digits = unsigned_part(text@);
    assert(digits =~= text@.skip(start as int));
    if start == len {
        return None;
    }
    let mut value: u64 = 0;
    let mut at: usize = start;
    assert(digits.take(0) =~= Seq::<char>::empty());
    while at < len
        invariant
            len == text@.len(),
            start <= at <= len,
            digits == text@.skip(start as int),
            digits == unsigned_part(text@),
            value == digits_value(digits.take(at - start)),
            value <= max,
            forall|i: int| 0 <= i < at - start ==> is_digit(#[trigger] digits[i]),
        decreases len - at,
    {
        let c: char = text.get_char(at);
        assert(c == digits[at - start]);
        assert(digits.take(at + 1 - start).drop_last() =~= digits.take(at - start));
        let d: u64 = match digit_value(c) {
            Some(d) => d,
            None => {
                return None;
            },
        };
        assert(digits_value(digits.take(at + 1 - start)) == value * 10 + d);
        if value > max / 10 || d > max - value * 10 {
            proof {
                if all_digits(digits) {
                    lemma_prefix_value(digits, at + 1 - start);
                }
            }
            return None;
        }
        value = value * 10 + d;
        at = at + 1;
    }
    assert(digits.take(len - start) =~= digits);
    Some(value)
}

/// The text of a number is read back as that number.
pub proof fn law_number_of_decimal(n: nat, max: nat)
    requires
        n <= max,
    ensures
        number(decimal(n), max) == Some(n),
{
    lemma_decimal_is_digits(n);
}

proof fn lemma_decimal_is_digits(n: nat)
    ensures
        decimal(n).len() > 0,
        all_digits(decimal(n)),
        digits_value(decimal(n)) == n,
    decreases n,
{
    if n < 10 {
        assert(decimal(n).drop_last() =~= Seq::<char>::empty());
        assert(digits_value(Seq::<char>::empty()) == 0);
    } else {
        lemma_decimal_is_digits(n / 10);
        assert(decimal(n).drop_last() =~= decimal(n / 10));
    }
}

/// Different numbers have different texts.
pub proof fn law_decimal_is_injective(m: nat, n: nat)
    requires
        decimal(m) == decimal(n),
    ensures
        m == n,
{
    lemma_decimal_is_digits(m);
    lemma_decimal_is_digits(n);
}

/// The text of a number ends with its last digit, and what stands before that is
/// the text of the number without it.
pub proof fn law_decimal_is_written_digit_by_digit(n: nat)
    ensures
        n < 10 ==> decimal(n).len() == 1,
        n >= 10 ==> decimal(n).drop_last() == decimal(n / 10),
        decimal(n).len() > 0,
        decimal(n).last() as int == 48 + n % 10,
{
    lemma_decimal_is_digits(n);
    if n >= 10 {
        assert(decimal(n).drop_last() =~= decimal(n / 10));
    }
}

/// `decimal_text` is read back by `parse_number` as the number that it was made
/// of, wherever that is within the limit.
pub proof fn law_numbers_survive_their_text(
    n: u64,
    max: u64,
    text: String,
    slice: &str,
    parsed: Option<u64>,
)
    requires
        call_ensures(decimal_text, (n,), text),
        slice@ == text@,
        call_ensures(parse_number, (slice, max), parsed),
    ensures
        n <= max ==> parsed == Some(n),
        n > max ==> parsed is None,
{
    lemma_decimal_is_digits(n as nat);
}

/// Only digits spell a number, but for one plus sign before them, and no number
/// is above the limit.
pub proof fn law_numbers_are_digits(s: Seq<char>, max: nat)
    ensures
        number(s, max) matches Some(n) ==> {
            &&& n <= max
            &&& s.len() > 0
            &&& s[0] == '+' ==> s.len() > 1
            &&& s[0] != '+' ==> '0' <= s[0] <= '9'
            &&& forall|i: int| 1 <= i < s.len() ==> '0' <= #[trigger] s[i] <= '9'
        },
{
    if number(s, max) is Some && s.len() > 0 {
        let digits = unsigned_part(s);
        if s[0] == '+' {
            assert forall|i: int| 1 <= i < s.len() implies '0' <= #[trigger] s[i] <= '9' by {
                assert(is_digit(digits[i - 1]));
            }
        } else {
            assert(is_digit(digits[0]));
            assert forall|i: int| 1 <= i < s.len() implies '0' <= #[trigger] s[i] <= '9' by {
                assert(is_digit(digits[i]));
            }
        }
    }
}

/// A digit alone spells its value, if that is within the limit.
pub proof fn law_digits_spell_their_value(c: char, max: nat)
    requires
        '0' <= c <= '9',
    ensures
        number(seq![c], max) == (if c as int - 48 <= max {
            Some((c as int - 48) as nat)
        } else {
            None
        }),
{
    let s = seq![c];
    assert(s.drop_last() =~= Seq::<char>::empty());
    assert(digits_value(Seq::<char>::empty()) == 0);
    assert(s.last() == c);
}

/// One more digit makes a number ten times as large and adds its value, and is
/// refused if and only if that goes beyond the limit.
pub proof fn law_one_more_digit(s: Seq<char>, c: char, max: nat)
    requires
        number(s, max) is Some,
        '0' <= c <= '9',
    ensures
        number(s.push(c), max) == (if number(s, max)->Some_0 * 10 + (c as int - 48) <= max {
            Some((number(s, max)->Some_0 * 10 + (c as int - 48)) as nat)
        } else {
            None
        }),
{
    let digits = unsigned_part(s);
    assert(unsigned_part(s.push(c)) =~= digits.push(c));
    assert(digits.push(c).drop_last() =~= digits);
    assert forall|i: int| 0 <= i < digits.push(c).len() implies is_digit(
        #[trigger] digits.push(c)[i],
    ) by {
        if i < digits.len() {
            assert(is_digit(digits[i]));
        }
    }
}

/// What is no number, or one beyond the limit, does not become one by a digit
/// more, but for the empty text and a plus sign alone.
pub proof fn law_no_digit_mends_a_number(s: Seq<char>, c: char, max: nat)
    requires
        number(s.push(c), max) is Some,
        s.len() > 0,
        s != seq!['+'],
    ensures
        number(s, max) is Some,
{
    let digits = unsigned_part(s);
    let longer = unsigned_part(s.push(c));
    assert(longer =~= digits.push(c));
    assert(longer.drop_last() =~= digits);
    assert forall|i: int| 0 <= i < digits.len() implies is_digit(#[trigger] digits[i]) by {
        assert(is_digit(longer[i]));
    }
    if digits.len() == 0 {
        assert(s =~= seq!['+']);
    }
    lemma_prefix_value(longer, digits.len() as int);
    assert(longer.take(digits.len() as int) =~= digits);
}

/// A plus sign before a number changes nothing.
pub proof fn law_plus_sign_changes_nothing(s: Seq<char>, max: nat)
    requires
        s.len() > 0,
        s[0] != '+',
    ensures
        number(seq!['+'] + s, max) == number(s, max),
{
    assert((seq!['+'] + s).skip(1) =~= s);
}

} // verus!
