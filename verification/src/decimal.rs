//! Decimal notation of integers, as it appears in the text of a task.

use vstd::prelude::*;
use vstd::string::*;

verus! {

/// The character that stands for the digit `d`.
pub open spec fn digit_char(d: int) -> char {
    if d == 0 {
        '0'
    } else if d == 1 {
        '1'
    } else if d == 2 {
        '2'
    } else if d == 3 {
        '3'
    } else if d == 4 {
        '4'
    } else if d == 5 {
        '5'
    } else if d == 6 {
        '6'
    } else if d == 7 {
        '7'
    } else if d == 8 {
        '8'
    } else {
        '9'
    }
}

/// The digits of `n` in base ten, most significant first, without leading zeros.
pub open spec fn digits(n: nat) -> Seq<char>
    decreases n,
{
    if n < 10 {
        seq![digit_char(n as int)]
    } else {
        digits(n / 10).push(digit_char((n % 10) as int))
    }
}

/// The decimal notation of `n`: its digits, after a minus sign where `n` is negative.
pub open spec fn decimal(n: int) -> Seq<char> {
    if n < 0 {
        seq!['-'] + digits((-n) as nat)
    } else {
        digits(n as nat)
    }
}

/// Whether `c` is one of the ten digits.
pub open spec fn is_digit(c: char) -> bool {
    exists|d: int| 0 <= d < 10 && c == #[trigger] digit_char(d)
}

/// The digits of a number are digits, at least one of them, and at least two from ten
/// on.
pub proof fn lemma_digits_are_digits(n: nat)
    ensures
        digits(n).len() >= 1,
        n >= 10 ==> digits(n).len() >= 2,
        forall|i: int| 0 <= i < digits(n).len() ==> is_digit(#[trigger] digits(n)[i]),
    decreases n,
{
    if n < 10 {
        assert(digits(n)[0] == digit_char(n as int));
    } else {
        lemma_digits_are_digits(n / 10);
        assert(0 <= n % 10 < 10);
        assert forall|i: int| 0 <= i < digits(n).len() implies is_digit(#[trigger] digits(n)[i]) by {
            if i < digits(n / 10).len() {
                assert(digits(n)[i] == digits(n / 10)[i]);
            } else {
                assert(digits(n)[i] == digit_char((n % 10) as int));
            }
        }
    }
}

/// No two numbers have the same digits.
pub proof fn lemma_digits_injective(a: nat, b: nat)
    requires
        digits(a) == digits(b),
    ensures
        a == b,
    decreases a,
{
    lemma_digits_are_digits(a);
    lemma_digits_are_digits(b);
    if a < 10 {
        assert(digits(a).len() == 1);
        assert(b < 10);
        assert(digits(a)[0] == digit_char(a as int));
        assert(digits(b)[0] == digit_char(b as int));
    } else {
        assert(b >= 10);
        let front_a = digits(a / 10);
        let front_b = digits(b / 10);
        assert(front_a =~= digits(a).drop_last());
        assert(front_b =~= digits(b).drop_last());
        lemma_digits_injective(a / 10, b / 10);
        assert(digits(a).last() == digit_char((a % 10) as int));
        assert(digits(b).last() == digit_char((b % 10) as int));
        assert(a % 10 == b % 10);
    }
}

/// The decimal notation of a number holds digits and at most a minus sign: it is not
/// empty, and there is no space in it.
pub proof fn lemma_decimal_has_no_space(n: int)
    ensures
        decimal(n).len() >= 1,
        forall|i: int| 0 <= i < decimal(n).len() ==> #[trigger] decimal(n)[i] != ' ',
{
    if n < 0 {
        lemma_digits_are_digits((-n) as nat);
        assert forall|i: int| 0 <= i < decimal(n).len() implies #[trigger] decimal(n)[i]
            != ' ' by {
            if i > 0 {
                assert(decimal(n)[i] == digits((-n) as nat)[i - 1]);
                assert(is_digit(digits((-n) as nat)[i - 1]));
            }
        }
    } else {
        lemma_digits_are_digits(n as nat);
        assert forall|i: int| 0 <= i < decimal(n).len() implies #[trigger] decimal(n)[i]
            != ' ' by {
            assert(is_digit(digits(n as nat)[i]));
        }
    }
}

/// No two numbers have the same decimal notation.
pub proof fn lemma_decimal_injective(a: int, b: int)
    requires
        decimal(a) == decimal(b),
    ensures
        a == b,
{
    let first = decimal(a)[0];
    if a < 0 {
        assert(first == '-');
        if b >= 0 {
            lemma_digits_are_digits(b as nat);
            assert(is_digit(digits(b as nat)[0]));
        }
        assert(digits((-a) as nat) =~= decimal(a).subrange(1, decimal(a).len() as int));
        assert(digits((-b) as nat) =~= decimal(b).subrange(1, decimal(b).len() as int));
        lemma_digits_injective((-a) as nat, (-b) as nat);
    } else {
        lemma_digits_are_digits(a as nat);
        assert(is_digit(digits(a as nat)[0]));
        assert(b >= 0);
        lemma_digits_injective(a as nat, b as nat);
    }
}

/// The one-character string of a digit.
fn digit_str(d: u8) -> (s: &'static str)
    requires
        d < 10,
    ensures
        s@ == seq![digit_char(d as int)],
{
    proof {
        reveal_strlit("0");
        reveal_strlit("1");
        reveal_strlit("2");
        reveal_strlit("3");
        reveal_strlit("4");
        reveal_strlit("5");
        reveal_strlit("6");
        reveal_strlit("7");
        reveal_strlit("8");
        reveal_strlit("9");
    }
    let s = match d {
        0 => "0",
        1 => "1",
        2 => "2",
        3 => "3",
        4 => "4",
        5 => "5",
        6 => "6",
        7 => "7",
        8 => "8",
        _ => "9",
    };
    assert(s@ =~= seq![digit_char(d as int)]);
    s
}

/// Appends the digits of `n` to `text`.
pub fn push_digits(text: &mut String, n: u128)
    ensures
        final(text)@ == old(text)@ + digits(n as nat),
    decreases n,
{
    if n >= 10 {
        push_digits(text, n / 10);
    }
    let last: u8 = (n % 10) as u8;
    text.append(digit_str(last));
    proof {
        if n >= 10 {
            assert(final(text)@ =~= old(text)@ + digits((n / 10) as nat).push(
                digit_char((n % 10) as int),
            ));
        } else {
            assert(final(text)@ =~= old(text)@ + seq![digit_char(n as int)]);
        }
    }
}

/// Appends the decimal notation of `n` to `text`.
pub fn push_decimal(text: &mut String, n: i128)
    ensures
        final(text)@ == old(text)@ + decimal(n as int),
{
    if n < 0 {
        proof {
            reveal_strlit("-");
        }
        text.append("-");
        let magnitude: u128 = if n == i128::MIN {
            0x8000_0000_0000_0000_0000_0000_0000_0000u128
        } else {
            (-n) as u128
        };
        push_digits(text, magnitude);
        assert(final(text)@ =~= old(text)@ + (seq!['-'] + digits((-n) as nat)));
    } else {
        push_digits(text, n as u128);
    }
}

/// The decimal notation of `n` as a string.
pub fn to_decimal(n: i128) -> (text: String)
    ensures
        text@ == decimal(n as int),
{
    let mut text = String::new();
    push_decimal(&mut text, n);
    assert(text@ =~= decimal(n as int));
    text
}

} // verus!
