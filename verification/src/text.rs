//! Comparing, reading and writing texts.
use vstd::prelude::*;

verus! {

pub fn same_text(a: &str, b: &str) -> (r: bool)
    ensures
        r == (a@ == b@),
{
    a.to_owned() == b.to_owned()
}

/// A decimal digit.
pub open spec fn is_digit(c: char) -> bool {
    '0' <= c <= '9'
}

pub open spec fn digit_value(c: char) -> int {
    c as int - '0' as int
}

/// Whether a text is made of decimal digits.
pub open spec fn all_digits(text: Seq<char>) -> bool {
    forall|i: int| 0 <= i < text.len() ==> is_digit(#[trigger] text[i])
}

/// The number that decimal digits make.
pub open spec fn digits_value(digits: Seq<char>) -> int
    decreases digits.len(),
{
    if digits.len() == 0 {
        0
    } else {
        digits_value(digits.drop_last()) * 10 + digit_value(digits.last())
    }
}

/// The text without the plus sign that it may start with.
pub open spec fn without_plus(text: Seq<char>) -> Seq<char> {
    if text.len() > 0 && text[0] == '+' {
        text.skip(1)
    } else {
        text
    }
}

/// The unsigned number that a text writes in decimal digits, after a plus sign or without one.
pub open spec fn number_in(text: Seq<char>) -> Option<u64> {
    let digits = without_plus(text);
    if digits.len() > 0 && all_digits(digits) && digits_value(digits) <= u64::MAX {
        Some(digits_value(digits) as u64)
    } else {
        None
    }
}

proof fn lemma_prefix_not_larger(digits: Seq<char>, n: int)
    requires
        all_digits(digits),
        0 <= n <= digits.len(),
    ensures
        0 <= digits_value(digits.take(n)) <= digits_value(digits),
    decreases digits.len(),
{
    if n == digits.len() {
        assert(digits.take(n) =~= digits);
        if n > 0 {
            let before = digits.drop_last();
            assert(all_digits(before)) by {
                assert forall|i: int| 0 <= i < before.len() implies is_digit(
                    #[trigger] before[i],
                ) by {
                    assert(before[i] == digits[i]);
                }
            }
            lemma_prefix_not_larger(before, n - 1);
            assert(is_digit(digits[n - 1]));
        }
    } else {
        let before = digits.drop_last();
        assert(all_digits(before)) by {
            assert forall|i: int| 0 <= i < before.len() implies is_digit(#[trigger] before[i]) by {
                assert(before[i] == digits[i]);
            }
        }
        lemma_prefix_not_larger(before, n);
        assert(before.take(n) =~= digits.take(n));
        assert(is_digit(digits[digits.len() - 1]));
    }
}

/// Reads an unsigned number out of a text.
pub fn parse_number(text: &str) -> (r: Option<u64>)
    ensures
        r == number_in(text@),
{
    let len = text.unicode_len();
    let first: usize = if len > 0 && text.get_char(0) == '+' {
        1
    } else {
        0
    };
    let ghost digits = without_plus(text@);
    assert(digits =~= text@.skip(first as int));
    if len == first {
        return None;
    }
    let mut value: u64 = 0;
    let mut i: usize = first;
    while i < len
        invariant
            first <= i <= len,
            len == text@.len(),
            first <= 1,
            digits == text@.skip(first as int),
            digits == without_plus(text@),
            digits.len() > 0,
            value == digits_value(digits.take(i - first)),
            all_digits(digits.take(i - first)),
        decreases len - i,
    {
        let c = text.get_char(i);
        let ghost n = i - first;
        assert(digits[n] == c);
        if !('0' <= c && c <= '9') {
            assert(!is_digit(digits[n]));
            return None;
        }
        let digit = (c as u32 - '0' as u32) as u64;
        let ghost longer = digits.take(n + 1);
        assert(longer.drop_last() =~= digits.take(n));
        assert(all_digits(longer)) by {
            assert forall|j: int| 0 <= j < longer.len() implies is_digit(#[trigger] longer[j]) by {
                if j < n {
                    assert(longer[j] == digits.take(n)[j]);
                }
            }
        }
        if value > u64::MAX / 10 || value * 10 > u64::MAX - digit {
            proof {
                if all_digits(digits) {
                    lemma_prefix_not_larger(digits, n + 1);
                }
            }
            return None;
        }
        value = value * 10 + digit;
        i = i + 1;
    }
    assert(digits.take(i - first) =~= digits);
    Some(value)
}

/// The decimal digits of a number.
pub open spec fn decimal(n: nat) -> Seq<char>
    decreases n,
{
    if n < 10 {
        seq![('0' as int + n) as char]
    } else {
        decimal(n / 10).push(('0' as int + n % 10) as char)
    }
}

/// What the decimal digits of a number are read as is that number.
pub proof fn law_decimal_is_read_back(n: nat)
    ensures
        decimal(n).len() > 0,
        all_digits(decimal(n)),
        digits_value(decimal(n)) == n,
    decreases n,
{
    if n < 10 {
        let c = ('0' as int + n) as char;
        assert(decimal(n).drop_last() =~= Seq::<char>::empty());
        assert(decimal(n).last() == c);
        assert(digits_value(Seq::<char>::empty()) == 0);
    } else {
        law_decimal_is_read_back(n / 10);
        let before = decimal(n / 10);
        let c = ('0' as int + n % 10) as char;
        assert(decimal(n).drop_last() =~= before);
        assert forall|i: int| 0 <= i < decimal(n).len() implies is_digit(
            #[trigger] decimal(n)[i],
        ) by {
            if i < before.len() {
                assert(decimal(n)[i] == before[i]);
            }
        }
    }
}

fn digit_text(digit: u64) -> (r: &'static str)
    requires
        digit < 10,
    ensures
        r@ == seq![('0' as int + digit) as char],
{
    proof {
        reveal_strlit("0");
        reveal_strlit("1");
        reveal_strlit("2");
        reveal_strlit("3");
        reveal_strlit("4");
        reveal_strlit("5");
        reveal_strlit("6");
        reveal_strlit("7");
        reveal_strlit("8");
        reveal_strlit("9");
    }
    let r = if digit == 0 {
        "0"
    } else if digit == 1 {
        "1"
    } else if digit == 2 {
        "2"
    } else if digit == 3 {
        "3"
    } else if digit == 4 {
        "4"
    } else if digit == 5 {
        "5"
    } else if digit == 6 {
        "6"
    } else if digit == 7 {
        "7"
    } else if digit == 8 {
        "8"
    } else {
        "9"
    };
    assert(r@ =~= seq![('0' as int + digit) as char]);
    r
}

/// Writes a number in decimal digits.
pub fn decimal_text(n: u64) -> (r: String)
    ensures
        r@ == decimal(n as nat),
    decreases n,
{
    if n < 10 {
        digit_text(n).to_owned()
    } else {
        let before = decimal_text(n / 10);
        let r = before.concat(digit_text(n % 10));
        assert(r@ =~= decimal(n as nat));
        r
    }
}

/// A number is written with its last digit last: ten times a number, and one digit more, is written
/// as the number is, followed by that digit.
pub proof fn law_digits_come_in_order(n: nat, digit: nat)
    requires
        digit < 10,
    ensures
        decimal(digit) == seq![('0' as int + digit) as char],
        n > 0 ==> decimal(10 * n + digit) == decimal(n).push(('0' as int + digit) as char),
{
}

/// The digits of a number are read as that number, after a plus sign too, as long as 64 bits hold
/// it, and are no number otherwise.
pub proof fn law_number_is_read(n: nat)
    ensures
        n <= u64::MAX ==> number_in(decimal(n)) == Some(n as u64),
        n <= u64::MAX ==> number_in(seq!['+'] + decimal(n)) == Some(n as u64),
        n > u64::MAX ==> number_in(decimal(n)) is None,
        n > u64::MAX ==> number_in(seq!['+'] + decimal(n)) is None,
{
    law_decimal_is_read_back(n);
    let digits = decimal(n);
    assert(is_digit(digits[0]));
    assert(without_plus(digits) == digits);
    let signed = seq!['+'] + digits;
    assert(signed.skip(1) =~= digits);
}

/// A zero in front makes no difference to the number that digits make.
pub proof fn law_leading_zero_counts_nothing(digits: Seq<char>)
    requires
        digits.len() > 0,
        digits[0] != '+',
    ensures
        number_in(seq!['0'] + digits) == number_in(digits),
{
    let longer = seq!['0'] + digits;
    lemma_leading_zero(digits);
    assert(all_digits(longer) == all_digits(digits)) by {
        if all_digits(digits) {
            assert forall|i: int| 0 <= i < longer.len() implies is_digit(#[trigger] longer[i]) by {
                if i > 0 {
                    assert(longer[i] == digits[i - 1]);
                    assert(is_digit(digits[i - 1]));
                }
            }
        }
        if all_digits(longer) {
            assert forall|i: int| 0 <= i < digits.len() implies is_digit(#[trigger] digits[i]) by {
                assert(longer[i + 1] == digits[i]);
                assert(is_digit(longer[i + 1]));
            }
        }
    }
}

proof fn lemma_leading_zero(digits: Seq<char>)
    ensures
        digits_value(seq!['0'] + digits) == digits_value(digits),
    decreases digits.len(),
{
    let longer = seq!['0'] + digits;
    if digits.len() == 0 {
        assert(longer.drop_last() =~= Seq::<char>::empty());
        assert(digits_value(longer.drop_last()) == 0);
    } else {
        lemma_leading_zero(digits.drop_last());
        assert(longer.drop_last() =~= seq!['0'] + digits.drop_last());
        assert(longer.last() == digits.last());
    }
}

/// A text with anything but digits in it, save for a plus sign in front, is no number, and neither
/// is one without digits.
pub proof fn law_other_texts_are_no_number(text: Seq<char>, i: int)
    requires
        text.len() == 0 || text == seq!['+'] || (0 <= i < text.len() && !('0' <= text[i] <= '9') && !(
        i == 0 && text[0] == '+')),
    ensures
        number_in(text) is None,
{
    let digits = without_plus(text);
    if text.len() > 0 && text != seq!['+'] {
        if text[0] == '+' {
            assert(digits[i - 1] == text[i]);
            assert(!is_digit(digits[i - 1]));
        } else {
            assert(!is_digit(digits[i]));
        }
    }
}

} // verus!
