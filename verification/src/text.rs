//! Decimal numerals and right-aligned columns.

use vstd::prelude::*;
use vstd::string::*;

verus! {

/// The character for the decimal digit `d`.
pub open spec fn digit_char(d: nat) -> char {
    if d == 0 {
        '0'
    } else if d == 1 {
        '1'
    } else if d == 2 {
        '2'
    } else if d == 3 {
        '3'
    } else if d == 4 {
        '4'
    } else if d == 5 {
        '5'
    } else if d == 6 {
        '6'
    } else if d == 7 {
        '7'
    } else if d == 8 {
        '8'
    } else {
        '9'
    }
}

/// The number of digits in the decimal numeral of `n`; 0 has one digit.
pub open spec fn decimal_digits(n: nat) -> nat
    decreases n,
{
    if n < 10 {
        1
    } else {
        1 + decimal_digits(n / 10)
    }
}

/// The decimal numeral of `n`, most significant digit first, without
/// leading zeros.
pub open spec fn decimal_text(n: nat) -> Seq<char>
    decreases n,
{
    if n < 10 {
        seq![digit_char(n)]
    } else {
        decimal_text(n / 10).push(digit_char(n % 10))
    }
}

/// `count` spaces.
pub open spec fn spaces(count: nat) -> Seq<char> {
    Seq::new(count, |i: int| ' ')
}

/// `text` moved to the right edge of a column of `width` characters: spaces
/// are put in front of it until it is `width` long. A text that is already
/// as long stays as it is.
pub open spec fn right_aligned(text: Seq<char>, width: nat) -> Seq<char> {
    if text.len() < width {
        spaces((width - text.len()) as nat) + text
    } else {
        text
    }
}

/// A numeral has as many characters as the number has digits.
pub proof fn lemma_decimal_text_len(n: nat)
    ensures
        decimal_text(n).len() == decimal_digits(n),
    decreases n,
{
    if n >= 10 {
        lemma_decimal_text_len(n / 10);
    }
}

/// A number has no more digits than any number that is not smaller.
pub proof fn lemma_decimal_digits_monotonic(a: nat, b: nat)
    requires
        a <= b,
    ensures
        decimal_digits(a) <= decimal_digits(b),
    decreases b,
{
    if a >= 10 {
        lemma_decimal_digits_monotonic(a / 10, b / 10);
    }
}

/// A right-aligned text fills the column exactly when it fits, and keeps
/// its own length when it does not.
pub proof fn lemma_right_aligned_len(text: Seq<char>, width: nat)
    ensures
        right_aligned(text, width).len() == if text.len() < width {
            width
        } else {
            text.len()
        },
{
}

fn digit_str(d: u64) -> (digit: &'static str)
    requires
        d < 10,
    ensures
        digit@ == seq![digit_char(d as nat)],
{
    proof {
        reveal_strlit("0");
        reveal_strlit("1");
        reveal_strlit("2");
        reveal_strlit("3");
        reveal_strlit("4");
        reveal_strlit("5");
        reveal_strlit("6");
        reveal_strlit("7");
        reveal_strlit("8");
        reveal_strlit("9");
    }
    if d == 0 {
        "0"
    } else if d == 1 {
        "1"
    } else if d == 2 {
        "2"
    } else if d == 3 {
        "3"
    } else if d == 4 {
        "4"
    } else if d == 5 {
        "5"
    } else if d == 6 {
        "6"
    } else if d == 7 {
        "7"
    } else if d == 8 {
        "8"
    } else {
        "9"
    }
}

/// Ten to the power `e`.
pub open spec fn pow10(e: nat) -> nat
    decreases e,
{
    if e == 0 {
        1
    } else {
        10 * pow10((e - 1) as nat)
    }
}

/// A number below ten to the power `k` has at most `k` digits.
pub proof fn lemma_decimal_digits_bound(n: nat, k: nat)
    requires
        1 <= k,
        n < pow10(k),
    ensures
        decimal_digits(n) <= k,
    decreases k,
{
    if n >= 10 {
        if k == 1 {
            reveal_with_fuel(pow10, 2);
        } else {
            lemma_decimal_digits_bound(n / 10, (k - 1) as nat);
        }
    }
}

/// The number of digits in the decimal numeral of `n`.
pub fn count_digits(n: u64) -> (digits: usize)
    ensures
        digits == decimal_digits(n as nat),
        1 <= digits <= 20,
{
    proof {
        assert(pow10(20) == 100_000_000_000_000_000_000) by {
            reveal_with_fuel(pow10, 21);
        }
        lemma_decimal_digits_bound(n as nat, 20);
    }
    let mut digits: usize = 1;
    let mut rest: u64 = n;
    while rest >= 10
        invariant
            1 <= digits,
            decimal_digits(n as nat) <= 20,
            decimal_digits(n as nat) == digits - 1 + decimal_digits(rest as nat),
        decreases rest,
    {
        rest = rest / 10;
        digits += 1;
    }
    digits
}

/// The decimal numeral of `n`.
pub fn decimal_string(n: u64) -> (numeral: String)
    ensures
        numeral@ == decimal_text(n as nat),
    decreases n,
{
    if n < 10 {
        String::from_str(digit_str(n))
    } else {
        let mut numeral = decimal_string(n / 10);
        numeral.append(digit_str(n % 10));
        numeral
    }
}

/// `text` behind as many spaces as it takes to make it `width` characters
/// long.
pub fn right_align(text: &str, width: usize) -> (column: String)
    ensures
        column@ == right_aligned(text@, width as nat),
{
    let len = text.unicode_len();
    let mut column = String::new();
    if len < width {
        let missing = width - len;
        let mut put: usize = 0;
        while put < missing
            invariant
                put <= missing,
                column@ == spaces(put as nat),
            decreases missing - put,
        {
            proof {
                reveal_strlit(" ");
            }
            column.append(" ");
            put += 1;
        }
    }
    column.append(text);
    column
}

} // verus!
