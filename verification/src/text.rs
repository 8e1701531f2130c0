//! Decimal numbers as text, zero-padded to a minimum width.

use vstd::prelude::*;
use vstd::string::*;

verus! {

/// The character that writes the decimal digit `digit`.
pub open spec fn digit_char(digit: int) -> char {
    if digit == 0 {
        '0'
    } else if digit == 1 {
        '1'
    } else if digit == 2 {
        '2'
    } else if digit == 3 {
        '3'
    } else if digit == 4 {
        '4'
    } else if digit == 5 {
        '5'
    } else if digit == 6 {
        '6'
    } else if digit == 7 {
        '7'
    } else if digit == 8 {
        '8'
    } else {
        '9'
    }
}

/// The decimal digits of `n`, most significant first, without leading zeros
/// (a single `0` for zero).
pub open spec fn decimal(n: nat) -> Seq<char>
    decreases n,
{
    if n < 10 {
        seq![digit_char(n as int)]
    } else {
        decimal(n / 10).push(digit_char((n % 10) as int))
    }
}

/// `count` copies of the character `0`.
pub open spec fn zeros(count: nat) -> Seq<char> {
    Seq::new(count, |i: int| '0')
}

/// The decimal digits of `n`, with zeros put in front until there are at
/// least `width` characters. A number with more digits than `width` is
/// written in full.
pub open spec fn zero_padded(n: nat, width: nat) -> Seq<char> {
    if decimal(n).len() >= width {
        decimal(n)
    } else {
        zeros((width - decimal(n).len()) as nat) + decimal(n)
    }
}

/// The digit that the character `c` writes.
pub open spec fn digit_value(c: char) -> int {
    c as int - '0' as int
}

/// The number that a text of decimal digits writes, leading zeros allowed.
pub open spec fn decimal_value(text: Seq<char>) -> int
    decreases text.len(),
{
    if text.len() == 0 {
        0
    } else {
        decimal_value(text.drop_last()) * 10 + digit_value(text.last())
    }
}

/// The digits of a number write that number.
pub proof fn lemma_decimal_value(n: nat)
    ensures
        decimal_value(decimal(n)) == n,
        forall|i: int|
            0 <= i < decimal(n).len() ==> 0 <= #[trigger] digit_value(decimal(n)[i]) < 10,
        n > 0 ==> decimal(n)[0] != '0',
    decreases n,
{
    if n < 10 {
        assert(decimal(n).drop_last() =~= Seq::<char>::empty());
        assert(decimal_value(Seq::<char>::empty()) == 0);
    } else {
        lemma_decimal_value(n / 10);
        assert(decimal(n).drop_last() =~= decimal(n / 10));
    }
}

/// Zeros in front do not change the number written.
pub proof fn lemma_zero_padded_value(n: nat, width: nat)
    ensures
        decimal_value(zero_padded(n, width)) == n,
{
    lemma_decimal_value(n);
    if decimal(n).len() < width {
        lemma_zeros_in_front(((width - decimal(n).len()) as nat), decimal(n));
    }
}

/// A text of digits with `count` zeros in front writes the same number.
proof fn lemma_zeros_in_front(count: nat, digits: Seq<char>)
    ensures
        decimal_value(zeros(count) + digits) == decimal_value(digits),
    decreases digits.len(),
{
    if digits.len() == 0 {
        assert(zeros(count) + digits =~= zeros(count));
        lemma_zeros_value(count);
    } else {
        lemma_zeros_in_front(count, digits.drop_last());
        assert((zeros(count) + digits).drop_last() =~= zeros(count) + digits.drop_last());
    }
}

/// A text of zeros writes zero.
proof fn lemma_zeros_value(count: nat)
    ensures
        decimal_value(zeros(count)) == 0,
    decreases count,
{
    if count > 0 {
        lemma_zeros_value((count - 1) as nat);
        assert(zeros(count).drop_last() =~= zeros((count - 1) as nat));
    }
}

/// How many digits a number has: one to four digits below ten thousand, at
/// most six below a million, at most twenty for a 64-bit number.
pub proof fn lemma_decimal_len(n: nat)
    ensures
        decimal(n).len() >= 1,
        n < 10 ==> decimal(n).len() == 1,
        10 <= n < 100 ==> decimal(n).len() == 2,
        100 <= n < 1000 ==> decimal(n).len() == 3,
        1000 <= n < 10000 ==> decimal(n).len() == 4,
        n < 1_000_000 ==> decimal(n).len() <= 6,
        n <= u64::MAX ==> decimal(n).len() <= 20,
{
    reveal_with_fuel(decimal, 21);
}

/// Padding fills up to the width and never cuts: the text has `width`
/// characters, or as many as the number has digits where those are more.
pub proof fn lemma_zero_padded_len(n: nat, width: nat)
    ensures
        zero_padded(n, width).len() == if decimal(n).len() >= width {
            decimal(n).len()
        } else {
            width
        },
{
}

/// Appends the digit `digit`.
fn push_digit(text: &mut String, digit: u64)
    requires
        digit < 10,
    ensures
        final(text)@ == old(text)@.push(digit_char(digit as int)),
{
    proof {
        reveal_strlit("0");
        reveal_strlit("1");
        reveal_strlit("2");
        reveal_strlit("3");
        reveal_strlit("4");
        reveal_strlit("5");
        reveal_strlit("6");
        reveal_strlit("7");
        reveal_strlit("8");
        reveal_strlit("9");
    }
    let written: &str = if digit == 0 {
        "0"
    } else if digit == 1 {
        "1"
    } else if digit == 2 {
        "2"
    } else if digit == 3 {
        "3"
    } else if digit == 4 {
        "4"
    } else if digit == 5 {
        "5"
    } else if digit == 6 {
        "6"
    } else if digit == 7 {
        "7"
    } else if digit == 8 {
        "8"
    } else {
        "9"
    };
    assert(written@ =~= seq![digit_char(digit as int)]);
    text.append(written);
    assert(text@ =~= old(text)@.push(digit_char(digit as int)));
}

/// Appends the decimal digits of `n`.
pub(crate) fn push_decimal(text: &mut String, n: u64)
    ensures
        final(text)@ == old(text)@ + decimal(n as nat),
    decreases n,
{
    if n >= 10 {
        push_decimal(text, n / 10);
    }
    push_digit(text, n % 10);
    assert(text@ =~= old(text)@ + decimal(n as nat));
}

/// Number of decimal digits of `n`.
fn decimal_len(n: u64) -> (len: usize)
    ensures
        len == decimal(n as nat).len(),
        1 <= len <= 20,
    decreases n,
{
    proof {
        lemma_decimal_len(n as nat);
    }
    if n >= 10 {
        decimal_len(n / 10) + 1
    } else {
        1
    }
}

/// Appends `n` in decimal, zero-padded to at least `width` characters.
pub(crate) fn push_zero_padded(text: &mut String, n: u64, width: usize)
    ensures
        final(text)@ == old(text)@ + zero_padded(n as nat, width as nat),
{
    let len: usize = decimal_len(n);
    let mut written: usize = len;
    while written < width
        invariant
            len <= written,
            len == decimal(n as nat).len(),
            written <= width || written == len,
            text@ == old(text)@ + zeros((written - len) as nat),
        decreases width - written,
    {
        proof {
            reveal_strlit("0");
        }
        text.append("0");
        written += 1;
        assert(text@ =~= old(text)@ + zeros((written - len) as nat));
    }
    push_decimal(text, n);
    assert(text@ =~= old(text)@ + zero_padded(n as nat, width as nat));
}

} // verus!
