//! Decimal notation of an unsigned integer, as a timestamp appears in a URL
//! and in the string that is signed.

use vstd::prelude::*;
use vstd::string::StringExecFns;

verus! {

/// The character of one decimal digit.
pub open spec fn digit_text(digit: int) -> Seq<char>
    recommends
        0 <= digit < 10,
{
    if digit == 0 {
        seq!['0']
    } else if digit == 1 {
        seq!['1']
    } else if digit == 2 {
        seq!['2']
    } else if digit == 3 {
        seq!['3']
    } else if digit == 4 {
        seq!['4']
    } else if digit == 5 {
        seq!['5']
    } else if digit == 6 {
        seq!['6']
    } else if digit == 7 {
        seq!['7']
    } else if digit == 8 {
        seq!['8']
    } else {
        seq!['9']
    }
}

/// A number in decimal, most significant digit first, without leading zeros;
/// zero is `0`.
pub open spec fn decimal(number: nat) -> Seq<char>
    decreases number,
{
    if number < 10 {
        digit_text(number as int)
    } else {
        decimal(number / 10) + digit_text((number % 10) as int)
    }
}

/// How many digits [`decimal`] writes.
pub open spec fn digit_count(number: nat) -> nat
    decreases number,
{
    if number < 10 {
        1
    } else {
        1 + digit_count(number / 10)
    }
}

/// [`decimal`] writes [`digit_count`] characters, each of them a digit.
pub proof fn lemma_decimal_digits(number: nat)
    ensures
        decimal(number).len() == digit_count(number),
        forall|i: int| 0 <= i < decimal(number).len() ==> '0' <= #[trigger] decimal(number)[i] <= '9',
    decreases number,
{
    if number >= 10 {
        lemma_decimal_digits(number / 10);
    }
}

/// Two numbers with the same decimal notation are the same number.
pub proof fn lemma_decimal_injective(first: nat, second: nat)
    requires
        decimal(first) == decimal(second),
    ensures
        first == second,
    decreases first,
{
    lemma_decimal_digits(first);
    lemma_decimal_digits(second);
    if first < 10 || second < 10 {
        assert(digit_count(first / 10) >= 1 && digit_count(second / 10) >= 1);
        assert(first < 10 && second < 10);
        assert(decimal(first)[0] == decimal(second)[0]);
    } else {
        let high = decimal(first / 10);
        let other = decimal(second / 10);
        lemma_decimal_digits(first / 10);
        lemma_decimal_digits(second / 10);
        assert(high.len() == other.len());
        assert(high =~= decimal(first).subrange(0, high.len() as int));
        assert(other =~= decimal(second).subrange(0, other.len() as int));
        lemma_decimal_injective(first / 10, second / 10);
        let low = digit_text((first % 10) as int);
        let low_other = digit_text((second % 10) as int);
        assert(low[0] == decimal(first)[high.len() as int]);
        assert(low_other[0] == decimal(second)[other.len() as int]);
        assert(first % 10 == second % 10);
    }
}

fn digit_str(digit: u128) -> (text: &'static str)
    requires
        digit < 10,
    ensures
        text@ == digit_text(digit as int),
{
    proof {
        reveal_strlit("0");
        reveal_strlit("1");
        reveal_strlit("2");
        reveal_strlit("3");
        reveal_strlit("4");
        reveal_strlit("5");
        reveal_strlit("6");
        reveal_strlit("7");
        reveal_strlit("8");
        reveal_strlit("9");
    }
    let text = if digit == 0 {
        "0"
    } else if digit == 1 {
        "1"
    } else if digit == 2 {
        "2"
    } else if digit == 3 {
        "3"
    } else if digit == 4 {
        "4"
    } else if digit == 5 {
        "5"
    } else if digit == 6 {
        "6"
    } else if digit == 7 {
        "7"
    } else if digit == 8 {
        "8"
    } else {
        "9"
    };
    assert(text@ =~= digit_text(digit as int));
    text
}

/// Writes a number in decimal.
pub fn decimal_string(number: u128) -> (text: String)
    ensures
        text@ == decimal(number as nat),
    decreases number,
{
    if number < 10 {
        digit_str(number).to_owned()
    } else {
        decimal_string(number / 10).concat(digit_str(number % 10))
    }
}

} // verus!
