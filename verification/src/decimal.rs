//! Decimal notation for natural numbers.
//!
//! A number is written with the digits `0` to `9`, most significant first,
//! without leading zeros. Numbers too large for a machine word are held as a
//! vector of digits, least significant first.

use vstd::prelude::*;

verus! {

/// The character that stands for the digit `d`.
pub open spec fn digit_char(d: nat) -> char {
    if d == 0 {
        '0'
    } else if d == 1 {
        '1'
    } else if d == 2 {
        '2'
    } else if d == 3 {
        '3'
    } else if d == 4 {
        '4'
    } else if d == 5 {
        '5'
    } else if d == 6 {
        '6'
    } else if d == 7 {
        '7'
    } else if d == 8 {
        '8'
    } else {
        '9'
    }
}

/// The decimal notation of `n`.
pub open spec fn decimal_text(n: nat) -> Seq<char>
    decreases n,
{
    if n < 10 {
        seq![digit_char(n)]
    } else {
        decimal_text(n / 10).push(digit_char(n % 10))
    }
}

/// The number whose lowest digits are `low`, least significant first, and
/// whose remaining digits make up `high`.
pub open spec fn digits_over(low: Seq<u8>, high: nat) -> nat
    decreases low.len(),
{
    if low.len() == 0 {
        high
    } else {
        low[0] as nat + 10 * digits_over(low.drop_first(), high)
    }
}

/// The number that `digits` denote, least significant digit first.
pub open spec fn digits_value(digits: Seq<u8>) -> nat {
    digits_over(digits, 0)
}

/// The characters of `digits`, most significant digit first.
pub open spec fn digits_text(digits: Seq<u8>) -> Seq<char>
    decreases digits.len(),
{
    if digits.len() == 0 {
        Seq::empty()
    } else {
        digits_text(digits.drop_first()).push(digit_char(digits[0] as nat))
    }
}

/// Every element is a decimal digit, there is at least one, and the most
/// significant one is zero only where it stands alone.
pub open spec fn canonical_digits(digits: Seq<u8>) -> bool {
    &&& digits.len() >= 1
    &&& forall|i: int| 0 <= i < digits.len() ==> digits[i] < 10
    &&& (digits.len() > 1 ==> digits.last() != 0)
}

/// Appending a digit above `low` moves it out of `high`.
pub proof fn lemma_digits_over_push(low: Seq<u8>, digit: u8, high: nat)
    ensures
        digits_over(low.push(digit), high) == digits_over(low, digit as nat + 10 * high),
    decreases low.len(),
{
    if low.len() == 0 {
        assert(low.push(digit).drop_first() =~= Seq::<u8>::empty());
        assert(digits_over(Seq::<u8>::empty(), high) == high);
    } else {
        assert(low.push(digit).drop_first() =~= low.drop_first().push(digit));
        lemma_digits_over_push(low.drop_first(), digit, high);
    }
}

/// A number written with a non-zero leading digit is not zero.
pub proof fn lemma_leading_digit_counts(digits: Seq<u8>)
    requires
        digits.len() >= 1,
        digits.last() != 0,
    ensures
        digits_value(digits) >= 1,
    decreases digits.len(),
{
    if digits.len() == 1 {
        assert(digits.drop_first().len() == 0);
    } else {
        let rest = digits.drop_first();
        assert(rest.last() == digits.last());
        lemma_leading_digit_counts(rest);
    }
}

/// Canonical digits spell the decimal notation of their value.
pub proof fn lemma_canonical_digits_text(digits: Seq<u8>)
    requires
        canonical_digits(digits),
    ensures
        decimal_text(digits_value(digits)) == digits_text(digits),
    decreases digits.len(),
{
    let rest = digits.drop_first();
    if digits.len() == 1 {
        assert(rest.len() == 0);
        assert(digits_value(digits) == digits[0] as nat);
        assert(digits_text(rest) =~= Seq::<char>::empty());
        assert(digits_text(digits) =~= seq![digit_char(digits[0] as nat)]);
    } else {
        assert(rest.last() == digits.last());
        assert(canonical_digits(rest));
        lemma_leading_digit_counts(rest);
        lemma_canonical_digits_text(rest);
        let n = digits_value(digits);
        assert(n == digits[0] as nat + 10 * digits_value(rest));
        assert(n / 10 == digits_value(rest));
        assert(n % 10 == digits[0] as nat);
    }
}

/// The decimal digits of `n`, least significant first.
pub fn digits_of(n: u64) -> (digits: Vec<u8>)
    ensures
        canonical_digits(digits@),
        digits_value(digits@) == n,
{
    let mut digits: Vec<u8> = Vec::new();
    let mut rest: u64 = n;
    loop
        invariant_except_break
            digits_over(digits@, rest as nat) == n,
            forall|i: int| 0 <= i < digits@.len() ==> digits@[i] < 10,
            digits@.len() > 0 ==> rest > 0,
        ensures
            canonical_digits(digits@),
            digits_value(digits@) == n,
        decreases rest,
    {
        let digit: u8 = (rest % 10) as u8;
        proof {
            lemma_digits_over_push(digits@, digit, (rest / 10) as nat);
        }
        digits.push(digit);
        rest = rest / 10;
        if rest == 0 {
            break;
        }
    }
    digits
}

/// Doubles the number that `digits` denote.
pub fn double_digits(digits: &Vec<u8>) -> (doubled: Vec<u8>)
    requires
        canonical_digits(digits@),
    ensures
        canonical_digits(doubled@),
        digits_value(doubled@) == 2 * digits_value(digits@),
{
    let mut doubled: Vec<u8> = Vec::new();
    let mut carry: u8 = 0;
    let mut i: usize = 0;
    proof {
        assert(digits@.skip(0) =~= digits@);
    }
    while i < digits.len()
        invariant
            i <= digits@.len(),
            doubled@.len() == i,
            carry <= 1,
            canonical_digits(digits@),
            forall|j: int| 0 <= j < doubled@.len() ==> doubled@[j] < 10,
            digits_over(doubled@, carry as nat + 2 * digits_value(digits@.skip(i as int)))
                == 2 * digits_value(digits@),
            i > 0 && carry == 0 && digits@[i - 1] != 0 ==> doubled@[i - 1] != 0,
        decreases digits@.len() - i,
    {
        let sum: u8 = 2 * digits[i] + carry;
        let digit: u8 = sum % 10;
        proof {
            let tail = digits@.skip(i as int);
            assert(tail.drop_first() =~= digits@.skip(i + 1));
            assert(tail[0] == digits@[i as int]);
            assert(digits_value(tail) == digits@[i as int] as nat + 10 * digits_value(
                digits@.skip(i + 1),
            ));
            lemma_digits_over_push(
                doubled@,
                digit,
                (sum / 10) as nat + 2 * digits_value(digits@.skip(i + 1)),
            );
        }
        doubled.push(digit);
        carry = sum / 10;
        i = i + 1;
    }
    proof {
        assert(digits@.skip(i as int) =~= Seq::<u8>::empty());
    }
    if carry > 0 {
        proof {
            lemma_digits_over_push(doubled@, carry, 0);
        }
        doubled.push(carry);
    }
    doubled
}

/// The one-character text of the digit `d`.
pub fn digit_str(d: u8) -> (text: &'static str)
    requires
        d < 10,
    ensures
        text@ == seq![digit_char(d as nat)],
{
    proof {
        reveal_strlit("0");
        reveal_strlit("1");
        reveal_strlit("2");
        reveal_strlit("3");
        reveal_strlit("4");
        reveal_strlit("5");
        reveal_strlit("6");
        reveal_strlit("7");
        reveal_strlit("8");
        reveal_strlit("9");
    }
    let text = if d == 0 {
        "0"
    } else if d == 1 {
        "1"
    } else if d == 2 {
        "2"
    } else if d == 3 {
        "3"
    } else if d == 4 {
        "4"
    } else if d == 5 {
        "5"
    } else if d == 6 {
        "6"
    } else if d == 7 {
        "7"
    } else if d == 8 {
        "8"
    } else {
        "9"
    };
    assert(text@ =~= seq![digit_char(d as nat)]);
    text
}

/// Appends the digits to `text`, most significant first.
pub fn append_digits(text: &mut String, digits: &Vec<u8>)
    requires
        forall|i: int| 0 <= i < digits@.len() ==> digits@[i] < 10,
    ensures
        final(text)@ == old(text)@ + digits_text(digits@),
{
    let ghost before = text@;
    let mut i: usize = digits.len();
    proof {
        assert(digits@.skip(i as int) =~= Seq::<u8>::empty());
        assert(before + digits_text(Seq::<u8>::empty()) =~= before);
    }
    while i > 0
        invariant
            i <= digits@.len(),
            forall|j: int| 0 <= j < digits@.len() ==> digits@[j] < 10,
            text@ == before + digits_text(digits@.skip(i as int)),
        decreases i,
    {
        i = i - 1;
        text.append(digit_str(digits[i]));
        proof {
            let tail = digits@.skip(i as int);
            assert(tail.drop_first() =~= digits@.skip(i + 1));
            assert(text@ =~= before + digits_text(tail));
        }
    }
    proof {
        assert(digits@.skip(0) =~= digits@);
    }
}

/// Appends the decimal notation of `n` to `text`.
pub fn append_decimal(text: &mut String, n: u64)
    ensures
        final(text)@ == old(text)@ + decimal_text(n as nat),
{
    let digits = digits_of(n);
    proof {
        lemma_canonical_digits_text(digits@);
    }
    append_digits(text, &digits);
}

} // verus!
