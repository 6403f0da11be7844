//! Decimals written out in digits.

use crate::math::common::wad;
use crate::math::decimal::Decimal;
use crate::math::u192::U192;
use vstd::prelude::*;
use vstd::string::StringExecFns;

verus! {

/// The character of a digit.
pub open spec fn digit_char(digit: nat) -> char {
    if digit == 0 {
        '0'
    } else if digit == 1 {
        '1'
    } else if digit == 2 {
        '2'
    } else if digit == 3 {
        '3'
    } else if digit == 4 {
        '4'
    } else if digit == 5 {
        '5'
    } else if digit == 6 {
        '6'
    } else if digit == 7 {
        '7'
    } else if digit == 8 {
        '8'
    } else {
        '9'
    }
}

/// The decimal digits of a number, without leading zeros.
pub open spec fn digits(n: nat) -> Seq<char>
    decreases n,
{
    if n < 10 {
        seq![digit_char(n)]
    } else {
        digits(n / 10).push(digit_char(n % 10))
    }
}

/// The last `places` decimal digits of a number, with leading zeros.
pub open spec fn fixed_digits(n: nat, places: nat) -> Seq<char>
    decreases places,
{
    if places == 0 {
        Seq::empty()
    } else {
        fixed_digits(n / 10, (places - 1) as nat).push(digit_char(n % 10))
    }
}

/// The characters of digits that are held with the lowest first, the highest first.
pub open spec fn highest_first(lowest_first: Seq<u8>) -> Seq<char> {
    Seq::new(
        lowest_first.len(),
        |i: int| digit_char(lowest_first[lowest_first.len() - 1 - i] as nat),
    )
}

proof fn lemma_one_more_digit(lowest_first: Seq<u8>, digit: u8)
    ensures
        highest_first(lowest_first.push(digit)) == seq![digit_char(digit as nat)] + highest_first(
            lowest_first,
        ),
{
    assert(highest_first(lowest_first.push(digit)) =~= seq![digit_char(digit as nat)]
        + highest_first(lowest_first));
}

fn digit_str(digit: u8) -> (r: &'static str)
    requires
        digit < 10,
    ensures
        r@ == seq![digit_char(digit as nat)],
{
    proof {
        reveal_strlit("0");
        reveal_strlit("1");
        reveal_strlit("2");
        reveal_strlit("3");
        reveal_strlit("4");
        reveal_strlit("5");
        reveal_strlit("6");
        reveal_strlit("7");
        reveal_strlit("8");
        reveal_strlit("9");
    }
    let r = if digit == 0 {
        "0"
    } else if digit == 1 {
        "1"
    } else if digit == 2 {
        "2"
    } else if digit == 3 {
        "3"
    } else if digit == 4 {
        "4"
    } else if digit == 5 {
        "5"
    } else if digit == 6 {
        "6"
    } else if digit == 7 {
        "7"
    } else if digit == 8 {
        "8"
    } else {
        "9"
    };
    assert(r@ =~= seq![digit_char(digit as nat)]);
    r
}

/// The digits of a number without leading zeros, the lowest first.
fn digits_of(n: U192) -> (r: Vec<u8>)
    ensures
        highest_first(r@) == digits(n@),
        forall|i: int| 0 <= i < r.len() ==> r[i] < 10,
{
    let ten = U192::from_u64(10);
    let mut lowest_first: Vec<u8> = Vec::new();
    let mut rest = n;
    assert(highest_first(lowest_first@) =~= Seq::<char>::empty());
    loop
        invariant
            ten@ == 10,
            digits(n@) == digits(rest@) + highest_first(lowest_first@),
            forall|i: int| 0 <= i < lowest_first.len() ==> lowest_first[i] < 10,
        decreases rest@,
    {
        let (quotient, remainder) = rest.div_rem(ten);
        let digit: u8 = remainder.low as u8;
        proof {
            lemma_one_more_digit(lowest_first@, digit);
            if rest@ >= 10 {
                assert(digits(rest@) == digits(quotient@).push(digit_char(digit as nat)));
                assert(digits(quotient@).push(digit_char(digit as nat)) + highest_first(
                    lowest_first@,
                ) =~= digits(quotient@) + (seq![digit_char(digit as nat)] + highest_first(
                    lowest_first@,
                )));
            } else {
                assert(digits(rest@) + highest_first(lowest_first@) =~= seq![
                    digit_char(digit as nat),
                ] + highest_first(lowest_first@));
            }
        }
        lowest_first.push(digit);
        if quotient.is_zero() {
            return lowest_first;
        }
        rest = quotient;
    }
}

/// The last 18 digits of a number, with leading zeros, the lowest first.
fn fixed_digits_of(n: u64) -> (r: Vec<u8>)
    ensures
        r.len() == 18,
        highest_first(r@) == fixed_digits(n as nat, 18),
        forall|i: int| 0 <= i < r.len() ==> r[i] < 10,
{
    let mut lowest_first: Vec<u8> = Vec::new();
    let mut rest: u64 = n;
    let mut i: usize = 0;
    assert(fixed_digits(rest as nat, 18) + highest_first(lowest_first@) =~= fixed_digits(
        n as nat,
        18,
    ));
    while i < 18
        invariant
            i <= 18,
            lowest_first.len() == i,
            fixed_digits(n as nat, 18) == fixed_digits(rest as nat, (18 - i) as nat)
                + highest_first(lowest_first@),
            forall|k: int| 0 <= k < lowest_first.len() ==> lowest_first[k] < 10,
        decreases 18 - i,
    {
        let digit: u8 = (rest % 10) as u8;
        proof {
            lemma_one_more_digit(lowest_first@, digit);
            let fewer = fixed_digits((rest / 10) as nat, (17 - i) as nat);
            assert(fixed_digits(rest as nat, (18 - i) as nat) == fewer.push(
                digit_char(digit as nat),
            ));
            assert(fewer.push(digit_char(digit as nat)) + highest_first(lowest_first@) =~= fewer
                + (seq![digit_char(digit as nat)] + highest_first(lowest_first@)));
        }
        lowest_first.push(digit);
        rest = rest / 10;
        i = i + 1;
    }
    assert(fixed_digits(rest as nat, 0) + highest_first(lowest_first@) =~= highest_first(
        lowest_first@,
    ));
    lowest_first
}

/// Appends digits that are held with the lowest first, the highest first.
fn append_digits(text: &mut String, lowest_first: &Vec<u8>)
    requires
        forall|i: int| 0 <= i < lowest_first.len() ==> lowest_first[i] < 10,
    ensures
        final(text)@ == old(text)@ + highest_first(lowest_first@),
{
    let mut left: usize = lowest_first.len();
    let ghost all = highest_first(lowest_first@);
    assert(text@ + all.subrange(0, 0) =~= text@);
    while left > 0
        invariant
            left <= lowest_first.len(),
            all == highest_first(lowest_first@),
            forall|i: int| 0 <= i < lowest_first.len() ==> lowest_first[i] < 10,
            text@ == old(text)@ + all.subrange(0, lowest_first.len() - left),
        decreases left,
    {
        left = left - 1;
        let ghost before = text@;
        text.append(digit_str(lowest_first[left]));
        proof {
            let done = lowest_first.len() - left;
            assert(all.subrange(0, done) =~= all.subrange(0, done - 1).push(all[done - 1]));
            assert(all[done - 1] == digit_char(lowest_first[left as int] as nat));
            assert(before + seq![all[done - 1]] =~= old(text)@ + all.subrange(0, done));
        }
    }
    assert(all.subrange(0, lowest_first.len() as int) =~= all);
}

impl Decimal {
    /// The decimal written out: the whole part without leading zeros, a
    /// point, and all 18 decimal places.
    pub open spec fn spec_to_string(self) -> Seq<char> {
        digits(self@ / wad()) + seq!['.'] + fixed_digits(self@ % wad(), 18)
    }

    /// The decimal written out in digits, as `1.500000000000000000` for one and a half.
    pub fn to_string(&self) -> (r: String)
        ensures
            r@ == self.spec_to_string(),
    {
        let (whole, fraction) = self.0.div_rem(Decimal::wad());
        let places: u64 = fraction.try_to_u64().unwrap();
        let high = digits_of(whole);
        let low = fixed_digits_of(places);
        let mut text = String::new();
        append_digits(&mut text, &high);
        proof {
            reveal_strlit(".");
            assert("."@ =~= seq!['.']);
        }
        text.append(".");
        append_digits(&mut text, &low);
        assert(text@ =~= self.spec_to_string());
        text
    }
}

} // verus!
