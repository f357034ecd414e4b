//! Numbers in decimal.
use vstd::arithmetic::div_mod::lemma_div_denominator;
use vstd::arithmetic::power::{lemma_pow1, lemma_pow_positive, pow};
use vstd::prelude::*;
use vstd::string::*;

verus! {

/// The digit `d`, for `d` below ten.
pub open spec fn digit(d: nat) -> char {
    ('0' as u32 + d) as char
}

/// `n` in decimal, without leading zeros.
pub open spec fn decimal(n: nat) -> Seq<char>
    decreases n,
{
    if n < 10 {
        seq![digit(n)]
    } else {
        decimal(n / 10).push(digit(n % 10))
    }
}

/// The number that a row of decimal digits stands for.
pub open spec fn number(digits: Seq<char>) -> nat
    decreases digits.len(),
{
    if digits.len() == 0 {
        0
    } else {
        (10 * number(digits.drop_last()) + (digits.last() as u32 - '0' as u32)) as nat
    }
}

/// Reading back what was written gives the number again.
pub proof fn lemma_decimal_reads_back(n: nat)
    ensures
        number(decimal(n)) == n,
    decreases n,
{
    if n < 10 {
        assert(seq![digit(n)].drop_last() =~= Seq::<char>::empty());
        assert(number(Seq::<char>::empty()) == 0);
    } else {
        lemma_decimal_reads_back(n / 10);
        assert(decimal(n).drop_last() =~= decimal(n / 10));
    }
}

/// The digit `d` as text.
fn digit_text(d: u32) -> (text: &'static str)
    requires
        d < 10,
    ensures
        text@ == seq![digit(d as nat)],
{
    proof {
        reveal_strlit("0");
        reveal_strlit("1");
        reveal_strlit("2");
        reveal_strlit("3");
        reveal_strlit("4");
        reveal_strlit("5");
        reveal_strlit("6");
        reveal_strlit("7");
        reveal_strlit("8");
        reveal_strlit("9");
    }
    match d {
        0 => "0",
        1 => "1",
        2 => "2",
        3 => "3",
        4 => "4",
        5 => "5",
        6 => "6",
        7 => "7",
        8 => "8",
        _ => "9",
    }
}

/// Writes `n` in decimal.
pub fn to_decimal(n: u32) -> (text: String)
    ensures
        text@ == decimal(n as nat),
    decreases n,
{
    if n < 10 {
        digit_text(n).to_owned()
    } else {
        to_decimal(n / 10).concat(digit_text(n % 10))
    }
}

/// The name of a number is its decimal digits, each at its place, as many as it has
/// and no more: digit `k` counts the power of ten that stands there.
pub proof fn law_decimal_has_each_digit_at_its_place(n: nat, k: int)
    requires
        0 <= k < decimal(n).len(),
    ensures
        decimal(n)[k] as u32 - 48 == (n as int / pow(10, (decimal(n).len() - 1 - k) as nat)) % 10,
        n < pow(10, decimal(n).len()),
        n > 0 ==> pow(10, (decimal(n).len() - 1) as nat) <= n,
        n == 0 ==> decimal(n).len() == 1,
    decreases n,
{
    reveal(pow);
    let len = decimal(n).len();
    lemma_pow_positive(10, (len - 1) as nat);
    if n < 10 {
        assert(pow(10, 0) == 1);
        assert(pow(10, 1) == 10) by {
            lemma_pow1(10);
        }
    } else {
        let tens = n / 10;
        assert(decimal(tens).len() == len - 1);
        assert(decimal(tens).len() > 0);
        assert(pow(10, len) == 10 * pow(10, (len - 1) as nat));
        assert(pow(10, (len - 1) as nat) == 10 * pow(10, (len - 2) as nat));
        if k < len - 1 {
            law_decimal_has_each_digit_at_its_place(tens, k);
            let place = (len - 2 - k) as nat;
            lemma_pow_positive(10, place);
            assert(pow(10, (place + 1) as nat) == 10 * pow(10, place));
            lemma_div_denominator(n as int, 10, pow(10, place));
            assert(decimal(n)[k] == decimal(tens)[k]);
        } else {
            law_decimal_has_each_digit_at_its_place(tens, 0);
            assert(pow(10, 0) == 1);
        }
    }
}

} // verus!
