use vstd::prelude::*;

verus! {

/// The ASCII digit for `d`, which is below 10.
pub open spec fn digit_char(d: nat) -> char {
    (48 + d) as char
}

/// The decimal form of `n`, most significant digit first, without leading
/// zeros.
pub open spec fn decimal(n: nat) -> Seq<char>
    decreases n,
{
    if n < 10 {
        seq![digit_char(n)]
    } else {
        decimal(n / 10).push(digit_char(n % 10))
    }
}

/// What FizzBuzz says for `i`.
pub open spec fn fizz_buzz_spec(i: u32) -> Seq<char> {
    if i % 15 == 0 {
        "FizzBuzz"@
    } else if i % 3 == 0 {
        "Fizz"@
    } else if i % 5 == 0 {
        "Buzz"@
    } else {
        decimal(i as nat)
    }
}

/// Relies on `u32::to_string` (its `Display` impl): the decimal digits of
/// `n`, without sign or leading zeros.
#[verifier::external_body]
fn decimal_text(n: u32) -> (r: String)
    ensures
        r@ == decimal(n as nat),
{
    n.to_string()
}

/// "FizzBuzz" for multiples of 15, "Fizz" for other multiples of 3, "Buzz"
/// for other multiples of 5, and the decimal form of `i` otherwise.
pub fn fizz_buzz(i: u32) -> (r: String)
    ensures
        r@ == fizz_buzz_spec(i),
{
    proof {
        reveal_strlit("FizzBuzz");
        reveal_strlit("Fizz");
        reveal_strlit("Buzz");
    }
    if i % 3 == 0 && i % 5 == 0 {
        assert(i % 15 == 0);
        "FizzBuzz".to_owned()
    } else if i % 3 == 0 {
        assert(i % 15 != 0);
        "Fizz".to_owned()
    } else if i % 5 == 0 {
        assert(i % 15 != 0);
        "Buzz".to_owned()
    } else {
        assert(i % 15 != 0);
        decimal_text(i)
    }
}

} // verus!
