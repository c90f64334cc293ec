use vstd::prelude::*;
use vstd::string::StringSliceAdditionalSpecFns;

verus! {

/// Why a string is not a BSN.
#[derive(Debug, PartialEq, Eq, Structural)]
pub enum Error {
    /// The string is not nine digits whose weighted sum is a multiple of 11.
    InvalidBsn,
}

/// A valid BSN (burgerservicenummer), the Dutch personal identification
/// number: nine digits that pass the eleven test.
#[derive(Debug, PartialEq, Eq)]
pub struct Bsn {
    inner: String,
}

/// Whether the byte `b` is an ASCII decimal digit.
pub open spec fn is_digit(b: u8) -> bool {
    48 <= b <= 57
}

/// The weight of the digit at position `i`: 9, 8, ..., 2 and then -1.
pub open spec fn bsn_weight(i: int) -> int {
    if i == 8 {
        -1
    } else {
        9 - i
    }
}

/// The sum of the first `n` digits of `b`, each times its weight.
pub open spec fn weighted_sum(b: Seq<u8>, n: nat) -> int
    decreases n,
{
    if n == 0 || n > b.len() {
        0
    } else {
        weighted_sum(b, (n - 1) as nat) + (b[n - 1] - 48) * bsn_weight(n - 1)
    }
}

/// Whether `b` is nine ASCII digits whose weighted sum is a multiple of 11.
pub open spec fn bsn_valid(b: Seq<u8>) -> bool {
    &&& b.len() == 9
    &&& forall|i: int| 0 <= i < 9 ==> is_digit(#[trigger] b[i])
    &&& weighted_sum(b, 9) % 11 == 0
}

impl View for Bsn {
    type V = Seq<char>;

    closed spec fn view(&self) -> Seq<char> {
        self.inner@
    }
}

impl Bsn {
    /// A `Bsn` only ever holds a valid BSN.
    #[verifier::type_invariant]
    closed spec fn holds_valid_bsn(&self) -> bool {
        bsn_valid(vstd::utf8::encode_utf8(self.inner@))
    }

    /// Creates a BSN holding `bsn`, or `Error::InvalidBsn` when `bsn` is not
    /// a valid BSN.
    pub fn try_from_string(bsn: &str) -> (r: Result<Self, Error>)
        ensures
            r is Ok <==> bsn_valid(bsn.spec_bytes()),
            r is Ok ==> r->Ok_0@ == bsn@,
            r is Err ==> r == Err::<Self, Error>(Error::InvalidBsn),
    {
        if !Self::check_bsn_str(bsn) {
            return Err(Error::InvalidBsn);
        }
        Ok(Bsn { inner: bsn.to_owned() })
    }

    /// The nine digits as text; they always form a valid BSN.
    pub fn as_str(&self) -> (r: &str)
        ensures
            r@ == self@,
            bsn_valid(r.spec_bytes()),
    {
        proof {
            use_type_invariant(self);
        }
        self.inner.as_str()
    }

    /// `Ok` when `bsn` is a valid BSN, `Error::InvalidBsn` otherwise.
    pub fn validate(bsn: &str) -> (r: Result<(), Error>)
        ensures
            r is Ok <==> bsn_valid(bsn.spec_bytes()),
            r is Err ==> r == Err::<(), Error>(Error::InvalidBsn),
    {
        if !Self::check_bsn_str(bsn) {
            return Err(Error::InvalidBsn);
        }
        Ok(())
    }

    /// Whether `bsn` is nine ASCII digits d1..d9 with
    /// 9*d1 + 8*d2 + ... + 2*d8 - d9 a multiple of 11.
    pub fn check_bsn_str(bsn: &str) -> (r: bool)
        ensures
            r == bsn_valid(bsn.spec_bytes()),
    {
        let bytes = bsn.as_bytes();
        if bytes.len() != 9 {
            return false;
        }
        let mut sum: i64 = 0;
        let mut i: usize = 0;
        while i < 9
            invariant
                bytes@ == bsn.spec_bytes(),
                bytes@.len() == 9,
                i <= 9,
                forall|k: int| 0 <= k < i ==> is_digit(#[trigger] bytes@[k]),
                sum == weighted_sum(bytes@, i as nat),
                i <= 8 ==> 0 <= sum <= 81 * i,
                -9 <= sum <= 648,
            decreases 9 - i,
        {
            let b = bytes[i];
            if b < 48 || b > 57 {
                return false;
            }
            let d: i64 = (b - 48) as i64;
            let w: i64 = if i == 8 {
                -1
            } else {
                9 - i as i64
            };
            assert(w >= 0 ==> 0 <= d * w <= 81) by (nonlinear_arith)
                requires
                    0 <= d <= 9,
                    -1 <= w <= 9,
            ;
            sum = sum + d * w;
            i = i + 1;
        }
        let shifted: i64 = sum + 11;
        assert(shifted % 11 == sum % 11) by (nonlinear_arith)
            requires
                shifted == sum + 11,
        ;
        shifted % 11 == 0
    }
}

impl Clone for Bsn {
    /// The same nine digits.
    fn clone(&self) -> (r: Self)
        ensures
            r@ == self@,
    {
        proof {
            use_type_invariant(self);
        }
        Bsn { inner: self.inner.clone() }
    }
}

} // verus!
