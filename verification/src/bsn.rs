//! The Dutch citizen service number (burgerservicenummer, BSN): nine decimal digits that
//! pass the eleven test.

use vstd::prelude::*;
use vstd::string::StringSliceAdditionalSpecFns;

verus! {

/// Why a text is no BSN.
#[derive(Debug)]
pub enum Error {
    /// The text is not nine digits, or its digits fail the eleven test.
    InvalidBsn,
}

impl Error {
    /// The message of the error, for people.
    pub fn to_string(&self) -> (message: String)
        ensures
            message@ == "Invalid BSN number"@,
    {
        match self {
            Error::InvalidBsn => "Invalid BSN number".to_owned(),
        }
    }
}

/// Whether `c` is one of the characters `0` to `9`.
pub open spec fn is_digit(c: char) -> bool {
    '0' <= c <= '9'
}

/// The number that the digit `c` stands for.
pub open spec fn digit_value(c: char) -> int {
    c as int - '0' as int
}

/// The weight of the digit at `position` in the eleven test: 9 for the first digit down to
/// 2 for the eighth, and -1 for the ninth.
pub open spec fn weight(position: int) -> int {
    if position == 8 {
        -1
    } else {
        9 - position
    }
}

/// The weighted sum of the first `upto` digits of `text`.
pub open spec fn weighted_sum(text: Seq<char>, upto: int) -> int
    decreases upto,
{
    if upto <= 0 {
        0
    } else {
        weighted_sum(text, upto - 1) + weight(upto - 1) * digit_value(text[upto - 1])
    }
}

/// A text is a BSN when it consists of nine digits whose weighted sum is a multiple of 11.
pub open spec fn is_valid_bsn(text: Seq<char>) -> bool {
    &&& text.len() == 9
    &&& forall|i: int| 0 <= i < 9 ==> is_digit(#[trigger] text[i])
    &&& weighted_sum(text, 9) % 11 == 0
}

/// A valid BSN is nine characters of ASCII, so it takes nine bytes.
proof fn lemma_valid_is_nine_ascii_bytes(bsn: &str)
    requires
        is_valid_bsn(bsn@),
    ensures
        bsn.is_ascii(),
        bsn.spec_bytes().len() == 9,
{
    assert forall|i: int| 0 <= i < bsn@.len() implies '\0' <= #[trigger] bsn@[i] <= '\u{7f}' by {
        assert(is_digit(bsn@[i]));
    }
    vstd::utf8::is_ascii_chars_encode_utf8(bsn@);
}

/// A text that has passed validation.
#[derive(Debug, PartialEq, Eq)]
pub struct Bsn {
    inner: String,
}

impl View for Bsn {
    type V = Seq<char>;

    closed spec fn view(&self) -> Seq<char> {
        self.inner@
    }
}

impl Clone for Bsn {
    fn clone(&self) -> (r: Self)
        ensures
            r@ == self@,
    {
        proof {
            use_type_invariant(self);
        }
        Bsn { inner: self.inner.clone() }
    }
}

impl Bsn {
    /// Every `Bsn` holds a valid number: there is no other way to make one.
    #[verifier::type_invariant]
    spec fn inv(&self) -> bool {
        is_valid_bsn(self.inner@)
    }

    /// What making a `Bsn` of `text` has to give: the number with these digits when `text`
    /// is valid, and the error when it is not.
    pub open spec fn is_outcome_for(r: Result<Bsn, Error>, text: Seq<char>) -> bool {
        match r {
            Ok(bsn) => is_valid_bsn(text) && bsn@ == text,
            Err(_) => !is_valid_bsn(text),
        }
    }

    /// Says whether `bsn` is a valid BSN.
    pub fn validate(bsn: &str) -> (r: Result<(), Error>)
        ensures
            r is Ok <==> is_valid_bsn(bsn@),
    {
        let bytes = bsn.as_bytes();
        if bytes.len() != 9 || !bsn.is_ascii() {
            proof {
                if is_valid_bsn(bsn@) {
                    lemma_valid_is_nine_ascii_bytes(bsn);
                }
            }
            return Err(Error::InvalidBsn);
        }
        proof {
            vstd::utf8::is_ascii_chars_encode_utf8(bsn@);
        }
        let mut sum: i32 = 0;
        let mut i: usize = 0;
        while i < 9
            invariant
                i <= 9,
                bsn@.len() == 9,
                bytes@.len() == 9,
                forall|j: int| 0 <= j < 9 ==> bytes@[j] == #[trigger] bsn@[j] as u8,
                forall|j: int| 0 <= j < 9 ==> '\0' <= #[trigger] bsn@[j] <= '\u{7f}',
                forall|j: int| 0 <= j < i ==> is_digit(#[trigger] bsn@[j]),
                sum == weighted_sum(bsn@, i as int),
                -9 <= sum <= 81 * i,
                i <= 8 ==> 0 <= sum,
            decreases 9 - i,
        {
            let byte = bytes[i];
            if byte < 48 || byte > 57 {
                assert(!is_digit(bsn@[i as int]));
                return Err(Error::InvalidBsn);
            }
            assert(is_digit(bsn@[i as int]));
            let digit: i32 = (byte - 48) as i32;
            assert(digit == digit_value(bsn@[i as int]));
            let weighted: i32 = if i == 8 {
                -digit
            } else {
                assert(0 <= (9 - i) * digit <= 81) by (nonlinear_arith)
                    requires
                        0 <= i < 8,
                        0 <= digit <= 9,
                ;
                (9 - i as i32) * digit
            };
            sum = sum + weighted;
            i += 1;
        }
        if sum % 11 == 0 {
            Ok(())
        } else {
            Err(Error::InvalidBsn)
        }
    }

    /// Makes a `Bsn` of `text` if it is valid.
    pub fn from_text(text: String) -> (r: Result<Bsn, Error>)
        ensures
            Self::is_outcome_for(r, text@),
    {
        match Self::validate(text.as_str()) {
            Ok(()) => Ok(Bsn { inner: text }),
            Err(e) => Err(e),
        }
    }

    /// Makes a `Bsn` of the text that `bsn` displays as, if that text is valid.
    ///
    /// What a value displays as is up to its type, so the contract speaks of the text `s`
    /// that `to_string` returned for `bsn`: the result is what `from_text` gives for it.
    pub fn try_from_string<B: core::fmt::Display>(bsn: B) -> (r: Result<Bsn, Error>)
        ensures
            exists|s: String| #[trigger]
                vstd::string::to_string_from_display_ensures::<B>(&bsn, s) && Self::is_outcome_for(
                    r,
                    s@,
                ),
    {
        let bsn_str = bsn.to_string();
        Self::from_text(bsn_str)
    }

    /// The nine digits.
    pub fn as_str(&self) -> (s: &str)
        ensures
            s@ == self@,
            is_valid_bsn(s@),
    {
        proof {
            use_type_invariant(self);
        }
        self.inner.as_str()
    }
}

} // verus!
