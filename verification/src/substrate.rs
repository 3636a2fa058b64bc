//! The calls into `nom`. Each stands behind a contract that the verifier
//! takes on trust; the rules are proved from these contracts. Where `nom`
//! returns an error, the call comes back as `None` and the rule builds its
//! own rejection from the input it was given.

use vstd::prelude::*;
use crate::grammar::{is_digit, is_letter, CR, LF, SPACE};
use crate::parser::is_space_byte;

verus! {

/// `nom::bytes::complete::take_while1`, applied with the test for a space
/// byte. Trusted: the call succeeds exactly when the input begins with a
/// space, and then splits the input after its longest run of leading spaces,
/// handing back the rest first and the run second.
#[verifier::external_body]
pub(crate) fn take_while1_space<'a>(input: &'a [u8]) -> (r: Option<(&'a [u8], &'a [u8])>)
    ensures
        r.is_some() == (input@.len() > 0 && input@[0] == SPACE),
        r matches Some((rest, run)) ==> {
            &&& run@.len() >= 1
            &&& run@ + rest@ == input@
            &&& forall|i: int| 0 <= i < run@.len() ==> run@[i] == SPACE
            &&& rest@.len() > 0 ==> rest@[0] != SPACE
        },
{
    nom::bytes::complete::take_while1::<_, _, (&[u8], nom::error::ErrorKind)>(is_space_byte)(
        input,
    ).ok()
}

/// `nom::character::complete::crlf`. Trusted: the call succeeds exactly when
/// the input begins with carriage return and line feed, and then splits the
/// input after those two bytes, handing back the rest first and the two
/// bytes second.
#[verifier::external_body]
pub(crate) fn crlf_prefix<'a>(input: &'a [u8]) -> (r: Option<(&'a [u8], &'a [u8])>)
    ensures
        r.is_some() == (input@.len() >= 2 && input@[0] == CR && input@[1] == LF),
        r matches Some((rest, eol)) ==> eol@ == input@.take(2) && rest@ == input@.skip(2),
{
    nom::character::complete::crlf::<_, (&[u8], nom::error::ErrorKind)>(input).ok()
}

/// `nom::AsChar::is_alpha` on a byte. Trusted: it holds exactly of the
/// ASCII letters.
#[verifier::external_body]
pub(crate) fn is_alpha(b: u8) -> (r: bool)
    ensures
        r == is_letter(b),
{
    nom::AsChar::is_alpha(b)
}

/// `nom::AsChar::is_dec_digit` on a byte. Trusted: it holds exactly of the
/// ASCII decimal digits.
#[verifier::external_body]
pub(crate) fn is_dec_digit(b: u8) -> (r: bool)
    ensures
        r == is_digit(b),
{
    nom::AsChar::is_dec_digit(b)
}

} // verus!
