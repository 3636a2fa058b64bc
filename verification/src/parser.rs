//! The rules. Each takes the input as a byte slice and returns
//! `Ok((remainder, consumed))`, two pieces of the input that follow one
//! another, or `Err` with the input as it was and the reason. No rule keeps
//! state between calls.

use vstd::prelude::*;
use crate::grammar::{
    is_digit, is_letter, is_nonwhite, is_special, parsed, ErrorKind, Failure, Rule, BACKSLASH,
    BACKTICK, CARET, CR, HYPHEN, LEFT_BRACE, LEFT_BRACKET, LF, NUL, RIGHT_BRACE, RIGHT_BRACKET,
    SPACE,
};
use crate::laws::lemma_space_splits_run_from_tail;
use crate::substrate::{crlf_prefix, is_alpha, is_dec_digit, take_while1_space};

verus! {

/// Whether `b` is the space byte: the test that a run of spaces is taken by.
pub(crate) fn is_space_byte(b: u8) -> (r: bool)
    ensures
        r == (b == SPACE),
{
    b == SPACE
}

/// `<SPACE> ::= ' ' { ' ' }`
///
/// Takes the longest run of spaces at the front of `input`. Where `input` is
/// empty or begins with another byte, the rule fails with `GreedyRunEmpty`.
pub fn space<'a>(input: &'a [u8]) -> (r: Result<(&'a [u8], &'a [u8]), Failure<'a>>)
    ensures
        parsed(r) == Rule::Space.outcome(input@),
        r is Ok <==> input@.len() > 0 && input@[0] == SPACE,
        r matches Ok((rest, run)) ==> {
            &&& run@.len() >= 1
            &&& run@ + rest@ == input@
            &&& forall|i: int| 0 <= i < run@.len() ==> run@[i] == SPACE
            &&& rest@.len() > 0 ==> rest@[0] != SPACE
        },
        r matches Err(f) ==> f.kind == ErrorKind::GreedyRunEmpty && f.rejected_input@ == input@,
{
    match take_while1_space(input) {
        Some((rest, run)) => {
            proof {
                lemma_space_splits_run_from_tail(run@, rest@);
            }
            Ok((rest, run))
        },
        None => Err(Failure { rejected_input: input, kind: ErrorKind::GreedyRunEmpty }),
    }
}

/// `<crlf> ::= CR LF`
///
/// Takes a carriage return followed by a line feed from the front of
/// `input`. Where `input` does not begin with these two bytes in this order,
/// the rule fails with `LiteralSequenceMismatch`.
pub fn crlf<'a>(input: &'a [u8]) -> (r: Result<(&'a [u8], &'a [u8]), Failure<'a>>)
    ensures
        parsed(r) == Rule::Crlf.outcome(input@),
        r is Ok <==> input@.len() >= 2 && input@[0] == CR && input@[1] == LF,
        r matches Ok((rest, eol)) ==> eol@ == input@.take(2) && rest@ == input@.skip(2),
        r matches Err(f) ==> f.kind == ErrorKind::LiteralSequenceMismatch && f.rejected_input@
            == input@,
{
    match crlf_prefix(input) {
        Some((rest, eol)) => Ok((rest, eol)),
        None => Err(Failure { rejected_input: input, kind: ErrorKind::LiteralSequenceMismatch }),
    }
}

/// Takes one byte, whatever it is. On the empty input the rule fails with
/// `SingleCharacterMismatch`.
pub fn one_char<'a>(input: &'a [u8]) -> (r: Result<(&'a [u8], &'a [u8]), Failure<'a>>)
    ensures
        parsed(r) == Rule::OneChar.outcome(input@),
        r is Ok <==> input@.len() > 0,
        r matches Ok((rest, one)) ==> one@ == input@.take(1) && rest@ == input@.skip(1),
        r matches Err(f) ==> f.kind == ErrorKind::SingleCharacterMismatch && f.rejected_input@
            == input@,
{
    if input.is_empty() {
        return Err(Failure { rejected_input: input, kind: ErrorKind::SingleCharacterMismatch });
    }
    Ok((&input[1..input.len()], &input[0..1]))
}

/// `<letter> ::= 'a' ... 'z' | 'A' ... 'Z'`
///
/// Takes one ASCII letter. Where `input` is empty or begins with another
/// byte, the rule fails with `SingleCharacterMismatch`.
pub fn letter<'a>(input: &'a [u8]) -> (r: Result<(&'a [u8], &'a [u8]), Failure<'a>>)
    ensures
        parsed(r) == Rule::Letter.outcome(input@),
        r is Ok <==> input@.len() > 0 && is_letter(input@[0]),
        r matches Ok((rest, one)) ==> one@ == input@.take(1) && rest@ == input@.skip(1),
        r matches Err(f) ==> f.kind == ErrorKind::SingleCharacterMismatch && f.rejected_input@
            == input@,
{
    if input.is_empty() || !is_alpha(input[0]) {
        return Err(Failure { rejected_input: input, kind: ErrorKind::SingleCharacterMismatch });
    }
    Ok((&input[1..input.len()], &input[0..1]))
}

/// `<number> ::= '0' ... '9'`
///
/// Takes one ASCII decimal digit. Where `input` is empty or begins with
/// another byte, the rule fails with `SingleCharacterMismatch`.
pub fn number<'a>(input: &'a [u8]) -> (r: Result<(&'a [u8], &'a [u8]), Failure<'a>>)
    ensures
        parsed(r) == Rule::Number.outcome(input@),
        r is Ok <==> input@.len() > 0 && is_digit(input@[0]),
        r matches Ok((rest, one)) ==> one@ == input@.take(1) && rest@ == input@.skip(1),
        r matches Err(f) ==> f.kind == ErrorKind::SingleCharacterMismatch && f.rejected_input@
            == input@,
{
    if input.is_empty() || !is_dec_digit(input[0]) {
        return Err(Failure { rejected_input: input, kind: ErrorKind::SingleCharacterMismatch });
    }
    Ok((&input[1..input.len()], &input[0..1]))
}

/// `<special> ::= '-' | '[' | ']' | '\' | '`' | '^' | '{' | '}'`
///
/// Takes one of these eight bytes. Where `input` is empty or begins with
/// another byte, the rule fails with `SingleCharacterMismatch`.
pub fn special<'a>(input: &'a [u8]) -> (r: Result<(&'a [u8], &'a [u8]), Failure<'a>>)
    ensures
        parsed(r) == Rule::Special.outcome(input@),
        r is Ok <==> input@.len() > 0 && is_special(input@[0]),
        r matches Ok((rest, one)) ==> one@ == input@.take(1) && rest@ == input@.skip(1),
        r matches Err(f) ==> f.kind == ErrorKind::SingleCharacterMismatch && f.rejected_input@
            == input@,
{
    if input.is_empty() || !(input[0] == HYPHEN || input[0] == LEFT_BRACKET || input[0]
        == RIGHT_BRACKET || input[0] == BACKSLASH || input[0] == BACKTICK || input[0] == CARET
        || input[0] == LEFT_BRACE || input[0] == RIGHT_BRACE) {
        return Err(Failure { rejected_input: input, kind: ErrorKind::SingleCharacterMismatch });
    }
    Ok((&input[1..input.len()], &input[0..1]))
}

/// `<nonwhite> ::= <any byte except SPACE, NUL, CR and LF>`
///
/// Takes one byte that is none of these four. Where `input` is empty or
/// begins with one of them, the rule fails with `SingleCharacterMismatch`.
pub fn nonwhite<'a>(input: &'a [u8]) -> (r: Result<(&'a [u8], &'a [u8]), Failure<'a>>)
    ensures
        parsed(r) == Rule::Nonwhite.outcome(input@),
        r is Ok <==> input@.len() > 0 && is_nonwhite(input@[0]),
        r matches Ok((rest, one)) ==> one@ == input@.take(1) && rest@ == input@.skip(1),
        r matches Err(f) ==> f.kind == ErrorKind::SingleCharacterMismatch && f.rejected_input@
            == input@,
{
    if input.is_empty() || input[0] == SPACE || input[0] == NUL || input[0] == CR || input[0]
        == LF {
        return Err(Failure { rejected_input: input, kind: ErrorKind::SingleCharacterMismatch });
    }
    Ok((&input[1..input.len()], &input[0..1]))
}

} // verus!
