use irc_lex::grammar::{ErrorKind, Failure};
use irc_lex::parser::{crlf, letter, nonwhite, number, one_char, space, special};

fn rejected(input: &[u8], kind: ErrorKind) -> Result<(&[u8], &[u8]), Failure<'_>> {
    Err(Failure { rejected_input: input, kind })
}

#[test]
fn space_empty() {
    let empty: &[u8] = b"";
    assert_eq!(space(empty), rejected(empty, ErrorKind::GreedyRunEmpty));
}

#[test]
fn space_characters() {
    let a: &[u8] = b"abcd";
    assert_eq!(space(a), rejected(a, ErrorKind::GreedyRunEmpty));
}

#[test]
fn space_spaces() {
    let s: &[u8] = b"    ";
    assert_eq!(space(s), Ok((&b""[..], s)));
}

#[test]
fn space_spaces_and_chars() {
    let s: &[u8] = b"    abcd";
    assert_eq!(space(s), Ok((&b"abcd"[..], &b"    "[..])));
}

#[test]
fn crlf_empty() {
    let empty: &[u8] = b"";
    assert_eq!(crlf(empty), rejected(empty, ErrorKind::LiteralSequenceMismatch));
}

#[test]
fn crlf_alone() {
    let c: &[u8] = b"\r\n";
    assert_eq!(crlf(c), Ok((&b""[..], c)));
}

#[test]
fn crlf_with_chars() {
    let c: &[u8] = b"\r\nabcd";
    assert_eq!(crlf(c), Ok((&b"abcd"[..], &b"\r\n"[..])));
}

#[test]
fn one_char_empty() {
    let empty: &[u8] = b"";
    assert_eq!(one_char(empty), rejected(empty, ErrorKind::SingleCharacterMismatch));
}

#[test]
fn one_char_alone() {
    let a: &[u8] = b"a";
    assert_eq!(one_char(a), Ok((&b""[..], a)));
}

#[test]
fn one_char_with_chars() {
    let a: &[u8] = b"ab1-";
    assert_eq!(one_char(a), Ok((&b"b1-"[..], &b"a"[..])));
}

#[test]
fn letter_empty() {
    let empty: &[u8] = b"";
    assert_eq!(letter(empty), rejected(empty, ErrorKind::SingleCharacterMismatch));
}

#[test]
fn letter_alone() {
    let a: &[u8] = b"a";
    assert_eq!(letter(a), Ok((&b""[..], a)));
}

#[test]
fn letter_with_num() {
    let a: &[u8] = b"ab1-";
    assert_eq!(letter(a), Ok((&b"b1-"[..], &b"a"[..])));
    let a: &[u8] = b"1";
    assert_eq!(letter(a), rejected(a, ErrorKind::SingleCharacterMismatch));
}

#[test]
fn number_empty() {
    let empty: &[u8] = b"";
    assert_eq!(number(empty), rejected(empty, ErrorKind::SingleCharacterMismatch));
}

#[test]
fn number_alone() {
    let a: &[u8] = b"1";
    assert_eq!(number(a), Ok((&b""[..], a)));
}

#[test]
fn number_with_char() {
    let a: &[u8] = b"12a-";
    assert_eq!(number(a), Ok((&b"2a-"[..], &b"1"[..])));
    let a: &[u8] = b"a";
    assert_eq!(number(a), rejected(a, ErrorKind::SingleCharacterMismatch));
}

#[test]
fn special_empty() {
    let empty: &[u8] = b"";
    assert_eq!(special(empty), rejected(empty, ErrorKind::SingleCharacterMismatch));
}

#[test]
fn special_alone() {
    let a: &[u8] = b"-";
    assert_eq!(special(a), Ok((&b""[..], a)));
}

#[test]
fn special_with_char() {
    let a: &[u8] = b"[2a-";
    assert_eq!(special(a), Ok((&b"2a-"[..], &b"["[..])));
    let a: &[u8] = b"a";
    assert_eq!(special(a), rejected(a, ErrorKind::SingleCharacterMismatch));
}

#[test]
fn nonwhite_empty() {
    let empty: &[u8] = b"";
    assert_eq!(nonwhite(empty), rejected(empty, ErrorKind::SingleCharacterMismatch));
}

#[test]
fn nonwhite_alone() {
    let a: &[u8] = b"a";
    assert_eq!(nonwhite(a), Ok((&b""[..], a)));
}

#[test]
fn nonwhite_with_char() {
    let a: &[u8] = b"\t2a-";
    assert_eq!(nonwhite(a), Ok((&b"2a-"[..], &b"\t"[..])));
    let a: &[u8] = b" ";
    assert_eq!(nonwhite(a), rejected(a, ErrorKind::SingleCharacterMismatch));
}
