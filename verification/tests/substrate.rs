use irc_lex::grammar::{ErrorKind, Failure};
use irc_lex::parser::{crlf, letter, number, space};
use nom::AsChar;

const INPUTS: [&[u8]; 12] = [
    b"",
    b" ",
    b"  ",
    b"    abcd",
    b"abcd",
    b" \t ",
    b"\r\n",
    b"\r\nabcd",
    b"\r",
    b"\n\r",
    b"\r \n",
    b"  \r\n",
];

#[test]
fn space_agrees_with_take_while1() {
    for input in INPUTS {
        let direct: nom::IResult<&[u8], &[u8]> =
            nom::bytes::complete::take_while1(|b| b == b' ')(input);
        let expected = match direct {
            Ok(split) => Ok(split),
            Err(nom::Err::Error((at, nom::error::ErrorKind::TakeWhile1))) => {
                Err(Failure { rejected_input: at, kind: ErrorKind::GreedyRunEmpty })
            }
            Err(other) => panic!("take_while1 gave {:?}", other),
        };
        assert_eq!(space(input), expected);
    }
}

#[test]
fn crlf_agrees_with_the_literal_match() {
    for input in INPUTS {
        let direct: nom::IResult<&[u8], &[u8]> = nom::character::complete::crlf(input);
        let expected = match direct {
            Ok(split) => Ok(split),
            Err(nom::Err::Error((at, nom::error::ErrorKind::CrLf))) => {
                Err(Failure { rejected_input: at, kind: ErrorKind::LiteralSequenceMismatch })
            }
            Err(other) => panic!("crlf gave {:?}", other),
        };
        assert_eq!(crlf(input), expected);
    }
}

#[test]
fn letter_and_number_agree_with_the_byte_tests() {
    for b in 0..=255u8 {
        assert_eq!(letter(&[b]).is_ok(), b.is_alpha());
        assert_eq!(number(&[b]).is_ok(), b.is_dec_digit());
    }
}
