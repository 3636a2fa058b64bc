//! The mathematical model of the rules: the byte classes, the number of
//! bytes each rule matches at the front of a byte sequence, and the outcome
//! that follows from it.

use vstd::prelude::*;

verus! {

/// The space byte, the only member of a greedy run.
pub const SPACE: u8 = 0x20;

/// The NUL byte.
pub const NUL: u8 = 0x00;

/// Carriage return, the first byte of a line terminator.
pub const CR: u8 = 0x0D;

/// Line feed, the second byte of a line terminator.
pub const LF: u8 = 0x0A;

/// `-`
pub const HYPHEN: u8 = 0x2D;

/// `[`
pub const LEFT_BRACKET: u8 = 0x5B;

/// `\`
pub const BACKSLASH: u8 = 0x5C;

/// `]`
pub const RIGHT_BRACKET: u8 = 0x5D;

/// `^`
pub const CARET: u8 = 0x5E;

/// `` ` ``
pub const BACKTICK: u8 = 0x60;

/// `{`
pub const LEFT_BRACE: u8 = 0x7B;

/// `}`
pub const RIGHT_BRACE: u8 = 0x7D;

/// Why a rule turned its input down.
#[derive(Debug, Clone, Copy, PartialEq, Eq, Structural)]
pub enum ErrorKind {
    /// The next byte is not in the rule's class, or there is no next byte.
    SingleCharacterMismatch,
    /// A greedy run matched zero bytes.
    GreedyRunEmpty,
    /// A fixed byte sequence is not at the front of the input.
    LiteralSequenceMismatch,
}

/// A rejection: the input exactly as the rule received it, and the reason.
#[derive(Debug, Clone, Copy, PartialEq, Eq)]
pub struct Failure<'a> {
    /// The whole input of the rule, not advanced by a single byte.
    pub rejected_input: &'a [u8],
    /// The reason, which depends on the rule alone.
    pub kind: ErrorKind,
}

/// ASCII letters, `A`..=`Z` and `a`..=`z`.
pub open spec fn is_letter(b: u8) -> bool {
    (0x41 <= b <= 0x5A) || (0x61 <= b <= 0x7A)
}

/// ASCII decimal digits, `0`..=`9`.
pub open spec fn is_digit(b: u8) -> bool {
    0x30 <= b <= 0x39
}

/// The eight punctuation bytes `-` `[` `]` `\` `` ` `` `^` `{` `}`.
pub open spec fn is_special(b: u8) -> bool {
    b == HYPHEN || b == LEFT_BRACKET || b == RIGHT_BRACKET || b == BACKSLASH || b == BACKTICK
        || b == CARET || b == LEFT_BRACE || b == RIGHT_BRACE
}

/// Every byte but space, NUL, carriage return and line feed.
pub open spec fn is_nonwhite(b: u8) -> bool {
    b != SPACE && b != NUL && b != CR && b != LF
}

/// The number of space bytes at the front of `s`.
pub open spec fn space_run(s: Seq<u8>) -> nat
    decreases s.len(),
{
    if s.len() > 0 && s[0] == SPACE {
        1 + space_run(s.skip(1))
    } else {
        0
    }
}

/// What an application of a rule comes to, over byte sequences.
pub enum Outcome {
    /// The rule matched: `consumed` is the prefix it took, `remainder` the
    /// rest.
    Accepted { consumed: Seq<u8>, remainder: Seq<u8> },
    /// The rule did not match `input`.
    Rejected { input: Seq<u8>, kind: ErrorKind },
}

/// The outcome that a returned value stands for. A match is returned with
/// the remainder first and the consumed bytes second.
pub open spec fn parsed<'a>(r: Result<(&'a [u8], &'a [u8]), Failure<'a>>) -> Outcome {
    match r {
        Ok((remainder, consumed)) => Outcome::Accepted {
            consumed: consumed@,
            remainder: remainder@,
        },
        Err(f) => Outcome::Rejected { input: f.rejected_input@, kind: f.kind },
    }
}

/// The rules of this layer.
pub enum Rule {
    /// One space and then as many more as follow.
    Space,
    /// Carriage return, then line feed.
    Crlf,
    /// Any one byte.
    OneChar,
    /// One ASCII letter.
    Letter,
    /// One ASCII decimal digit.
    Number,
    /// One of the eight special bytes.
    Special,
    /// One byte that is not space, NUL, carriage return or line feed.
    Nonwhite,
}

impl Rule {
    /// The kind of failure that the rule reports.
    pub open spec fn error_kind(self) -> ErrorKind {
        match self {
            Rule::Space => ErrorKind::GreedyRunEmpty,
            Rule::Crlf => ErrorKind::LiteralSequenceMismatch,
            _ => ErrorKind::SingleCharacterMismatch,
        }
    }

    /// Whether the rule is one of the five that read a single byte and takes
    /// `b`. It holds of no byte for `Space` and `Crlf`, which are no such
    /// rules.
    pub open spec fn admits(self, b: u8) -> bool {
        match self {
            Rule::OneChar => true,
            Rule::Letter => is_letter(b),
            Rule::Number => is_digit(b),
            Rule::Special => is_special(b),
            Rule::Nonwhite => is_nonwhite(b),
            Rule::Space | Rule::Crlf => false,
        }
    }

    /// How many bytes the rule takes from the front of `s`; zero when it
    /// does not match.
    pub open spec fn match_len(self, s: Seq<u8>) -> nat {
        match self {
            Rule::Space => space_run(s),
            Rule::Crlf => if s.len() >= 2 && s[0] == CR && s[1] == LF {
                2
            } else {
                0
            },
            _ => if s.len() >= 1 && self.admits(s[0]) {
                1
            } else {
                0
            },
        }
    }

    /// What the rule makes of `s`: a split after the matched bytes, or `s`
    /// handed back with the rule's kind of failure.
    pub open spec fn outcome(self, s: Seq<u8>) -> Outcome {
        let n = self.match_len(s);
        if n > 0 {
            Outcome::Accepted { consumed: s.take(n as int), remainder: s.skip(n as int) }
        } else {
            Outcome::Rejected { input: s, kind: self.error_kind() }
        }
    }
}

} // verus!
