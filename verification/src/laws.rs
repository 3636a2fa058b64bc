//! What holds of the rules, proved over the model in `grammar`. Each rule in
//! `parser` returns the outcome that the model gives for its input, so what
//! is proved here of `Rule::outcome` holds of every value a rule returns.

use vstd::prelude::*;
use crate::grammar::{space_run, ErrorKind, Outcome, Rule, CR, LF, SPACE};

verus! {

/// The run of leading spaces lies within the sequence, holds spaces only,
/// and ends at the end of the sequence or before a byte that is no space.
pub proof fn lemma_space_run_bounds(s: Seq<u8>)
    ensures
        space_run(s) <= s.len(),
        forall|i: int| 0 <= i < space_run(s) ==> s[i] == SPACE,
        space_run(s) < s.len() ==> s[space_run(s) as int] != SPACE,
    decreases s.len(),
{
    if s.len() > 0 && s[0] == SPACE {
        let t = s.skip(1);
        lemma_space_run_bounds(t);
        assert forall|i: int| 0 <= i < space_run(s) implies s[i] == SPACE by {
            if i > 0 {
                assert(s[i] == t[i - 1]);
            }
        }
    }
}

/// A prefix of spaces that ends at the end of the sequence, or before a
/// byte that is no space, is the run of leading spaces: there is one such
/// prefix only.
pub proof fn lemma_space_run_unique(s: Seq<u8>, n: int)
    requires
        0 <= n <= s.len(),
        forall|i: int| 0 <= i < n ==> s[i] == SPACE,
        n < s.len() ==> s[n] != SPACE,
    ensures
        space_run(s) == n,
    decreases s.len(),
{
    if n > 0 {
        lemma_space_run_unique(s.skip(1), n - 1);
    }
}

/// A run of spaces followed by nothing, or by a byte that is no space, is
/// split by `Space` into exactly the run and what follows it.
pub proof fn lemma_space_splits_run_from_tail(run: Seq<u8>, tail: Seq<u8>)
    requires
        run.len() >= 1,
        forall|i: int| 0 <= i < run.len() ==> run[i] == SPACE,
        tail.len() > 0 ==> tail[0] != SPACE,
    ensures
        Rule::Space.outcome(run + tail) == (Outcome::Accepted { consumed: run, remainder: tail }),
{
    let s = run + tail;
    let n = run.len() as int;
    lemma_space_run_unique(s, n);
    assert(s.take(n) =~= run);
    assert(s.skip(n) =~= tail);
}

/// On a sequence of one or more spaces and nothing else, `Space` takes the
/// whole sequence and leaves nothing. With one byte that is no space put
/// after it, `Space` takes the same spaces and leaves that byte.
pub proof fn lemma_space_on_runs(run: Seq<u8>, b: u8)
    requires
        run.len() >= 1,
        forall|i: int| 0 <= i < run.len() ==> run[i] == SPACE,
        b != SPACE,
    ensures
        Rule::Space.outcome(run) == (Outcome::Accepted {
            consumed: run,
            remainder: Seq::<u8>::empty(),
        }),
        Rule::Space.outcome(run.push(b)) == (Outcome::Accepted {
            consumed: run,
            remainder: seq![b],
        }),
{
    lemma_space_splits_run_from_tail(run, Seq::<u8>::empty());
    assert(run + Seq::<u8>::empty() =~= run);
    lemma_space_splits_run_from_tail(run, seq![b]);
    assert(run + seq![b] =~= run.push(b));
}

/// `Space` fails on the empty sequence and on every sequence that begins
/// with another byte, and on no other.
pub proof fn lemma_space_needs_a_leading_space(s: Seq<u8>)
    ensures
        s.len() == 0 || s[0] != SPACE <==> Rule::Space.outcome(s) == (Outcome::Rejected {
            input: s,
            kind: ErrorKind::GreedyRunEmpty,
        }),
{
}

/// `Space` never matches what it has left: the remainder of a match is empty
/// or begins with a byte that is no space.
pub proof fn lemma_space_rejects_its_remainder(s: Seq<u8>)
    ensures
        Rule::Space.outcome(s) matches Outcome::Accepted { remainder, .. } ==> Rule::Space.outcome(
            remainder,
        ) == (Outcome::Rejected { input: remainder, kind: ErrorKind::GreedyRunEmpty }),
{
    lemma_space_run_bounds(s);
}

/// A rule never takes more bytes than there are.
pub proof fn lemma_match_len_bounds(rule: Rule, s: Seq<u8>)
    ensures
        rule.match_len(s) <= s.len(),
{
    lemma_space_run_bounds(s);
}

/// Round trip: whenever a rule matches, the bytes it took followed by the
/// bytes it left are the input, byte for byte.
pub proof fn lemma_round_trip(rule: Rule, s: Seq<u8>)
    ensures
        rule.outcome(s) matches Outcome::Accepted { consumed, remainder } ==> consumed + remainder
            == s,
{
    lemma_match_len_bounds(rule, s);
}

/// A match is never empty, and takes exactly as many bytes as the rule
/// matches: one or more spaces for `Space`, two bytes for `Crlf`, one byte
/// for every other rule.
pub proof fn lemma_match_is_not_empty(rule: Rule, s: Seq<u8>)
    ensures
        rule.outcome(s) matches Outcome::Accepted { consumed, .. } ==> {
            &&& consumed.len() >= 1
            &&& consumed.len() == rule.match_len(s)
            &&& rule == Rule::Crlf ==> consumed.len() == 2
            &&& rule != Rule::Crlf && rule != Rule::Space ==> consumed.len() == 1
        },
{
    lemma_match_len_bounds(rule, s);
}

/// A rejection never advances: it hands back the whole input, with the kind
/// of failure that belongs to the rule. A rule rejects exactly when it
/// matches no byte.
pub proof fn lemma_rejection_returns_input(rule: Rule, s: Seq<u8>)
    ensures
        rule.outcome(s) matches Outcome::Rejected { input, kind } ==> input == s && kind
            == rule.error_kind(),
        rule.outcome(s) is Rejected <==> rule.match_len(s) == 0,
{
}

/// No rule accepts the empty sequence.
pub proof fn lemma_empty_input_is_rejected(rule: Rule)
    ensures
        rule.outcome(Seq::<u8>::empty()) == (Outcome::Rejected {
            input: Seq::<u8>::empty(),
            kind: rule.error_kind(),
        }),
{
}

/// A rule that reads a single byte decides by the first byte alone: it
/// matches exactly when it takes that byte, so two inputs that begin with
/// the same byte are both matched or both rejected.
pub proof fn lemma_first_byte_decides(rule: Rule, s: Seq<u8>, t: Seq<u8>)
    requires
        rule != Rule::Space,
        rule != Rule::Crlf,
        s.len() > 0,
        t.len() > 0,
        s[0] == t[0],
    ensures
        rule.outcome(s) is Accepted <==> rule.admits(s[0]),
        rule.outcome(s) is Accepted <==> rule.outcome(t) is Accepted,
{
}

/// `Crlf` matches exactly the sequences that begin with carriage return and
/// line feed, and takes those two bytes.
pub proof fn lemma_crlf_takes_the_terminator(s: Seq<u8>)
    ensures
        Rule::Crlf.outcome(s) is Accepted <==> s.len() >= 2 && s[0] == CR && s[1] == LF,
        Rule::Crlf.outcome(s) matches Outcome::Accepted { consumed, remainder } ==> consumed
            == seq![CR, LF] && remainder == s.skip(2),
{
    if Rule::Crlf.outcome(s) is Accepted {
        assert(s.take(2) =~= seq![CR, LF]);
    }
}

} // verus!
