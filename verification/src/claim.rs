//! The claim protocol of the caller-facing tier: how a liveness probe is
//! written and read, and what to do with a candidate once its probe is in.

use crate::ident::{create_id, qualified, slot_of};
use crate::text::{
    decimal, digit_value, format_decimal, lemma_decimal_numeral, lemma_decimal_parses, parse_i64,
    parsed_i64, str_eq,
};
use vstd::prelude::*;

verus! {

/// What a probe yields for a slot on which no wake-up is pending.
pub const NOT_ACTIVE: i64 = -1;

/// The text of a probe's answer: the seconds until the wake-up as a decimal
/// numeral, or `false` where none is pending.
pub open spec fn liveness_text_of(active: Option<u64>) -> Seq<char> {
    match active {
        Some(r) => decimal(r as nat),
        None => "false"@,
    }
}

/// What a probe's answer says: `NOT_ACTIVE` for `false`, else the integer
/// that the text writes; `None` where it writes none.
pub open spec fn probe_result(text: Seq<char>) -> Option<i64> {
    if text == "false"@ {
        Some(NOT_ACTIVE)
    } else {
        parsed_i64(text)
    }
}

/// What the caller-facing tier does next with a candidate.
#[derive(Debug, PartialEq, Eq)]
pub enum Claim {
    /// The candidate is free: store under it.
    Store { file_id: String, fully_qualified_id: String },
    /// The candidate is taken: probe this fresh one.
    Probe { file_id: String, fully_qualified_id: String },
}

/// Writes the answer to a liveness probe.
pub fn liveness_text(active: Option<u64>) -> (text: String)
    ensures
        text@ == liveness_text_of(active),
{
    match active {
        Some(v) => format_decimal(v),
        None => String::from_str("false"),
    }
}

/// Reads the answer to a liveness probe. `None` where the text is neither
/// `false` nor an integer of 64 bits.
pub fn check_active(text: &str) -> (result: Option<i64>)
    ensures
        result == probe_result(text@),
{
    if str_eq(text, "false") {
        Some(NOT_ACTIVE)
    } else {
        parse_i64(text)
    }
}

/// Whether a probe's result leaves the slot free to claim.
pub fn is_claimable(result: i64) -> (free: bool)
    ensures
        free == (result == NOT_ACTIVE),
{
    result == NOT_ACTIVE
}

/// One step of the claim protocol. `candidate` was probed and `result` came
/// back: a free candidate is to be stored under; a taken one is discarded for
/// the candidate that `draw` selects, which is to be probed in turn.
pub fn claim(instance_id: &String, candidate: (String, String), result: i64, draw: u32) -> (next:
    Claim)
    ensures
        result == NOT_ACTIVE ==> next == (Claim::Store {
            file_id: candidate.0,
            fully_qualified_id: candidate.1,
        }),
        result != NOT_ACTIVE ==> (next matches Claim::Probe { file_id, fully_qualified_id }
            && file_id@ == decimal(slot_of(draw)) && fully_qualified_id@ == qualified(
            instance_id@,
            file_id@,
        )),
{
    if is_claimable(result) {
        Claim::Store { file_id: candidate.0, fully_qualified_id: candidate.1 }
    } else {
        let (file_id, fully_qualified_id) = create_id(instance_id, draw);
        Claim::Probe { file_id, fully_qualified_id }
    }
}

/// The answer of a live slot never reads as free, however long its wake-up
/// lies ahead.
pub proof fn lemma_active_never_reads_free(r: u64)
    ensures
        probe_result(liveness_text_of(Some(r))) != Some(NOT_ACTIVE),
        liveness_text_of(Some(r)) != "false"@,
{
    reveal_strlit("false");
    lemma_decimal_parses(r as nat);
    lemma_decimal_numeral(r as nat);
}

/// A probe's answer reads back as it was written: `NOT_ACTIVE` where no
/// wake-up is pending, else the seconds until it, as far as a signed integer
/// of 64 bits holds them.
pub proof fn lemma_probe_roundtrip(active: Option<u64>)
    requires
        active matches Some(r) ==> r <= i64::MAX,
    ensures
        probe_result(liveness_text_of(active)) == Some(
            match active {
                Some(r) => r as i64,
                None => NOT_ACTIVE,
            },
        ),
{
    match active {
        Some(r) => {
            lemma_active_never_reads_free(r);
            lemma_decimal_parses(r as nat);
        },
        None => {},
    }
}

} // verus!
