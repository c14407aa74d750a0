//! Instructions, which arrive as JSON descriptions that name their program.

use vstd::prelude::*;

use crate::envelope::Envelope;

verus! {

/// Whether serde_json reads the text as a `Value`: one JSON document, nested
/// no deeper than its recursion limit.
pub uninterp spec fn json_parses(text: Seq<char>) -> bool;

/// The text of the string member `key` of the JSON object that `text` holds;
/// `None` where there is no such member, or it is not a string.
pub uninterp spec fn json_text_member(text: Seq<char>, key: Seq<char>) -> Option<Seq<char>>;

/// Relies on serde_json::from_str into a `Value`, then `Value::get` and
/// `Value::as_str` on the result: it parses exactly when `json_parses`, and
/// the member's text depends on the text and the key alone.
#[verifier::external_body]
fn parse_with_member(text: &str, key: &str) -> (r: Option<(serde_json::Value, Option<String>)>)
    ensures
        r.is_some() == json_parses(text@),
        r matches Some((_, m)) ==> match m {
            Some(s) => json_text_member(text@, key@) == Some(s@),
            None => json_text_member(text@, key@) is None,
        },
{
    let v = serde_json::from_str::<serde_json::Value>(text).ok()?;
    let m = v.get(key).and_then(|m| m.as_str()).map(|s| s.to_string());
    Some((v, m))
}

/// The envelope for a parsed instruction description: with the program
/// identifier that it names, the description is carried whole; without
/// one, the input is rejected.
pub fn sage_instruction_envelope(value: serde_json::Value, program_id: Option<String>) -> (r:
    Envelope)
    ensures
        match program_id {
            Some(id) => r == (Envelope::Instruction { program_id: id, value }),
            None => r is InvalidInstruction,
        },
{
    match program_id {
        Some(id) => Envelope::Instruction { program_id: id, value },
        None => Envelope::InvalidInstruction,
    }
}

/// How reading an instruction description ends: a JSON text whose string
/// member `programId` is `id` is an instruction of that program; any other
/// text is rejected.
pub open spec fn instruction_outcome(text: Seq<char>, e: Envelope) -> bool {
    if json_parses(text) {
        match json_text_member(text, "programId"@) {
            Some(id) => e matches Envelope::Instruction { program_id, .. } && program_id@ == id,
            None => e is InvalidInstruction,
        }
    } else {
        e is InvalidInstruction
    }
}

/// Reads an instruction description: JSON with a string member `programId`.
/// The description is identified, not deserialized further.
pub fn decode_sage_instruction(text: &str) -> (r: Envelope)
    ensures
        instruction_outcome(text@, r),
{
    match parse_with_member(text, "programId") {
        Some((value, program_id)) => sage_instruction_envelope(value, program_id),
        None => Envelope::InvalidInstruction,
    }
}

} // verus!
