//! One decode from input text to envelope, and the exit status it ends in.

use vstd::prelude::*;

use crate::crafting::accepts;
use crate::envelope::{
    account_verdict, decode_crafting_account, describes, dispatched, error_message, program_name, variant_name,
    Envelope, Verdict,
};
use crate::hex::{hex_body, hex_decode, hex_to_bytes, is_hex_text};
use crate::instruction::{decode_sage_instruction, instruction_outcome};
use crate::registry::{first_match, Registry, Variant};

verus! {

/// Exit status of a run that printed an envelope, whatever it holds.
pub const EXIT_OK: i32 = 0;

/// Exit status when the input argument is missing.
pub const EXIT_USAGE: i32 = 2;

/// Exit status when account input is not hex.
pub const EXIT_INVALID_HEX: i32 = 3;

/// What the input text holds.
#[derive(Clone, Copy, Debug, PartialEq, Eq, Structural)]
pub enum Mode {
    /// Hex text of an account's bytes.
    Account,
    /// A JSON description of an instruction.
    Instruction,
}

/// Why no envelope was produced.
#[derive(Clone, Copy, Debug, PartialEq, Eq, Structural)]
pub enum InputError {
    /// Account input that is not an even number of hex digits.
    InvalidHex,
}

/// Decodes one input. Account text is read as hex, then decoded against the
/// registry, and where it matches nothing the run reports that no program
/// matched; bad hex is the only failure. Instruction text goes to the
/// instruction reader as it is.
pub fn decode_input(registry: &Registry, text: &str, mode: Mode) -> (r: Result<Envelope, InputError>)
    ensures
        mode == Mode::Account ==> match r {
            Ok(e) => is_hex_text(hex_body(text@)) && dispatched(
                e,
                account_verdict(registry@, hex_decode(hex_body(text@))),
            ),
            Err(err) => err == InputError::InvalidHex && !is_hex_text(hex_body(text@)),
        },
        mode == Mode::Instruction ==> match r {
            Ok(e) => instruction_outcome(text@, e),
            Err(_) => false,
        },
{
    match mode {
        Mode::Account => match hex_to_bytes(text) {
            Some(bytes) => match decode_crafting_account(registry, bytes.as_slice()) {
                Envelope::NoMatch => Ok(Envelope::NoMatchAll),
                e => Ok(e),
            },
            None => Err(InputError::InvalidHex),
        },
        Mode::Instruction => Ok(decode_sage_instruction(text)),
    }
}

/// The exit status that a run ends in.
pub fn exit_code(r: &Result<Envelope, InputError>) -> (c: i32)
    ensures
        r is Ok ==> c == EXIT_OK,
        r is Err ==> c == EXIT_INVALID_HEX,
{
    match r {
        Ok(_) => EXIT_OK,
        Err(InputError::InvalidHex) => EXIT_INVALID_HEX,
    }
}

/// Bytes shorter than a discriminator match no variant, whatever is registered.
pub proof fn lemma_short_input_no_match(entries: Seq<Variant>, data: Seq<u8>)
    requires
        data.len() < 8,
    ensures
        account_verdict(entries, data) == Verdict::NoMatch,
{
}

/// Decoding the same bytes against the same registry twice ends the same
/// way: two envelopes that `decode_crafting_account` may return for them
/// carry the same program, variant and error.
pub proof fn lemma_decode_deterministic(
    entries: Seq<Variant>,
    data: Seq<u8>,
    first: Envelope,
    second: Envelope,
)
    requires
        describes(first, account_verdict(entries, data)),
        describes(second, account_verdict(entries, data)),
    ensures
        program_name(first) == program_name(second),
        variant_name(first) == variant_name(second),
        error_message(first) == error_message(second),
{
}

/// A registered discriminator followed by bytes that its variant cannot
/// decode is a malformed payload of that variant, not a failure to match.
pub proof fn lemma_malformed_payload_named(entries: Seq<Variant>, data: Seq<u8>)
    requires
        data.len() >= 8,
        first_match(entries, data.subrange(0, 8)) is Some,
        !accepts(first_match(entries, data.subrange(0, 8))->0, data),
    ensures
        account_verdict(entries, data) == Verdict::Malformed(
            first_match(entries, data.subrange(0, 8))->0,
        ),
{
}

} // verus!
