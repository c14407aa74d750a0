//! The uniform record that every decode ends in, and account decoding into it.

use vstd::prelude::*;

use crate::crafting::{
    accepts, decode_as, kind_name, kind_of, malformed_message, min_payload_len, tagged_as,
    CraftingAccount, CraftingKind,
};
use crate::discriminator::extract_discriminator;
use crate::registry::{first_match, Registry, Variant};

verus! {

#[verifier::external_type_specification]
#[verifier::external_body]
pub struct ExValue(serde_json::Value);

/// What a decode found.
#[derive(Debug)]
pub enum Envelope {
    /// An account of the Crafting program, decoded.
    Account(CraftingAccount),
    /// The discriminator names a Crafting variant, but the bytes that follow
    /// do not hold one.
    MalformedPayload(CraftingKind),
    /// No variant registered for the Crafting program recognises the bytes.
    NoMatch,
    /// No program that was tried recognises the bytes.
    NoMatchAll,
    /// An instruction description that names its program, carried as it came.
    Instruction { program_id: String, value: serde_json::Value },
    /// Instruction text that is not JSON, or names no program.
    InvalidInstruction,
}

/// How an account decode ends, by variant.
#[derive(Clone, Copy, Debug, PartialEq, Eq, Structural)]
pub enum Verdict {
    Decoded(CraftingKind),
    Malformed(CraftingKind),
    NoMatch,
}

/// How decoding `data` against the registry `entries` ends: too short or an
/// unknown discriminator is no match; a known one is decoded or malformed as
/// the bytes allow.
pub open spec fn account_verdict(entries: Seq<Variant>, data: Seq<u8>) -> Verdict {
    if data.len() < 8 {
        Verdict::NoMatch
    } else {
        match first_match(entries, data.subrange(0, 8)) {
            None => Verdict::NoMatch,
            Some(k) => if accepts(k, data) {
                Verdict::Decoded(k)
            } else {
                Verdict::Malformed(k)
            },
        }
    }
}

/// Whether the envelope `e` is the one that the verdict `v` calls for.
pub open spec fn describes(e: Envelope, v: Verdict) -> bool {
    match v {
        Verdict::Decoded(k) => e matches Envelope::Account(a) && kind_of(a) == k,
        Verdict::Malformed(k) => e == Envelope::MalformedPayload(k),
        Verdict::NoMatch => e is NoMatch,
    }
}

/// Decodes an account's bytes against a program's registry: reads the
/// discriminator, looks it up, and deserializes the account of that variant.
pub fn decode_crafting_account(registry: &Registry, data: &[u8]) -> (r: Envelope)
    ensures
        describes(r, account_verdict(registry@, data@)),
        data@.len() >= 8 ==> match first_match(registry@, data@.subrange(0, 8)) {
            Some(k) => data@.len() < 8 + min_payload_len(k) ==> r == Envelope::MalformedPayload(k),
            None => true,
        },
{
    let d = match extract_discriminator(data) {
        Some(d) => d,
        None => return Envelope::NoMatch,
    };
    let kind = match registry.lookup(&d) {
        Some(k) => k,
        None => return Envelope::NoMatch,
    };
    match decode_as(kind, data) {
        Some(a) => Envelope::Account(a),
        None => Envelope::MalformedPayload(kind),
    }
}

/// How a run over every program ends: where the Crafting program found no
/// match, no program did.
pub open spec fn dispatched(e: Envelope, v: Verdict) -> bool {
    match v {
        Verdict::NoMatch => e is NoMatchAll,
        _ => describes(e, v),
    }
}

/// The program an envelope speaks of.
pub open spec fn program_name(e: Envelope) -> Option<Seq<char>> {
    match e {
        Envelope::Account(_) | Envelope::MalformedPayload(_) => Some("Crafting"@),
        Envelope::Instruction { .. } => Some("Sage-Starbased"@),
        Envelope::InvalidInstruction => Some("Unknown"@),
        Envelope::NoMatch => Some("Crafting"@),
        Envelope::NoMatchAll => None,
    }
}

/// The variant an envelope names.
pub open spec fn variant_name(e: Envelope) -> Option<Seq<char>> {
    match e {
        Envelope::Account(a) => Some(kind_name(kind_of(a))),
        Envelope::MalformedPayload(k) => Some(kind_name(k)),
        Envelope::Instruction { .. } => Some("SageInstruction"@),
        _ => None,
    }
}

/// The reason an envelope gives for holding no decoded value.
pub open spec fn error_message(e: Envelope) -> Option<Seq<char>> {
    match e {
        Envelope::MalformedPayload(k) => Some(malformed_message(k)),
        Envelope::NoMatchAll => Some("Unable to decode account"@),
        Envelope::InvalidInstruction => Some("Invalid instruction format"@),
        _ => None,
    }
}

impl Envelope {
    /// Whether the envelope holds a decoded value.
    pub fn is_decoded(&self) -> (r: bool)
        ensures
            r == (*self is Account || *self is Instruction),
    {
        match self {
            Envelope::Account(_) | Envelope::Instruction { .. } => true,
            _ => false,
        }
    }

    /// The name of the program the envelope speaks of.
    pub fn program(&self) -> (r: Option<&'static str>)
        ensures
            r matches Some(p) ==> program_name(*self) == Some(p@),
            r is None ==> program_name(*self) is None,
    {
        match self {
            Envelope::Account(_) | Envelope::MalformedPayload(_) => Some("Crafting"),
            Envelope::Instruction { .. } => Some("Sage-Starbased"),
            Envelope::InvalidInstruction => Some("Unknown"),
            Envelope::NoMatch => Some("Crafting"),
            Envelope::NoMatchAll => None,
        }
    }

    /// The name of the variant the envelope names.
    pub fn kind(&self) -> (r: Option<&'static str>)
        ensures
            r matches Some(p) ==> variant_name(*self) == Some(p@),
            r is None ==> variant_name(*self) is None,
    {
        match self {
            Envelope::Account(a) => Some(a.kind().name()),
            Envelope::MalformedPayload(k) => Some(k.name()),
            Envelope::Instruction { .. } => Some("SageInstruction"),
            _ => None,
        }
    }

    /// Why the envelope holds no decoded value.
    pub fn error(&self) -> (r: Option<&'static str>)
        ensures
            r matches Some(p) ==> error_message(*self) == Some(p@),
            r is None ==> error_message(*self) is None,
    {
        match self {
            Envelope::MalformedPayload(k) => Some(k.malformed_message()),
            Envelope::NoMatchAll => Some("Unable to decode account"),
            Envelope::InvalidInstruction => Some("Invalid instruction format"),
            _ => None,
        }
    }
}

} // verus!
