//! Accounts of the Crafting program: their variants, the registry that maps
//! discriminators to variants, and decoding of one account's bytes.

use vstd::prelude::*;


use crate::discriminator::{extract_discriminator, same_discriminator};

verus! {

#[verifier::external_type_specification]
#[verifier::external_body]
pub struct ExCraftableItem(carbon_crafting_decoder::accounts::craftable_item::CraftableItem);

#[verifier::external_type_specification]
#[verifier::external_body]
pub struct ExCraftingFacility(carbon_crafting_decoder::accounts::crafting_facility::CraftingFacility);

#[verifier::external_type_specification]
#[verifier::external_body]
pub struct ExCraftingProcess(carbon_crafting_decoder::accounts::crafting_process::CraftingProcess);

#[verifier::external_type_specification]
#[verifier::external_body]
pub struct ExDomain(carbon_crafting_decoder::accounts::domain::Domain);

#[verifier::external_type_specification]
#[verifier::external_body]
pub struct ExRecipe(carbon_crafting_decoder::accounts::recipe::Recipe);

#[verifier::external_type_specification]
#[verifier::external_body]
pub struct ExRecipeCategory(carbon_crafting_decoder::accounts::recipe_category::RecipeCategory);

/// Whether the bytes after the discriminator hold a craftable item.
pub uninterp spec fn craftable_item_layout(payload: Seq<u8>) -> bool;

/// Whether the bytes after the discriminator hold a crafting facility.
pub uninterp spec fn crafting_facility_layout(payload: Seq<u8>) -> bool;

/// Whether the bytes after the discriminator hold a crafting process.
pub uninterp spec fn crafting_process_layout(payload: Seq<u8>) -> bool;

/// Whether the bytes after the discriminator hold a domain.
pub uninterp spec fn domain_layout(payload: Seq<u8>) -> bool;

/// Whether the bytes after the discriminator hold a recipe.
pub uninterp spec fn recipe_layout(payload: Seq<u8>) -> bool;

/// Whether the bytes after the discriminator hold a recipe category.
pub uninterp spec fn recipe_category_layout(payload: Seq<u8>) -> bool;

/// The account variants of the Crafting program.
#[derive(Clone, Copy, Debug, PartialEq, Eq, Structural)]
pub enum CraftingKind {
    CraftableItem,
    CraftingFacility,
    CraftingProcess,
    Domain,
    Recipe,
    RecipeCategory,
}

/// The discriminator that the program's schema gives each variant.
pub open spec fn discriminator_of(k: CraftingKind) -> Seq<u8> {
    match k {
        CraftingKind::CraftableItem => seq![124u8, 246, 56, 8, 104, 95, 249, 251],
        CraftingKind::CraftingFacility => seq![58u8, 73, 35, 17, 92, 247, 49, 30],
        CraftingKind::CraftingProcess => seq![105u8, 184, 5, 105, 175, 112, 13, 169],
        CraftingKind::Domain => seq![167u8, 191, 231, 63, 146, 41, 115, 27],
        CraftingKind::Recipe => seq![10u8, 162, 156, 100, 56, 193, 205, 77],
        CraftingKind::RecipeCategory => seq![199u8, 153, 142, 236, 99, 26, 24, 206],
    }
}

/// Whether `data` starts with `k`'s discriminator.
pub open spec fn tagged_as(k: CraftingKind, data: Seq<u8>) -> bool {
    data.len() >= 8 && data.subrange(0, 8) == discriminator_of(k)
}

/// An unsigned 32-bit integer, least significant byte first.
pub open spec fn le_u32(b: Seq<u8>) -> nat {
    b[0] as nat + 256 * (b[1] as nat) + 65536 * (b[2] as nat) + 16777216 * (b[3] as nat)
}

/// Bytes of a crafting facility before its list of recipe categories.
pub const FACILITY_FIXED_LEN: usize = 82;

/// Whether the bytes that follow a facility's fixed fields can hold the
/// 32-byte keys that its category count announces. Where they cannot, the
/// facility is malformed; it is then never handed to the deserializer, which
/// would reserve room for that count first.
pub open spec fn facility_count_fits(payload: Seq<u8>) -> bool {
    payload.len() >= 82 ==> le_u32(payload.subrange(78, 82)) * 32 <= payload.len() - 82
}

/// Whether `data`, discriminator included, decodes as an account of variant `k`.
pub open spec fn accepts(k: CraftingKind, data: Seq<u8>) -> bool {
    let p = data.subrange(8, data.len() as int);
    tagged_as(k, data) && match k {
        CraftingKind::CraftableItem => craftable_item_layout(p),
        CraftingKind::CraftingFacility => facility_count_fits(p) && crafting_facility_layout(p),
        CraftingKind::CraftingProcess => crafting_process_layout(p),
        CraftingKind::Domain => domain_layout(p),
        CraftingKind::Recipe => recipe_layout(p),
        CraftingKind::RecipeCategory => recipe_category_layout(p),
    }
}

/// Relies on CraftableItem::decode: `None` unless the discriminator matches,
/// else whether the rest deserializes.
/// Its fixed layout (a version byte, four 32-byte fields and a bump byte)
/// needs 130 bytes after the discriminator.
pub assume_specification[ carbon_crafting_decoder::accounts::craftable_item::CraftableItem::decode ](data: &[u8]) -> (r: Option<carbon_crafting_decoder::accounts::craftable_item::CraftableItem>)
    ensures
        r.is_some() == (tagged_as(CraftingKind::CraftableItem, data@) && craftable_item_layout(
            data@.subrange(8, data@.len() as int),
        )),
        data@.len() < 138 ==> r is None,
;

/// Relies on CraftingFacility::decode: `None` unless the discriminator
/// matches, else whether the rest deserializes. It reserves room for the
/// announced count of categories before reading them, so the count must fit.
pub assume_specification[ carbon_crafting_decoder::accounts::crafting_facility::CraftingFacility::decode ](data: &[u8]) -> (r: Option<carbon_crafting_decoder::accounts::crafting_facility::CraftingFacility>)
    requires
        data@.len() >= 8 ==> facility_count_fits(data@.subrange(8, data@.len() as int)),
    ensures
        r.is_some() == (tagged_as(CraftingKind::CraftingFacility, data@)
            && crafting_facility_layout(data@.subrange(8, data@.len() as int))),
;

/// Relies on CraftingProcess::decode: `None` unless the discriminator
/// matches, else whether the rest deserializes.
pub assume_specification[ carbon_crafting_decoder::accounts::crafting_process::CraftingProcess::decode ](data: &[u8]) -> (r: Option<carbon_crafting_decoder::accounts::crafting_process::CraftingProcess>)
    ensures
        r.is_some() == (tagged_as(CraftingKind::CraftingProcess, data@) && crafting_process_layout(
            data@.subrange(8, data@.len() as int),
        )),
;

/// Relies on Domain::decode: `None` unless the discriminator matches, else
/// whether the rest deserializes.
/// Its fixed layout (a version byte and two 32-byte fields) needs 65 bytes
/// after the discriminator.
pub assume_specification[ carbon_crafting_decoder::accounts::domain::Domain::decode ](data: &[u8]) -> (r: Option<carbon_crafting_decoder::accounts::domain::Domain>)
    ensures
        r.is_some() == (tagged_as(CraftingKind::Domain, data@) && domain_layout(
            data@.subrange(8, data@.len() as int),
        )),
        data@.len() < 73 ==> r is None,
;

/// Relies on Recipe::decode: `None` unless the discriminator matches, else
/// whether the rest deserializes.
pub assume_specification[ carbon_crafting_decoder::accounts::recipe::Recipe::decode ](data: &[u8]) -> (r: Option<carbon_crafting_decoder::accounts::recipe::Recipe>)
    ensures
        r.is_some() == (tagged_as(CraftingKind::Recipe, data@) && recipe_layout(
            data@.subrange(8, data@.len() as int),
        )),
;

/// Relies on RecipeCategory::decode: `None` unless the discriminator
/// matches, else whether the rest deserializes.
/// Its fixed layout (a version byte, two keys, a u32 count and a 32-byte
/// name) needs 101 bytes after the discriminator.
pub assume_specification[ carbon_crafting_decoder::accounts::recipe_category::RecipeCategory::decode ](data: &[u8]) -> (r: Option<carbon_crafting_decoder::accounts::recipe_category::RecipeCategory>)
    ensures
        r.is_some() == (tagged_as(CraftingKind::RecipeCategory, data@) && recipe_category_layout(
            data@.subrange(8, data@.len() as int),
        )),
        data@.len() < 109 ==> r is None,
;

/// A decoded account of the Crafting program.
#[derive(Debug)]
pub enum CraftingAccount {
    CraftableItem(carbon_crafting_decoder::accounts::craftable_item::CraftableItem),
    CraftingFacility(carbon_crafting_decoder::accounts::crafting_facility::CraftingFacility),
    CraftingProcess(carbon_crafting_decoder::accounts::crafting_process::CraftingProcess),
    Domain(carbon_crafting_decoder::accounts::domain::Domain),
    Recipe(carbon_crafting_decoder::accounts::recipe::Recipe),
    RecipeCategory(carbon_crafting_decoder::accounts::recipe_category::RecipeCategory),
}

/// The variant of a decoded account.
pub open spec fn kind_of(a: CraftingAccount) -> CraftingKind {
    match a {
        CraftingAccount::CraftableItem(_) => CraftingKind::CraftableItem,
        CraftingAccount::CraftingFacility(_) => CraftingKind::CraftingFacility,
        CraftingAccount::CraftingProcess(_) => CraftingKind::CraftingProcess,
        CraftingAccount::Domain(_) => CraftingKind::Domain,
        CraftingAccount::Recipe(_) => CraftingKind::Recipe,
        CraftingAccount::RecipeCategory(_) => CraftingKind::RecipeCategory,
    }
}

impl CraftingAccount {
    /// The variant of this account.
    pub fn kind(&self) -> (r: CraftingKind)
        ensures
            r == kind_of(*self),
    {
        match self {
            CraftingAccount::CraftableItem(_) => CraftingKind::CraftableItem,
            CraftingAccount::CraftingFacility(_) => CraftingKind::CraftingFacility,
            CraftingAccount::CraftingProcess(_) => CraftingKind::CraftingProcess,
            CraftingAccount::Domain(_) => CraftingKind::Domain,
            CraftingAccount::Recipe(_) => CraftingKind::Recipe,
            CraftingAccount::RecipeCategory(_) => CraftingKind::RecipeCategory,
        }
    }
}

/// The name of a variant, as envelopes carry it.
pub open spec fn kind_name(k: CraftingKind) -> Seq<char> {
    match k {
        CraftingKind::CraftableItem => "CraftableItem"@,
        CraftingKind::CraftingFacility => "CraftingFacility"@,
        CraftingKind::CraftingProcess => "CraftingProcess"@,
        CraftingKind::Domain => "Domain"@,
        CraftingKind::Recipe => "Recipe"@,
        CraftingKind::RecipeCategory => "RecipeCategory"@,
    }
}

/// The error that a malformed payload of a variant carries.
pub open spec fn malformed_message(k: CraftingKind) -> Seq<char> {
    match k {
        CraftingKind::CraftableItem => "Malformed CraftableItem payload"@,
        CraftingKind::CraftingFacility => "Malformed CraftingFacility payload"@,
        CraftingKind::CraftingProcess => "Malformed CraftingProcess payload"@,
        CraftingKind::Domain => "Malformed Domain payload"@,
        CraftingKind::Recipe => "Malformed Recipe payload"@,
        CraftingKind::RecipeCategory => "Malformed RecipeCategory payload"@,
    }
}

/// The fewest payload bytes, after the discriminator, that a variant of
/// fixed size reads; zero where the list it ends in makes no fixed floor known.
pub open spec fn min_payload_len(k: CraftingKind) -> nat {
    match k {
        CraftingKind::CraftableItem => 130,
        CraftingKind::Domain => 65,
        CraftingKind::RecipeCategory => 101,
        _ => 0,
    }
}

impl CraftingKind {
    /// The error that a malformed payload of this variant carries.
    pub fn malformed_message(&self) -> (r: &'static str)
        ensures
            r@ == malformed_message(*self),
    {
        match self {
            CraftingKind::CraftableItem => "Malformed CraftableItem payload",
            CraftingKind::CraftingFacility => "Malformed CraftingFacility payload",
            CraftingKind::CraftingProcess => "Malformed CraftingProcess payload",
            CraftingKind::Domain => "Malformed Domain payload",
            CraftingKind::Recipe => "Malformed Recipe payload",
            CraftingKind::RecipeCategory => "Malformed RecipeCategory payload",
        }
    }

    /// The name of this variant.
    pub fn name(&self) -> (r: &'static str)
        ensures
            r@ == kind_name(*self),
    {
        match self {
            CraftingKind::CraftableItem => "CraftableItem",
            CraftingKind::CraftingFacility => "CraftingFacility",
            CraftingKind::CraftingProcess => "CraftingProcess",
            CraftingKind::Domain => "Domain",
            CraftingKind::Recipe => "Recipe",
            CraftingKind::RecipeCategory => "RecipeCategory",
        }
    }

    /// The discriminator of this variant.
    pub fn discriminator(&self) -> (r: [u8; 8])
        ensures
            r@ == discriminator_of(*self),
    {
        let r: [u8; 8] = match self {
            CraftingKind::CraftableItem => [124, 246, 56, 8, 104, 95, 249, 251],
            CraftingKind::CraftingFacility => [58, 73, 35, 17, 92, 247, 49, 30],
            CraftingKind::CraftingProcess => [105, 184, 5, 105, 175, 112, 13, 169],
            CraftingKind::Domain => [167, 191, 231, 63, 146, 41, 115, 27],
            CraftingKind::Recipe => [10, 162, 156, 100, 56, 193, 205, 77],
            CraftingKind::RecipeCategory => [199, 153, 142, 236, 99, 26, 24, 206],
        };
        assert(r@ =~= discriminator_of(*self));
        r
    }
}

/// Decodes `data`, discriminator included, as an account of variant `kind`.
pub fn decode_as(kind: CraftingKind, data: &[u8]) -> (r: Option<CraftingAccount>)
    ensures
        r.is_some() == accepts(kind, data@),
        r matches Some(a) ==> kind_of(a) == kind,
        data@.len() < 8 + min_payload_len(kind) ==> r is None,
{
    match kind {
        CraftingKind::CraftableItem => match carbon_crafting_decoder::accounts::craftable_item::CraftableItem::decode(data) {
            Some(x) => Some(CraftingAccount::CraftableItem(x)),
            None => None,
        },
        CraftingKind::CraftingFacility => {
            let n = data.len();
            if n >= 8 + FACILITY_FIXED_LEN {
                let count: u64 = data[86] as u64 + 256 * (data[87] as u64) + 65536 * (data[88] as u64)
                    + 16777216 * (data[89] as u64);
                let room: u64 = (n - 90) as u64;
                proof {
                    let p = data@.subrange(8, n as int);
                    assert(p.subrange(78, 82) =~= data@.subrange(86, 90));
                    assert(count == le_u32(p.subrange(78, 82)));
                }
                if count > room / 32 {
                    return None;
                }
            }
            match carbon_crafting_decoder::accounts::crafting_facility::CraftingFacility::decode(data) {
                Some(x) => Some(CraftingAccount::CraftingFacility(x)),
                None => None,
            }
        },
        CraftingKind::CraftingProcess => match carbon_crafting_decoder::accounts::crafting_process::CraftingProcess::decode(data) {
            Some(x) => Some(CraftingAccount::CraftingProcess(x)),
            None => None,
        },
        CraftingKind::Domain => match carbon_crafting_decoder::accounts::domain::Domain::decode(data) {
            Some(x) => Some(CraftingAccount::Domain(x)),
            None => None,
        },
        CraftingKind::Recipe => match carbon_crafting_decoder::accounts::recipe::Recipe::decode(data) {
            Some(x) => Some(CraftingAccount::Recipe(x)),
            None => None,
        },
        CraftingKind::RecipeCategory => match carbon_crafting_decoder::accounts::recipe_category::RecipeCategory::decode(data) {
            Some(x) => Some(CraftingAccount::RecipeCategory(x)),
            None => None,
        },
    }
}

} // verus!
