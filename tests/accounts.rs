use rust_decoder::crafting::{decode_as, CraftingKind};
use rust_decoder::dispatch::{decode_input, exit_code, InputError, Mode, EXIT_INVALID_HEX, EXIT_OK};
use rust_decoder::envelope::{decode_crafting_account, Envelope};
use rust_decoder::registry::Registry;

const DOMAIN: [u8; 8] = [167, 191, 231, 63, 146, 41, 115, 27];
const FACILITY: [u8; 8] = [58, 73, 35, 17, 92, 247, 49, 30];
const RECIPE: [u8; 8] = [10, 162, 156, 100, 56, 193, 205, 77];

fn domain_bytes() -> Vec<u8> {
    let mut v = DOMAIN.to_vec();
    v.push(1);
    v.extend_from_slice(&[7u8; 32]);
    v.extend_from_slice(&[9u8; 32]);
    v
}

fn to_hex(b: &[u8]) -> String {
    b.iter().map(|x| format!("{:02x}", x)).collect()
}

#[test]
fn unknown_discriminator_is_no_match() {
    let reg = Registry::crafting();
    let r = decode_input(&reg, "00000000000000000100000000000000", Mode::Account);
    assert_eq!(exit_code(&r), EXIT_OK);
    let e = r.unwrap();
    assert!(matches!(e, Envelope::NoMatchAll));
    assert!(!e.is_decoded());
    assert_eq!(e.error(), Some("Unable to decode account"));
    assert_eq!(e.program(), None);
    assert_eq!(e.kind(), None);
}

#[test]
fn unknown_discriminator_is_no_match_for_crafting() {
    let reg = Registry::crafting();
    let data = [0u8, 0, 0, 0, 0, 0, 0, 0, 1, 0, 0, 0, 0, 0, 0, 0];
    let e = decode_crafting_account(&reg, &data);
    assert!(matches!(e, Envelope::NoMatch));
    assert!(!e.is_decoded());
    assert_eq!(e.program(), Some("Crafting"));
    assert_eq!(e.kind(), None);
    assert_eq!(e.error(), None);
}

#[test]
fn instruction_discriminator_is_not_an_account() {
    let reg = Registry::crafting();
    let mut data = vec![64u8, 108, 109, 62, 9, 128, 138, 246];
    data.extend_from_slice(&[0u8; 80]);
    let e = decode_crafting_account(&reg, &data);
    assert!(matches!(e, Envelope::NoMatch));
    assert_eq!(e.program(), Some("Crafting"));
}

#[test]
fn short_input_is_no_match() {
    let reg = Registry::crafting();
    for n in 0..8 {
        let data = vec![167u8; n];
        assert!(matches!(decode_crafting_account(&reg, &data), Envelope::NoMatch));
    }
    let e = decode_crafting_account(&reg, &DOMAIN[..7]);
    assert!(matches!(e, Envelope::NoMatch));
    assert_eq!(e.program(), Some("Crafting"));
    let r = decode_input(&reg, "a7bfe73f92", Mode::Account).unwrap();
    assert!(matches!(r, Envelope::NoMatchAll));
}

#[test]
fn invalid_hex_fails_before_decoding() {
    let reg = Registry::crafting();
    let r = decode_input(&reg, "zz", Mode::Account);
    assert!(matches!(r, Err(InputError::InvalidHex)));
    assert_eq!(exit_code(&r), EXIT_INVALID_HEX);
    assert_eq!(EXIT_INVALID_HEX, 3);
    assert!(decode_input(&reg, "abc", Mode::Account).is_err());
}

#[test]
fn domain_account_decodes() {
    let reg = Registry::crafting();
    let e = decode_crafting_account(&reg, &domain_bytes());
    match &e {
        Envelope::Account(a) => assert_eq!(a.kind(), CraftingKind::Domain),
        other => panic!("unexpected {:?}", other),
    }
    assert!(e.is_decoded());
    assert_eq!(e.kind(), Some("Domain"));
    assert_eq!(e.program(), Some("Crafting"));
    assert_eq!(e.error(), None);
}

#[test]
fn domain_account_decodes_from_hex() {
    let reg = Registry::crafting();
    let text = format!("0x{}", to_hex(&domain_bytes()));
    let e = decode_input(&reg, &text, Mode::Account).unwrap();
    assert_eq!(e.kind(), Some("Domain"));
}

#[test]
fn truncated_domain_is_malformed() {
    let reg = Registry::crafting();
    let mut data = domain_bytes();
    data.truncate(20);
    let e = decode_crafting_account(&reg, &data);
    assert!(matches!(e, Envelope::MalformedPayload(CraftingKind::Domain)));
    assert_eq!(e.kind(), Some("Domain"));
    assert_eq!(e.program(), Some("Crafting"));
    assert_eq!(e.error(), Some("Malformed Domain payload"));
    let e = decode_crafting_account(&reg, &DOMAIN);
    assert!(matches!(e, Envelope::MalformedPayload(CraftingKind::Domain)));
}

#[test]
fn truncated_recipe_is_malformed() {
    let reg = Registry::crafting();
    let mut data = RECIPE.to_vec();
    data.extend_from_slice(&[0u8; 40]);
    let e = decode_crafting_account(&reg, &data);
    assert!(matches!(e, Envelope::MalformedPayload(CraftingKind::Recipe)));
    assert_eq!(e.error(), Some("Malformed Recipe payload"));
}

#[test]
fn facility_with_oversized_count_is_malformed() {
    let reg = Registry::crafting();
    let mut data = FACILITY.to_vec();
    data.push(1);
    data.extend_from_slice(&[3u8; 64]);
    data.push(0);
    data.extend_from_slice(&[0u8; 12]);
    data.extend_from_slice(&u32::MAX.to_le_bytes());
    assert_eq!(data.len(), 90);
    let e = decode_crafting_account(&reg, &data);
    assert!(matches!(e, Envelope::MalformedPayload(CraftingKind::CraftingFacility)));
}

#[test]
fn facility_with_its_categories_decodes() {
    let mut data = FACILITY.to_vec();
    data.push(1);
    data.extend_from_slice(&[3u8; 64]);
    data.push(0);
    data.extend_from_slice(&[0u8; 12]);
    data.extend_from_slice(&2u32.to_le_bytes());
    data.extend_from_slice(&[5u8; 64]);
    let a = decode_as(CraftingKind::CraftingFacility, &data).unwrap();
    assert_eq!(a.kind(), CraftingKind::CraftingFacility);
    data.truncate(data.len() - 1);
    assert!(decode_as(CraftingKind::CraftingFacility, &data).is_none());
}

#[test]
fn decode_as_checks_the_discriminator() {
    assert!(decode_as(CraftingKind::Domain, &domain_bytes()).is_some());
    assert!(decode_as(CraftingKind::CraftableItem, &domain_bytes()).is_none());
}

#[test]
fn decoding_is_deterministic() {
    let reg = Registry::crafting();
    let a = decode_crafting_account(&reg, &domain_bytes());
    let b = decode_crafting_account(&reg, &domain_bytes());
    assert_eq!(format!("{:?}", a), format!("{:?}", b));
}

#[test]
fn first_registered_variant_wins() {
    let mut reg = Registry::new();
    reg.register(DOMAIN, CraftingKind::Recipe);
    reg.register(DOMAIN, CraftingKind::Domain);
    assert_eq!(reg.lookup(&DOMAIN), Some(CraftingKind::Recipe));
    let e = decode_crafting_account(&reg, &domain_bytes());
    assert!(matches!(e, Envelope::MalformedPayload(CraftingKind::Recipe)));
}

#[test]
fn empty_registry_matches_nothing() {
    let reg = Registry::new();
    assert_eq!(reg.lookup(&DOMAIN), None);
    assert!(matches!(decode_crafting_account(&reg, &domain_bytes()), Envelope::NoMatch));
}

#[test]
fn crafting_registry_knows_every_variant() {
    let reg = Registry::crafting();
    assert_eq!(reg.lookup(&DOMAIN), Some(CraftingKind::Domain));
    assert_eq!(reg.lookup(&FACILITY), Some(CraftingKind::CraftingFacility));
    assert_eq!(reg.lookup(&RECIPE), Some(CraftingKind::Recipe));
    assert_eq!(
        reg.lookup(&[124, 246, 56, 8, 104, 95, 249, 251]),
        Some(CraftingKind::CraftableItem)
    );
    assert_eq!(
        reg.lookup(&[105, 184, 5, 105, 175, 112, 13, 169]),
        Some(CraftingKind::CraftingProcess)
    );
    assert_eq!(
        reg.lookup(&[199, 153, 142, 236, 99, 26, 24, 206]),
        Some(CraftingKind::RecipeCategory)
    );
    assert_eq!(CraftingKind::RecipeCategory.discriminator(), [199, 153, 142, 236, 99, 26, 24, 206]);
    assert_eq!(CraftingKind::CraftingProcess.name(), "CraftingProcess");
}
