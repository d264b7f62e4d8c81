use account_kit::error::ProgramError;
use account_kit::pda::{derive_pda, find_program_address};

fn program() -> [u8; 32] {
    let mut p = [0u8; 32];
    for (i, b) in p.iter_mut().enumerate() {
        *b = i as u8;
    }
    p
}

// SHA-256 of b"event_authority" ++ [255] ++ program() ++ b"ProgramDerivedAddress",
// computed with an independent SHA-256 implementation.
const DERIVED_AT_255: [u8; 32] = [
    82, 61, 240, 213, 162, 14, 172, 163, 150, 61, 170, 115, 120, 156, 233, 150, 14, 230, 3, 205,
    221, 133, 57, 164, 179, 97, 115, 159, 77, 66, 202, 134,
];

// The canonical derivation for the same seeds: the derivations at bumps 255,
// 254 and 253 are all edwards25519 curve points, the one at 252 is not.
const CANONICAL_BUMP: u8 = 252;
const CANONICAL_ADDRESS: [u8; 32] = [
    189, 63, 127, 63, 97, 9, 213, 1, 212, 188, 131, 106, 166, 117, 144, 40, 217, 224, 102, 147,
    133, 116, 124, 160, 47, 218, 150, 199, 232, 215, 117, 82,
];

fn seeds() -> Vec<Vec<u8>> {
    vec![b"event_authority".to_vec()]
}

#[test]
fn derive_matches_reference_digest() {
    let pda = derive_pda(&seeds(), &program(), 255).unwrap();
    assert_eq!(pda, DERIVED_AT_255);
}

#[test]
fn derive_is_deterministic() {
    let a = derive_pda(&seeds(), &program(), 7).unwrap();
    let b = derive_pda(&seeds(), &program(), 7).unwrap();
    assert_eq!(a, b);
}

#[test]
fn derive_differs_per_bump() {
    let a = derive_pda(&seeds(), &program(), 1).unwrap();
    let b = derive_pda(&seeds(), &program(), 2).unwrap();
    assert_ne!(a, b);
}

#[test]
fn derive_rejects_oversized_seed_list() {
    // 13 seeds leave room for bump, program and marker among 16 slots;
    // 14 do not.
    let thirteen: Vec<Vec<u8>> = (0..13).map(|i| vec![i as u8]).collect();
    assert!(derive_pda(&thirteen, &program(), 0).is_ok());
    let fourteen: Vec<Vec<u8>> = (0..14).map(|i| vec![i as u8]).collect();
    assert_eq!(
        derive_pda(&fourteen, &program(), 0),
        Err(ProgramError::InvalidSeeds)
    );
}

#[test]
fn find_skips_on_curve_bumps() {
    let (address, bump) = find_program_address(&seeds(), &program()).unwrap();
    assert_eq!(bump, CANONICAL_BUMP);
    assert_eq!(address, CANONICAL_ADDRESS);
}

#[test]
fn find_agrees_with_derive() {
    let (address, bump) = find_program_address(&seeds(), &program()).unwrap();
    assert_eq!(derive_pda(&seeds(), &program(), bump).unwrap(), address);
}

#[test]
fn find_rejects_oversized_seed_list() {
    let fourteen: Vec<Vec<u8>> = (0..14).map(|i| vec![i as u8]).collect();
    assert_eq!(
        find_program_address(&fourteen, &program()),
        Err(ProgramError::InvalidSeeds)
    );
}
