use account_kit::account::AccountInfo;
use account_kit::consts::SYSVAR_PROGRAM_ID;
use account_kit::error::ProgramError;
use account_kit::pda::derive_pda;
use account_kit::validation::Validation;

fn program() -> [u8; 32] {
    let mut p = [0u8; 32];
    for (i, b) in p.iter_mut().enumerate() {
        *b = i as u8;
    }
    p
}

fn account() -> AccountInfo {
    AccountInfo {
        key: [9u8; 32],
        owner: program(),
        lamports: 100,
        data: vec![1, 2, 3],
        data_address: 0,
        is_signer: true,
        is_writable: true,
        executable: false,
    }
}

fn seeds() -> Vec<Vec<u8>> {
    vec![b"event_authority".to_vec()]
}

#[test]
fn empty_rule_set_accepts() {
    assert_eq!(Validation::default().run(&account()), Ok(()));
}

#[test]
fn signer_rule() {
    let mut a = account();
    assert_eq!(Validation::default().is_signer(true).run(&a), Ok(()));
    a.is_signer = false;
    assert_eq!(
        Validation::default().is_signer(true).run(&a),
        Err(ProgramError::MissingRequiredSignature)
    );
}

#[test]
fn writable_rule() {
    let mut a = account();
    a.is_writable = false;
    assert_eq!(
        Validation::default().is_writable(true).run(&a),
        Err(ProgramError::InvalidAccountData)
    );
}

#[test]
fn executable_rule() {
    let a = account();
    assert_eq!(
        Validation::default().is_executable(true).run(&a),
        Err(ProgramError::InvalidAccountData)
    );
}

#[test]
fn empty_rule() {
    let mut a = account();
    assert_eq!(
        Validation::default().is_empty(true).run(&a),
        Err(ProgramError::AccountAlreadyInitialized)
    );
    a.data = vec![];
    assert_eq!(Validation::default().is_empty(true).run(&a), Ok(()));
}

#[test]
fn type_rule() {
    let a = account();
    assert_eq!(Validation::default().is_type(&program(), 1).run(&a), Ok(()));
    assert_eq!(
        Validation::default().is_type(&program(), 2).run(&a),
        Err(ProgramError::InvalidAccountData)
    );
    assert_eq!(
        Validation::default().is_type(&[7u8; 32], 1).run(&a),
        Err(ProgramError::InvalidAccountOwner)
    );
    let mut empty = account();
    empty.data = vec![];
    assert_eq!(
        Validation::default().is_type(&program(), 1).run(&empty),
        Err(ProgramError::InvalidAccountData)
    );
}

#[test]
fn program_rule() {
    let mut a = account();
    assert_eq!(
        Validation::default().is_program(&[8u8; 32]).run(&a),
        Err(ProgramError::InvalidAccountOwner)
    );
    assert_eq!(
        Validation::default().is_program(&a.key.clone()).run(&a),
        Err(ProgramError::InvalidAccountData)
    );
    a.executable = true;
    assert_eq!(
        Validation::default().is_program(&a.key.clone()).run(&a),
        Ok(())
    );
}

#[test]
fn sysvar_rule() {
    let mut a = account();
    assert_eq!(
        Validation::default().is_sysvar(&a.key.clone()).run(&a),
        Err(ProgramError::InvalidAccountOwner)
    );
    a.owner = SYSVAR_PROGRAM_ID;
    assert_eq!(
        Validation::default().is_sysvar(&a.key.clone()).run(&a),
        Ok(())
    );
    assert_eq!(
        Validation::default().is_sysvar(&[3u8; 32]).run(&a),
        Err(ProgramError::InvalidAccountData)
    );
}

#[test]
fn address_rule() {
    let a = account();
    assert_eq!(
        Validation::default().has_address(&a.key.clone()).run(&a),
        Ok(())
    );
    assert_eq!(
        Validation::default().has_address(&[3u8; 32]).run(&a),
        Err(ProgramError::InvalidAccountData)
    );
}

#[test]
fn owner_rule() {
    let a = account();
    assert_eq!(
        Validation::default().has_owner(&program()).run(&a),
        Ok(())
    );
    assert_eq!(
        Validation::default().has_owner(&[3u8; 32]).run(&a),
        Err(ProgramError::InvalidAccountOwner)
    );
}

#[test]
fn seed_search_rule() {
    // The canonical derivation of these seeds sits at bump 252 (the
    // derivations at 255, 254 and 253 are curve points).
    let mut a = account();
    a.key = [
        189, 63, 127, 63, 97, 9, 213, 1, 212, 188, 131, 106, 166, 117, 144, 40, 217, 224, 102,
        147, 133, 116, 124, 160, 47, 218, 150, 199, 232, 215, 117, 82,
    ];
    assert_eq!(
        Validation::default().has_seeds(seeds(), &program()).run(&a),
        Ok(())
    );
    a.key = [9u8; 32];
    assert_eq!(
        Validation::default().has_seeds(seeds(), &program()).run(&a),
        Err(ProgramError::InvalidSeeds)
    );
}

#[test]
fn seed_rule_with_bump_accepts_exactly_that_bump() {
    let bump = 200u8;
    let mut a = account();
    a.key = derive_pda(&seeds(), &program(), bump).unwrap();
    assert_eq!(
        Validation::default()
            .has_seeds_with_bump(seeds(), &program(), bump)
            .run(&a),
        Ok(())
    );
    // Any other supplied bump derives a different address and is rejected.
    assert_eq!(
        Validation::default()
            .has_seeds_with_bump(seeds(), &program(), 199)
            .run(&a),
        Err(ProgramError::InvalidSeeds)
    );
    assert_eq!(
        Validation::default()
            .has_seeds_with_bump(seeds(), &program(), 201)
            .run(&a),
        Err(ProgramError::InvalidSeeds)
    );
}

#[test]
fn seed_rule_with_bump_demands_initialized_account() {
    let bump = 200u8;
    let mut a = account();
    a.key = derive_pda(&seeds(), &program(), bump).unwrap();
    a.data = vec![1];
    assert_eq!(
        Validation::default()
            .has_seeds_with_bump(seeds(), &program(), bump)
            .run(&a),
        Err(ProgramError::InvalidAccountData)
    );
}

#[test]
fn seed_rule_with_saved_bump() {
    let bump = 77u8;
    let mut a = account();
    a.key = derive_pda(&seeds(), &program(), bump).unwrap();
    a.data = vec![1, bump];
    assert_eq!(
        Validation::default()
            .has_seeds_with_saved_bump(seeds(), &program())
            .run(&a),
        Ok(())
    );
    // A different stored bump derives a different address.
    a.data = vec![1, 78];
    assert_eq!(
        Validation::default()
            .has_seeds_with_saved_bump(seeds(), &program())
            .run(&a),
        Err(ProgramError::InvalidSeeds)
    );
    // The account must carry program ownership before its bytes are trusted.
    a.owner = [3u8; 32];
    assert_eq!(
        Validation::default()
            .has_seeds_with_saved_bump(seeds(), &program())
            .run(&a),
        Err(ProgramError::InvalidAccountOwner)
    );
}

#[test]
fn saved_bump_rule_demands_initialized_account() {
    let bump = 77u8;
    let mut a = account();
    a.key = derive_pda(&seeds(), &program(), bump).unwrap();
    a.data = vec![1];
    assert_eq!(
        Validation::default()
            .has_seeds_with_saved_bump(seeds(), &program())
            .run(&a),
        Err(ProgramError::InvalidAccountData)
    );
}

#[test]
fn run_reports_first_failing_predicate() {
    // An account failing both the signer and the owner rule reports the
    // signer failure: predicates are judged in declaration-table order.
    let mut a = account();
    a.is_signer = false;
    a.owner = [3u8; 32];
    let v = Validation::default().is_signer(true).has_owner(&program());
    assert_eq!(v.run(&a), Err(ProgramError::MissingRequiredSignature));
}

#[test]
fn rule_sets_compose_order_free() {
    // Running {signer, writable} then {owner} gives the verdict of the
    // combined rule set, on accepting and rejecting accounts alike.
    let accounts = {
        let good = account();
        let mut unsigned = account();
        unsigned.is_signer = false;
        let mut foreign = account();
        foreign.owner = [3u8; 32];
        vec![good, unsigned, foreign]
    };
    for a in &accounts {
        let first = Validation::default().is_signer(true).is_writable(true);
        let second = Validation::default().has_owner(&program());
        let combined = Validation::default()
            .is_signer(true)
            .is_writable(true)
            .has_owner(&program());
        let split_verdict = first.run(a).and_then(|_| second.run(a));
        assert_eq!(split_verdict.is_ok(), combined.run(a).is_ok());
    }
}
