use account_kit::account::AccountInfo;
use account_kit::deserialize::{
    AccountDeserialize, AccountHeaderDeserialize, InstructionDeserialize,
    InstructionHeaderDeserialize,
};
use account_kit::error::ProgramError;
use account_kit::records::{AdjustCounter, Counter, EventHeader, COUNTER_DISCRIMINATOR};
use account_kit::validation::AccountValidation;

fn counter_bytes() -> Vec<u8> {
    let mut data = vec![0u8; std::mem::size_of::<Counter>()];
    data[0] = COUNTER_DISCRIMINATOR;
    data
}

fn counter_align() -> usize {
    std::mem::align_of::<Counter>()
}

#[test]
fn cast_accepts_well_formed_record() {
    assert_eq!(Counter::try_from_bytes(&counter_bytes(), 0), Ok(()));
    assert_eq!(Counter::try_from_bytes_mut(&counter_bytes(), 0), Ok(()));
}

#[test]
fn cast_rejects_wrong_length() {
    let mut data = counter_bytes();
    data.push(0);
    assert_eq!(
        Counter::try_from_bytes(&data, 0),
        Err(ProgramError::InvalidAccountData)
    );
    data.truncate(std::mem::size_of::<Counter>() - 1);
    assert_eq!(
        Counter::try_from_bytes(&data, 0),
        Err(ProgramError::InvalidAccountData)
    );
}

#[test]
fn cast_rejects_wrong_discriminator() {
    let mut data = counter_bytes();
    data[0] = COUNTER_DISCRIMINATOR + 1;
    assert_eq!(
        Counter::try_from_bytes(&data, 0),
        Err(ProgramError::InvalidAccountData)
    );
}

#[test]
fn cast_rejects_misaligned_start() {
    assert!(counter_align() > 1);
    assert_eq!(
        Counter::try_from_bytes(&counter_bytes(), 1),
        Err(ProgramError::InvalidAccountData)
    );
    assert_eq!(Counter::try_from_bytes(&counter_bytes(), counter_align()), Ok(()));
}

#[test]
fn header_cast_returns_trailing_body() {
    let mut data = vec![account_kit::consts::EMIT_EVENT_DISCRIMINATOR];
    data.extend_from_slice(b"payload");
    let body = EventHeader::try_header_from_bytes(&data, 0).unwrap();
    assert_eq!(body, b"payload");
    let body_mut = EventHeader::try_header_from_bytes_mut(&data, 0).unwrap();
    assert_eq!(body_mut, b"payload");
}

#[test]
fn header_cast_accepts_empty_body() {
    let data = vec![account_kit::consts::EMIT_EVENT_DISCRIMINATOR];
    let body = EventHeader::try_header_from_bytes(&data, 0).unwrap();
    assert!(body.is_empty());
}

#[test]
fn header_cast_rejects_wrong_discriminator_and_short_buffer() {
    assert_eq!(
        EventHeader::try_header_from_bytes(&[7, 1, 2], 0),
        Err(ProgramError::InvalidAccountData)
    );
    assert_eq!(
        EventHeader::try_header_from_bytes(&[], 0),
        Err(ProgramError::InvalidAccountData)
    );
}

#[test]
fn instruction_cast_checks_length_and_alignment() {
    let data = vec![0u8; std::mem::size_of::<AdjustCounter>()];
    assert_eq!(AdjustCounter::try_from_bytes(&data, 0), Ok(()));
    assert_eq!(
        AdjustCounter::try_from_bytes(&data[1..], 0),
        Err(ProgramError::InvalidInstructionData)
    );
    assert!(std::mem::align_of::<AdjustCounter>() > 1);
    assert_eq!(
        AdjustCounter::try_from_bytes(&data, 3),
        Err(ProgramError::InvalidInstructionData)
    );
}

#[test]
fn instruction_header_cast_returns_trailing_body() {
    let mut data = vec![0u8; std::mem::size_of::<AdjustCounter>()];
    data.extend_from_slice(&[9, 8, 7]);
    let body = AdjustCounter::try_header_from_bytes(&data, 0).unwrap();
    assert_eq!(body, &[9, 8, 7]);
    assert_eq!(
        AdjustCounter::try_header_from_bytes(&data[..3], 0),
        Err(ProgramError::InvalidInstructionData)
    );
}

#[test]
fn typed_account_checks_owner_before_tag() {
    let program = [5u8; 32];
    let account = AccountInfo {
        key: [9u8; 32],
        owner: program,
        lamports: 1,
        data: counter_bytes(),
        data_address: 0,
        is_signer: false,
        is_writable: false,
        executable: false,
    };
    assert_eq!(account.as_account::<Counter>(&program), Ok(()));
    assert_eq!(account.as_account_mut::<Counter>(&program), Ok(()));
    // A foreign owner fails before the attacker-controllable tag is read.
    let mut foreign = account.clone();
    foreign.owner = [6u8; 32];
    foreign.data[0] = COUNTER_DISCRIMINATOR + 1;
    assert_eq!(
        foreign.as_account::<Counter>(&program),
        Err(ProgramError::InvalidAccountOwner)
    );
    // The right owner with a wrong tag is a structural failure.
    let mut retagged = account.clone();
    retagged.data[0] = COUNTER_DISCRIMINATOR + 1;
    assert_eq!(
        retagged.as_account::<Counter>(&program),
        Err(ProgramError::InvalidAccountData)
    );
}

#[test]
fn business_rule_combinators() {
    let counter = Counter {
        discriminator: COUNTER_DISCRIMINATOR,
        bump: 3,
        value: 42,
    };
    assert!(counter.assert_that(|c: &Counter| c.value == 42).is_ok());
    assert_eq!(
        counter.assert_that(|c: &Counter| c.value == 41),
        Err(ProgramError::InvalidAccountData)
    );
    assert_eq!(
        counter.assert_err(|c: &Counter| c.bump == 0, ProgramError::InvalidSeeds),
        Err(ProgramError::InvalidSeeds)
    );
    let mut mutable = counter;
    assert!(mutable.assert_mut(|c: &Counter| c.value == 42).is_ok());
    assert_eq!(
        mutable.assert_mut_err(|c: &Counter| c.value == 0, ProgramError::InvalidSeeds),
        Err(ProgramError::InvalidSeeds)
    );
}
