use account_kit::consts::{EMIT_EVENT_DISCRIMINATOR, MAX_CPI_INSTRUCTION_DATA_LEN};
use account_kit::deserialize::AccountHeaderDeserialize;
use account_kit::error::ProgramError;
use account_kit::instructions::EmitEvent;
use account_kit::records::EventHeader;

fn emitter(data: Vec<u8>) -> EmitEvent {
    EmitEvent {
        program_id: [4u8; 32],
        event_authority: [5u8; 32],
        data,
    }
}

#[test]
fn emit_prepends_event_discriminator() {
    let call = emitter(vec![10, 20, 30]).invoke_signed().unwrap();
    assert_eq!(call.program_id, [4u8; 32]);
    assert_eq!(call.authority, [5u8; 32]);
    assert_eq!(call.data, vec![EMIT_EVENT_DISCRIMINATOR, 10, 20, 30]);
}

#[test]
fn emit_accepts_maximum_payload() {
    let payload = vec![7u8; MAX_CPI_INSTRUCTION_DATA_LEN];
    let call = emitter(payload.clone()).invoke_signed().unwrap();
    assert_eq!(call.data.len(), 1 + MAX_CPI_INSTRUCTION_DATA_LEN);
    assert_eq!(call.data[0], EMIT_EVENT_DISCRIMINATOR);
    assert_eq!(&call.data[1..], payload.as_slice());
}

#[test]
fn emit_rejects_oversized_payload() {
    let payload = vec![7u8; MAX_CPI_INSTRUCTION_DATA_LEN + 1];
    assert_eq!(
        emitter(payload).invoke_signed().map(|c| c.data),
        Err(ProgramError::InvalidInstructionData)
    );
}

#[test]
fn emit_rejects_empty_payload() {
    assert_eq!(
        emitter(vec![]).invoke_signed().map(|c| c.data),
        Err(ProgramError::InvalidInstructionData)
    );
}

#[test]
fn emitted_envelope_parses_as_event_header() {
    let call = emitter(vec![42, 43]).invoke_signed().unwrap();
    let body = EventHeader::try_header_from_bytes(&call.data, 0).unwrap();
    assert_eq!(body, &[42, 43]);
}
