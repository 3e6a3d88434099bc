use swap_escrow::error::ProcessError;
use swap_escrow::instruction::{CancelSwap, CreateSwap, Instruction};

fn create_bytes(offered: u64, desired: u64) -> Vec<u8> {
    let mut v = vec![0u8];
    v.extend_from_slice(&offered.to_le_bytes());
    v.extend_from_slice(&desired.to_le_bytes());
    v
}

#[test]
fn decode_create_swap() {
    assert_eq!(
        Instruction::unpack(&create_bytes(5000, 3000)),
        Ok(Instruction::CreateSwap(CreateSwap { offered_amount: 5000, desired_amount: 3000 }))
    );
}

#[test]
fn decode_cancel_swap() {
    assert_eq!(Instruction::unpack(&[1]), Ok(Instruction::CancelSwap(CancelSwap {})));
}

#[test]
fn decode_unknown_tag() {
    assert_eq!(Instruction::unpack(&[2]), Err(ProcessError::InvalidInstructionData));
    assert_eq!(Instruction::unpack(&[255, 1, 2, 3]), Err(ProcessError::InvalidInstructionData));
}

#[test]
fn decode_empty() {
    assert_eq!(Instruction::unpack(&[]), Err(ProcessError::InvalidInstructionData));
}

#[test]
fn decode_short_create() {
    let bytes = create_bytes(1, 2);
    for len in 1..bytes.len() {
        assert_eq!(Instruction::unpack(&bytes[..len]), Err(ProcessError::InvalidInstructionData));
    }
}

#[test]
fn decode_ignores_trailing_bytes() {
    let mut bytes = create_bytes(u64::MAX, 0);
    bytes.push(7);
    assert_eq!(
        Instruction::unpack(&bytes),
        Ok(Instruction::CreateSwap(CreateSwap { offered_amount: u64::MAX, desired_amount: 0 }))
    );
    assert_eq!(Instruction::unpack(&[1, 0, 0]), Ok(Instruction::CancelSwap(CancelSwap {})));
}
