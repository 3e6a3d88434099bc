use swap_escrow::address::Address;
use swap_escrow::error::ProcessError;
use swap_escrow::state::{Swap, SWAP_LEN};

fn addr(b: u8) -> Address {
    Address::new([b; 32])
}

fn sample() -> Swap {
    Swap {
        is_initialized: true,
        creator: addr(1),
        offered_mint: addr(2),
        desired_mint: addr(3),
        ata_creator_offered: addr(4),
        escrow: addr(5),
        offered_amount: 5000,
        desired_amount: 0x0102_0304_0506_0708,
        swap_bump: 254,
        escrow_bump: 253,
    }
}

#[test]
fn record_round_trip() {
    let s = sample();
    let bytes = s.encode();
    assert_eq!(bytes.len(), SWAP_LEN);
    assert_eq!(Swap::unpack_from_slice(&bytes), Ok(s));
}

#[test]
fn record_round_trip_uninitialized_extremes() {
    let s = Swap {
        is_initialized: false,
        offered_amount: u64::MAX,
        desired_amount: 0,
        swap_bump: 0,
        escrow_bump: 255,
        ..sample()
    };
    assert_eq!(Swap::unpack_from_slice(&s.encode()), Ok(s));
}

#[test]
fn record_layout_is_byte_exact() {
    let bytes = sample().encode();
    assert_eq!(SWAP_LEN, 179);
    assert_eq!(bytes[0], 1);
    assert!(bytes[1..33].iter().all(|b| *b == 1));
    assert!(bytes[129..161].iter().all(|b| *b == 5));
    assert_eq!(&bytes[161..169], &5000u64.to_le_bytes());
    assert_eq!(&bytes[169..177], &[8, 7, 6, 5, 4, 3, 2, 1]);
    assert_eq!(bytes[177], 254);
    assert_eq!(bytes[178], 253);
}

#[test]
fn record_decode_rejects_short_buffers() {
    let bytes = sample().encode();
    for len in 0..SWAP_LEN {
        assert_eq!(Swap::unpack_from_slice(&bytes[..len]), Err(ProcessError::InvalidAccountData));
    }
}

#[test]
fn record_decode_rejects_bad_flag() {
    let mut bytes = sample().encode();
    for flag in 2..=255u8 {
        bytes[0] = flag;
        assert_eq!(Swap::unpack_from_slice(&bytes), Err(ProcessError::InvalidAccountData));
    }
}

#[test]
fn record_decode_ignores_trailing_bytes() {
    let mut bytes = sample().encode();
    bytes.extend_from_slice(&[9, 9, 9]);
    assert_eq!(Swap::unpack_from_slice(&bytes), Ok(sample()));
    assert_eq!(Swap::unpack(&bytes), Err(ProcessError::InvalidAccountData));
}

#[test]
fn record_unpack_requires_initialized() {
    let s = Swap { is_initialized: false, ..sample() };
    assert_eq!(Swap::unpack(&s.encode()), Err(ProcessError::UninitializedAccount));
    assert_eq!(Swap::unpack_unchecked(&s.encode()), Ok(s));
    assert_eq!(Swap::unpack(&sample().encode()), Ok(sample()));
    assert!(sample().is_initialized());
}

#[test]
fn record_decode_of_zeroed_account() {
    let zeros = vec![0u8; SWAP_LEN];
    let s = Swap::unpack_unchecked(&zeros).unwrap();
    assert!(!s.is_initialized);
    assert_eq!(s.offered_amount, 0);
    assert_eq!(s.creator, addr(0));
}

#[test]
fn record_pack_into_longer_slice_keeps_tail() {
    let mut buf = vec![0xAAu8; SWAP_LEN + 4];
    sample().pack_into_slice(&mut buf);
    assert_eq!(&buf[..SWAP_LEN], &sample().encode()[..]);
    assert_eq!(&buf[SWAP_LEN..], &[0xAA; 4]);
}

#[test]
fn record_pack_requires_exact_length() {
    let mut exact = vec![0u8; SWAP_LEN];
    assert_eq!(Swap::pack(sample(), &mut exact), Ok(()));
    assert_eq!(Swap::unpack(&exact), Ok(sample()));
    let mut long = vec![0u8; SWAP_LEN + 1];
    assert_eq!(Swap::pack(sample(), &mut long), Err(ProcessError::InvalidAccountData));
    assert!(long.iter().all(|b| *b == 0));
}
