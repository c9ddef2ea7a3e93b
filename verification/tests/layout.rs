use borsh::BorshSerialize;
use chain_programs::address::Address;
use chain_programs::channel::state::{Channel, Pending};
use chain_programs::wire::{
    get_address, get_u32, get_u64, get_u8, has_room, put_address, put_bytes, put_u32, put_u64,
};

fn addr(tag: u8) -> Address {
    let mut bytes = [tag; 32];
    bytes[31] = 1;
    Address::new(bytes)
}

fn sample(pending: Pending) -> Channel {
    Channel {
        authority: addr(9),
        users: [addr(1), addr(2)],
        balances: [80, 70],
        challenge_period: 60,
        expires_at: 1_080,
        nonce: 4,
        pending,
        bump_seed: 254,
        treasury_bump_seed: 253,
    }
}

#[test]
fn channel_record_is_laid_out_field_by_field() {
    let c = sample(Pending::Proposed { proposer: addr(2), balances: [10, 140], nonce: 7 });
    let bytes = c.pack();
    assert_eq!(bytes.len(), 194);
    assert_eq!(Channel::PACKED_LEN, 194);
    assert_eq!(Channel::LEN, 200);
    let reference = (
        addr(9).to_bytes(),
        [addr(1).to_bytes(), addr(2).to_bytes()],
        [80u64, 70u64],
        60u64,
        1_080u64,
        4u64,
        addr(2).to_bytes(),
        [10u64, 140u64],
        7u64,
        254u8,
        253u8,
    )
        .try_to_vec()
        .unwrap();
    assert_eq!(bytes, reference);
    assert_eq!(&bytes[96..104], &80u64.to_le_bytes());
    assert_eq!(&bytes[136..168], &addr(2).to_bytes());
    assert_eq!(bytes[192], 254);
    assert_eq!(bytes[193], 253);
    assert_eq!(Channel::unpack(&bytes), Some(c));
    let mut longer = bytes.clone();
    longer.extend_from_slice(&[0; 6]);
    assert_eq!(Channel::unpack(&longer), Some(c));
    assert_eq!(Channel::unpack(&bytes[..193]), None);
    assert_eq!(Channel::unpack(&[]), None);
}

#[test]
fn empty_slot_is_written_as_zeros() {
    let c = sample(Pending::Empty);
    let bytes = c.pack();
    assert!(bytes[136..192].iter().all(|b| *b == 0));
    assert_eq!(Channel::unpack(&bytes), Some(c));
    assert_eq!(Channel::new().pack(), vec![0u8; 194]);
    assert_eq!(Channel::default(), Channel::new());
    assert_eq!(Channel::unpack(&[0u8; 194]), Some(Channel::new()));
    // a slot without a proposer is empty, whatever else it holds
    let mut stray = bytes.clone();
    stray[170] = 5;
    assert_eq!(Channel::unpack(&stray), Some(c));
}

#[test]
fn wire_reads_and_writes_little_endian() {
    let mut out = Vec::new();
    put_u32(&mut out, 0x01020304);
    put_u64(&mut out, 0x0102030405060708);
    put_address(&mut out, &addr(3));
    put_bytes(&mut out, &[7, 8]);
    let mut expected = vec![4u8, 3, 2, 1, 8, 7, 6, 5, 4, 3, 2, 1];
    expected.extend_from_slice(&addr(3).to_bytes());
    expected.extend_from_slice(&[7, 8]);
    assert_eq!(out, expected);
    assert_eq!(get_u32(&out, 0), Some(0x01020304));
    assert_eq!(get_u64(&out, 4), Some(0x0102030405060708));
    assert_eq!(get_address(&out, 12), Some(addr(3)));
    assert_eq!(get_u8(&out, 44), Some(7));
    assert_eq!(get_u8(&out, 46), None);
    assert_eq!(get_u32(&out, 43), None);
    assert_eq!(get_u64(&out, 39), None);
    assert_eq!(get_address(&out, 15), None);
    assert_eq!(get_u64(&out, usize::MAX), None);
    assert!(has_room(&out, 46, 0));
    assert!(!has_room(&out, 47, 0));
    assert!(has_room(&out, 0, 46));
    assert!(!has_room(&out, 1, 46));
}
