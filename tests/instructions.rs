use wormhole_anchor_sdk::address::Address;
use wormhole_anchor_sdk::codec::decode_transfer_call;
use wormhole_anchor_sdk::instructions::{
    approve_and_transfer_native_with_payload, approve_and_transfer_wrapped_with_payload,
    transfer_native_with_payload, transfer_wrapped_with_payload, AccountDescriptor, CallError,
    TransferError, TransferNativeWithPayload, TransferWrappedWithPayload,
};
use wormhole_anchor_sdk::opcode::Instruction;

fn addr(n: u8) -> Address {
    Address::new([n; 32])
}

fn native_roles() -> TransferNativeWithPayload {
    TransferNativeWithPayload {
        payer: addr(1),
        config: addr(2),
        from: addr(3),
        mint: addr(4),
        custody: addr(5),
        authority_signer: addr(6),
        custody_signer: addr(7),
        wormhole_config: addr(8),
        wormhole_message: addr(9),
        wormhole_emitter: addr(10),
        wormhole_sequence: addr(11),
        wormhole_fee_collector: addr(12),
        clock: addr(13),
        sender: addr(14),
        rent: addr(15),
        system_program: addr(16),
        token_program: addr(17),
        wormhole_program: addr(18),
    }
}

fn wrapped_roles() -> TransferWrappedWithPayload {
    TransferWrappedWithPayload {
        payer: addr(1),
        config: addr(2),
        from: addr(3),
        from_owner: addr(4),
        wrapped_mint: addr(5),
        wrapped_metadata: addr(6),
        authority_signer: addr(7),
        wormhole_config: addr(8),
        wormhole_message: addr(9),
        wormhole_emitter: addr(10),
        wormhole_sequence: addr(11),
        wormhole_fee_collector: addr(12),
        clock: addr(13),
        sender: addr(14),
        rent: addr(15),
        system_program: addr(16),
        token_program: addr(17),
        wormhole_program: addr(18),
    }
}

fn flat(list: &[AccountDescriptor]) -> Vec<([u8; 32], bool, bool)> {
    list.iter().map(|d| (d.pubkey.bytes, d.is_signer, d.is_writable)).collect()
}

const CLOCK: [u8; 32] = [
    6, 167, 213, 23, 24, 199, 116, 201, 40, 86, 99, 152, 105, 29, 94, 182, 139, 94, 184, 163, 155,
    75, 109, 92, 115, 85, 91, 33, 0, 0, 0, 0,
];
const RENT: [u8; 32] = [
    6, 167, 213, 23, 25, 44, 92, 81, 33, 140, 201, 76, 61, 74, 241, 127, 88, 218, 238, 8, 155, 161,
    253, 68, 227, 219, 217, 138, 0, 0, 0, 0,
];
const TOKEN: [u8; 32] = [
    6, 221, 246, 225, 215, 101, 161, 147, 217, 203, 225, 70, 206, 235, 121, 172, 28, 180, 133, 237,
    95, 91, 55, 145, 58, 140, 245, 133, 126, 255, 0, 169,
];

#[test]
fn well_known_addresses_match_the_runtime_crates() {
    assert_eq!(CLOCK, anchor_lang::solana_program::sysvar::clock::id().to_bytes());
    assert_eq!(RENT, anchor_lang::solana_program::sysvar::rent::id().to_bytes());
    assert_eq!(TOKEN, anchor_spl::token::ID.to_bytes());
}

#[test]
fn native_account_list_follows_the_table() {
    let got = flat(&native_roles().to_account_metas());
    let expected = vec![
        ([1; 32], true, true),
        ([2; 32], false, false),
        ([3; 32], false, true),
        ([4; 32], false, true),
        ([5; 32], false, true),
        ([6; 32], false, false),
        ([7; 32], false, false),
        ([8; 32], false, true),
        ([9; 32], true, true),
        ([10; 32], false, false),
        ([11; 32], false, true),
        ([12; 32], false, true),
        (CLOCK, false, false),
        ([14; 32], true, true),
        (RENT, false, false),
        ([16; 32], false, false),
        ([18; 32], false, false),
        (TOKEN, false, false),
    ];
    assert_eq!(got, expected);
}

#[test]
fn wrapped_account_list_follows_the_table() {
    let got = flat(&wrapped_roles().to_account_metas());
    let expected = vec![
        ([1; 32], true, true),
        ([2; 32], false, false),
        ([3; 32], false, true),
        ([4; 32], false, false),
        ([5; 32], false, true),
        ([6; 32], false, false),
        ([7; 32], false, false),
        ([8; 32], false, true),
        ([9; 32], true, true),
        ([10; 32], false, false),
        ([11; 32], false, true),
        ([12; 32], false, true),
        (CLOCK, false, false),
        ([14; 32], true, true),
        (RENT, false, false),
        ([16; 32], false, false),
        ([18; 32], false, false),
        (TOKEN, false, false),
    ];
    assert_eq!(got, expected);
}

#[test]
fn account_lists_are_deterministic() {
    assert_eq!(
        flat(&native_roles().to_account_metas()),
        flat(&native_roles().to_account_metas())
    );
    assert_eq!(
        flat(&wrapped_roles().to_account_metas()),
        flat(&wrapped_roles().to_account_metas())
    );
}

#[test]
fn native_transfer_call_is_complete() {
    let call = transfer_native_with_payload(
        addr(0x33),
        &native_roles(),
        7,
        1_000_000,
        [0x11; 32],
        2,
        vec![0xAA, 0xBB],
        &addr(0x22),
    )
    .unwrap();
    assert_eq!(call.program_id.bytes, [0x33; 32]);
    assert_eq!(flat(&call.accounts), flat(&native_roles().to_account_metas()));
    assert_eq!(call.data[0], 12);
    let (op, args) = decode_transfer_call(&call.data).unwrap();
    assert_eq!(op, Instruction::TransferNativeWithPayload);
    assert_eq!(args.batch_id, 7);
    assert_eq!(args.amount, 1_000_000);
    assert_eq!(args.recipient_address, [0x11; 32]);
    assert_eq!(args.recipient_chain, 2);
    assert_eq!(args.payload, vec![0xAA, 0xBB]);
    assert_eq!(args.cpi_program_id.unwrap().bytes, [0x22; 32]);
}

#[test]
fn wrapped_transfer_call_is_complete() {
    let call = transfer_wrapped_with_payload(
        addr(0x33),
        &wrapped_roles(),
        9,
        5,
        [0x44; 32],
        30,
        vec![],
        &addr(0x22),
    )
    .unwrap();
    assert_eq!(call.program_id.bytes, [0x33; 32]);
    assert_eq!(flat(&call.accounts), flat(&wrapped_roles().to_account_metas()));
    let (op, args) = decode_transfer_call(&call.data).unwrap();
    assert_eq!(op, Instruction::TransferWrappedWithPayload);
    assert_eq!(args.batch_id, 9);
    assert_eq!(args.amount, 5);
    assert_eq!(args.recipient_chain, 30);
    assert!(args.payload.is_empty());
    assert_eq!(args.cpi_program_id.unwrap().bytes, [0x22; 32]);
}

#[test]
fn failed_approval_stops_before_the_transfer() {
    let failure = CallError { code: 42 };
    let r = approve_and_transfer_native_with_payload(
        Err(failure),
        addr(0x33),
        &native_roles(),
        7,
        1_000_000,
        [0x11; 32],
        2,
        vec![0xAA],
        &addr(0x22),
    );
    assert_eq!(r.unwrap_err(), TransferError::Approve(failure));
    let r = approve_and_transfer_wrapped_with_payload(
        Err(failure),
        addr(0x33),
        &wrapped_roles(),
        7,
        1_000_000,
        [0x11; 32],
        2,
        vec![0xAA],
        &addr(0x22),
    );
    assert_eq!(r.unwrap_err(), TransferError::Approve(failure));
}

#[test]
fn successful_approval_builds_the_transfer() {
    let r = approve_and_transfer_native_with_payload(
        Ok(()),
        addr(0x33),
        &native_roles(),
        7,
        1_000_000,
        [0x11; 32],
        2,
        vec![0xAA],
        &addr(0x22),
    )
    .unwrap();
    let direct = transfer_native_with_payload(
        addr(0x33),
        &native_roles(),
        7,
        1_000_000,
        [0x11; 32],
        2,
        vec![0xAA],
        &addr(0x22),
    )
    .unwrap();
    assert_eq!(r.data, direct.data);
    let w = approve_and_transfer_wrapped_with_payload(
        Ok(()),
        addr(0x33),
        &wrapped_roles(),
        1,
        2,
        [3; 32],
        4,
        vec![5],
        &addr(6),
    )
    .unwrap();
    assert_eq!(w.data[0], 11);
    assert_eq!(flat(&w.accounts), flat(&wrapped_roles().to_account_metas()));
}
