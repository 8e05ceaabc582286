use vstd::prelude::*;
use crate::address::{
    Address,
    clock_sysvar,
    clock_sysvar_address,
    rent_sysvar,
    rent_sysvar_address,
    token_program,
    token_program_address,
};
use crate::codec::{
    EncodeError,
    TransferArgs,
    TransferWithPayloadArgs,
    encode_transfer_call,
    transfer_call_bytes,
};
use crate::opcode::Instruction;

verus! {

/// An account named by a call, with the capabilities the call needs on it.
#[derive(Clone, Copy, Debug)]
pub struct AccountDescriptor {
    pub pubkey: Address,
    pub is_signer: bool,
    pub is_writable: bool,
}

pub open spec fn writable(pubkey: Address, is_signer: bool) -> AccountDescriptor {
    AccountDescriptor { pubkey, is_signer, is_writable: true }
}

pub open spec fn readonly(pubkey: Address) -> AccountDescriptor {
    AccountDescriptor { pubkey, is_signer: false, is_writable: false }
}

impl AccountDescriptor {
    /// A writable account.
    pub fn new(pubkey: Address, is_signer: bool) -> (r: AccountDescriptor)
        ensures
            r == writable(pubkey, is_signer),
    {
        AccountDescriptor { pubkey, is_signer, is_writable: true }
    }

    /// A read-only account that does not sign.
    pub fn new_readonly(pubkey: Address) -> (r: AccountDescriptor)
        ensures
            r == readonly(pubkey),
    {
        AccountDescriptor { pubkey, is_signer: false, is_writable: false }
    }
}

/// A cross-program call: the program called, its accounts in order, and its data.
#[derive(Clone, Debug)]
pub struct CallRecord {
    pub program_id: Address,
    pub accounts: Vec<AccountDescriptor>,
    pub data: Vec<u8>,
}

/// The arguments of a native transfer with payload.
pub type TransferNativeWithPayloadData = TransferWithPayloadArgs;

/// The arguments of a wrapped transfer with payload.
pub type TransferWrappedWithPayloadData = TransferWithPayloadArgs;

/// The accounts of a native transfer with payload, by role.
#[derive(Clone, Copy, Debug)]
pub struct TransferNativeWithPayload {
    pub payer: Address,
    pub config: Address,
    pub from: Address,
    pub mint: Address,
    pub custody: Address,
    pub authority_signer: Address,
    pub custody_signer: Address,
    pub wormhole_config: Address,
    pub wormhole_message: Address,
    pub wormhole_emitter: Address,
    pub wormhole_sequence: Address,
    pub wormhole_fee_collector: Address,
    pub clock: Address,
    pub sender: Address,
    pub rent: Address,
    pub system_program: Address,
    pub token_program: Address,
    pub wormhole_program: Address,
}

/// The accounts of a wrapped transfer with payload, by role.
#[derive(Clone, Copy, Debug)]
pub struct TransferWrappedWithPayload {
    pub payer: Address,
    pub config: Address,
    pub from: Address,
    pub from_owner: Address,
    pub wrapped_mint: Address,
    pub wrapped_metadata: Address,
    pub authority_signer: Address,
    pub wormhole_config: Address,
    pub wormhole_message: Address,
    pub wormhole_emitter: Address,
    pub wormhole_sequence: Address,
    pub wormhole_fee_collector: Address,
    pub clock: Address,
    pub sender: Address,
    pub rent: Address,
    pub system_program: Address,
    pub token_program: Address,
    pub wormhole_program: Address,
}

impl TransferNativeWithPayload {
    /// The account list the bridge program expects, position by position.
    pub open spec fn spec_account_metas(self) -> Seq<AccountDescriptor> {
        seq![
            writable(self.payer, true),
            readonly(self.config),
            writable(self.from, false),
            writable(self.mint, false),
            writable(self.custody, false),
            readonly(self.authority_signer),
            readonly(self.custody_signer),
            writable(self.wormhole_config, false),
            writable(self.wormhole_message, true),
            readonly(self.wormhole_emitter),
            writable(self.wormhole_sequence, false),
            writable(self.wormhole_fee_collector, false),
            readonly(clock_sysvar()),
            writable(self.sender, true),
            readonly(rent_sysvar()),
            readonly(self.system_program),
            readonly(self.wormhole_program),
            readonly(token_program()),
        ]
    }

    pub fn to_account_metas(&self) -> (r: Vec<AccountDescriptor>)
        ensures
            r@ == self.spec_account_metas(),
    {
        let r = vec![
            AccountDescriptor::new(self.payer, true),
            AccountDescriptor::new_readonly(self.config),
            AccountDescriptor::new(self.from, false),
            AccountDescriptor::new(self.mint, false),
            AccountDescriptor::new(self.custody, false),
            AccountDescriptor::new_readonly(self.authority_signer),
            AccountDescriptor::new_readonly(self.custody_signer),
            AccountDescriptor::new(self.wormhole_config, false),
            AccountDescriptor::new(self.wormhole_message, true),
            AccountDescriptor::new_readonly(self.wormhole_emitter),
            AccountDescriptor::new(self.wormhole_sequence, false),
            AccountDescriptor::new(self.wormhole_fee_collector, false),
            AccountDescriptor::new_readonly(clock_sysvar_address()),
            AccountDescriptor::new(self.sender, true),
            AccountDescriptor::new_readonly(rent_sysvar_address()),
            AccountDescriptor::new_readonly(self.system_program),
            AccountDescriptor::new_readonly(self.wormhole_program),
            AccountDescriptor::new_readonly(token_program_address()),
        ];
        assert(r@ =~= self.spec_account_metas());
        r
    }
}

impl TransferWrappedWithPayload {
    /// The account list the bridge program expects, position by position.
    pub open spec fn spec_account_metas(self) -> Seq<AccountDescriptor> {
        seq![
            writable(self.payer, true),
            readonly(self.config),
            writable(self.from, false),
            readonly(self.from_owner),
            writable(self.wrapped_mint, false),
            readonly(self.wrapped_metadata),
            readonly(self.authority_signer),
            writable(self.wormhole_config, false),
            writable(self.wormhole_message, true),
            readonly(self.wormhole_emitter),
            writable(self.wormhole_sequence, false),
            writable(self.wormhole_fee_collector, false),
            readonly(clock_sysvar()),
            writable(self.sender, true),
            readonly(rent_sysvar()),
            readonly(self.system_program),
            readonly(self.wormhole_program),
            readonly(token_program()),
        ]
    }

    pub fn to_account_metas(&self) -> (r: Vec<AccountDescriptor>)
        ensures
            r@ == self.spec_account_metas(),
    {
        let r = vec![
            AccountDescriptor::new(self.payer, true),
            AccountDescriptor::new_readonly(self.config),
            AccountDescriptor::new(self.from, false),
            AccountDescriptor::new_readonly(self.from_owner),
            AccountDescriptor::new(self.wrapped_mint, false),
            AccountDescriptor::new_readonly(self.wrapped_metadata),
            AccountDescriptor::new_readonly(self.authority_signer),
            AccountDescriptor::new(self.wormhole_config, false),
            AccountDescriptor::new(self.wormhole_message, true),
            AccountDescriptor::new_readonly(self.wormhole_emitter),
            AccountDescriptor::new(self.wormhole_sequence, false),
            AccountDescriptor::new(self.wormhole_fee_collector, false),
            AccountDescriptor::new_readonly(clock_sysvar_address()),
            AccountDescriptor::new(self.sender, true),
            AccountDescriptor::new_readonly(rent_sysvar_address()),
            AccountDescriptor::new_readonly(self.system_program),
            AccountDescriptor::new_readonly(self.wormhole_program),
            AccountDescriptor::new_readonly(token_program_address()),
        ];
        assert(r@ =~= self.spec_account_metas());
        r
    }
}

/// A failure reported by the ledger runtime or by a called program.
#[derive(Clone, Copy, Debug, PartialEq, Eq, Structural)]
pub struct CallError {
    pub code: u64,
}

/// Why a transfer with payload did not take place.
#[derive(Clone, Copy, Debug, PartialEq, Eq, Structural)]
pub enum TransferError {
    /// The call data could not be encoded.
    Encode(EncodeError),
    /// The bridge program or the runtime rejected the transfer call.
    Call(CallError),
    /// The delegation step failed; no transfer was attempted.
    Approve(CallError),
}

/// The arguments that a transfer call sends: the calling program is always named.
pub open spec fn call_args(
    batch_id: u32,
    amount: u64,
    recipient_address: [u8; 32],
    recipient_chain: u16,
    payload: Seq<u8>,
    cpi_program_id: Address,
) -> TransferArgs {
    TransferArgs {
        batch_id,
        amount,
        recipient_address: recipient_address@,
        recipient_chain,
        payload,
        cpi_program_id: Some(cpi_program_id.bytes@),
    }
}

/// Builds the call for a native transfer with payload: the program, the
/// account list of `accounts`, and the encoded arguments.
pub fn transfer_native_with_payload(
    program_id: Address,
    accounts: &TransferNativeWithPayload,
    batch_id: u32,
    amount: u64,
    recipient_address: [u8; 32],
    recipient_chain: u16,
    payload: Vec<u8>,
    cpi_program_id: &Address,
) -> (r: Result<CallRecord, EncodeError>)
    ensures
        r is Err <==> payload@.len() > u32::MAX,
        r matches Err(e) ==> e == EncodeError::PayloadTooLong,
        r matches Ok(c) ==> {
            &&& c.program_id == program_id
            &&& c.accounts@ == accounts.spec_account_metas()
            &&& c.data@ == transfer_call_bytes(
                Instruction::TransferNativeWithPayload,
                call_args(
                    batch_id,
                    amount,
                    recipient_address,
                    recipient_chain,
                    payload@,
                    *cpi_program_id,
                ),
            )
        },
{
    let args = TransferNativeWithPayloadData {
        batch_id,
        amount,
        recipient_address,
        recipient_chain,
        payload,
        cpi_program_id: Some(*cpi_program_id),
    };
    let data = encode_transfer_call(Instruction::TransferNativeWithPayload, &args)?;
    Ok(CallRecord { program_id, accounts: accounts.to_account_metas(), data })
}

/// Builds the call for a wrapped transfer with payload: the program, the
/// account list of `accounts`, and the encoded arguments.
pub fn transfer_wrapped_with_payload(
    program_id: Address,
    accounts: &TransferWrappedWithPayload,
    batch_id: u32,
    amount: u64,
    recipient_address: [u8; 32],
    recipient_chain: u16,
    payload: Vec<u8>,
    cpi_program_id: &Address,
) -> (r: Result<CallRecord, EncodeError>)
    ensures
        r is Err <==> payload@.len() > u32::MAX,
        r matches Err(e) ==> e == EncodeError::PayloadTooLong,
        r matches Ok(c) ==> {
            &&& c.program_id == program_id
            &&& c.accounts@ == accounts.spec_account_metas()
            &&& c.data@ == transfer_call_bytes(
                Instruction::TransferWrappedWithPayload,
                call_args(
                    batch_id,
                    amount,
                    recipient_address,
                    recipient_chain,
                    payload@,
                    *cpi_program_id,
                ),
            )
        },
{
    let args = TransferWrappedWithPayloadData {
        batch_id,
        amount,
        recipient_address,
        recipient_chain,
        payload,
        cpi_program_id: Some(*cpi_program_id),
    };
    let data = encode_transfer_call(Instruction::TransferWrappedWithPayload, &args)?;
    Ok(CallRecord { program_id, accounts: accounts.to_account_metas(), data })
}

/// Second step of approve-then-transfer for a native asset: given how the
/// delegation call ended, either stops with its failure, or builds the
/// transfer call that is to follow it.
pub fn approve_and_transfer_native_with_payload(
    approval: Result<(), CallError>,
    program_id: Address,
    accounts: &TransferNativeWithPayload,
    batch_id: u32,
    amount: u64,
    recipient_address: [u8; 32],
    recipient_chain: u16,
    payload: Vec<u8>,
    cpi_program_id: &Address,
) -> (r: Result<CallRecord, TransferError>)
    ensures
        approval matches Err(e) ==> r == Err::<CallRecord, TransferError>(TransferError::Approve(e)),
        approval is Ok ==> (r is Err <==> payload@.len() > u32::MAX),
        approval is Ok && r is Err ==> r == Err::<CallRecord, TransferError>(
            TransferError::Encode(EncodeError::PayloadTooLong),
        ),
        r matches Ok(c) ==> {
            &&& approval is Ok
            &&& c.program_id == program_id
            &&& c.accounts@ == accounts.spec_account_metas()
            &&& c.data@ == transfer_call_bytes(
                Instruction::TransferNativeWithPayload,
                call_args(
                    batch_id,
                    amount,
                    recipient_address,
                    recipient_chain,
                    payload@,
                    *cpi_program_id,
                ),
            )
        },
{
    match approval {
        Err(e) => Err(TransferError::Approve(e)),
        Ok(()) => match transfer_native_with_payload(
            program_id,
            accounts,
            batch_id,
            amount,
            recipient_address,
            recipient_chain,
            payload,
            cpi_program_id,
        ) {
            Ok(c) => Ok(c),
            Err(e) => Err(TransferError::Encode(e)),
        },
    }
}

/// Second step of approve-then-transfer for a wrapped asset: given how the
/// delegation call ended, either stops with its failure, or builds the
/// transfer call that is to follow it.
pub fn approve_and_transfer_wrapped_with_payload(
    approval: Result<(), CallError>,
    program_id: Address,
    accounts: &TransferWrappedWithPayload,
    batch_id: u32,
    amount: u64,
    recipient_address: [u8; 32],
    recipient_chain: u16,
    payload: Vec<u8>,
    cpi_program_id: &Address,
) -> (r: Result<CallRecord, TransferError>)
    ensures
        approval matches Err(e) ==> r == Err::<CallRecord, TransferError>(TransferError::Approve(e)),
        approval is Ok ==> (r is Err <==> payload@.len() > u32::MAX),
        approval is Ok && r is Err ==> r == Err::<CallRecord, TransferError>(
            TransferError::Encode(EncodeError::PayloadTooLong),
        ),
        r matches Ok(c) ==> {
            &&& approval is Ok
            &&& c.program_id == program_id
            &&& c.accounts@ == accounts.spec_account_metas()
            &&& c.data@ == transfer_call_bytes(
                Instruction::TransferWrappedWithPayload,
                call_args(
                    batch_id,
                    amount,
                    recipient_address,
                    recipient_chain,
                    payload@,
                    *cpi_program_id,
                ),
            )
        },
{
    match approval {
        Err(e) => Err(TransferError::Approve(e)),
        Ok(()) => match transfer_wrapped_with_payload(
            program_id,
            accounts,
            batch_id,
            amount,
            recipient_address,
            recipient_chain,
            payload,
            cpi_program_id,
        ) {
            Ok(c) => Ok(c),
            Err(e) => Err(TransferError::Encode(e)),
        },
    }
}

/// Signer and writable flags, position by position, of a native transfer's accounts.
pub open spec fn native_flags() -> Seq<(bool, bool)> {
    seq![
        (true, true),
        (false, false),
        (false, true),
        (false, true),
        (false, true),
        (false, false),
        (false, false),
        (false, true),
        (true, true),
        (false, false),
        (false, true),
        (false, true),
        (false, false),
        (true, true),
        (false, false),
        (false, false),
        (false, false),
        (false, false),
    ]
}

/// Signer and writable flags, position by position, of a wrapped transfer's accounts.
pub open spec fn wrapped_flags() -> Seq<(bool, bool)> {
    seq![
        (true, true),
        (false, false),
        (false, true),
        (false, false),
        (false, true),
        (false, false),
        (false, false),
        (false, true),
        (true, true),
        (false, false),
        (false, true),
        (false, true),
        (false, false),
        (true, true),
        (false, false),
        (false, false),
        (false, false),
        (false, false),
    ]
}

/// The same role assignment always gives the same native account list, and
/// that list has eighteen entries whose flags are those of `native_flags`.
pub proof fn lemma_native_account_table(a: TransferNativeWithPayload, b: TransferNativeWithPayload)
    requires
        a == b,
    ensures
        a.spec_account_metas() == b.spec_account_metas(),
        a.spec_account_metas().len() == 18,
        forall|i: int|
            0 <= i < 18 ==> (#[trigger] a.spec_account_metas()[i].is_signer,
            a.spec_account_metas()[i].is_writable) == native_flags()[i],
{
}

/// The same role assignment always gives the same wrapped account list, and
/// that list has eighteen entries whose flags are those of `wrapped_flags`.
pub proof fn lemma_wrapped_account_table(a: TransferWrappedWithPayload, b: TransferWrappedWithPayload)
    requires
        a == b,
    ensures
        a.spec_account_metas() == b.spec_account_metas(),
        a.spec_account_metas().len() == 18,
        forall|i: int|
            0 <= i < 18 ==> (#[trigger] a.spec_account_metas()[i].is_signer,
            a.spec_account_metas()[i].is_writable) == wrapped_flags()[i],
{
}

} // verus!
