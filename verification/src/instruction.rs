//! What is sent to the transfer collaborators: the instruction that asks the
//! token program, or the system program, to move an amount from one account
//! to another.

use vstd::prelude::*;
use crate::codec::le_bytes;
use crate::error::PoolError;
use crate::escrow::EscrowSigner;
use crate::identity::{Identity, NO_ACCOUNT};

verus! {

/// The address of the token program.
pub const TOKEN_PROGRAM: [u8; 32] = [
    6, 221, 246, 225, 215, 101, 161, 147, 217, 203, 225, 70, 206, 235, 121, 172,
    28, 180, 133, 237, 95, 91, 55, 145, 58, 140, 245, 133, 126, 255, 0, 169,
];

/// The address of the system program.
pub const SYSTEM_PROGRAM: [u8; 32] = NO_ACCOUNT;

/// An account that an instruction names, and what the instruction needs of
/// it.
#[derive(Clone, Copy, Debug, PartialEq, Eq)]
pub struct AccountRole {
    pub account: Identity,
    /// Whether the account has to sign.
    pub is_signer: bool,
    /// Whether the instruction may change the account.
    pub is_writable: bool,
}

/// An instruction for another program.
#[derive(Clone, Debug, PartialEq, Eq)]
pub struct Invocation {
    /// The program that is asked.
    pub program_id: Identity,
    /// The accounts that it is handed, in order.
    pub accounts: Vec<AccountRole>,
    /// What it is asked, in its own encoding.
    pub data: Vec<u8>,
    /// The right to sign for the escrow, where the escrow signs.
    pub signer: Option<EscrowSigner>,
}

/// A transfer of tokens that the escrow authority signs.
#[derive(Clone, Copy, Debug, PartialEq, Eq)]
pub struct TokenTransferParams {
    /// The token account that gives.
    pub source: Identity,
    /// The token account that receives.
    pub destination: Identity,
    /// How much is moved.
    pub amount: u64,
    /// The authority over the source: the escrow.
    pub authority: Identity,
    /// The right to sign for the escrow.
    pub authority_signer: EscrowSigner,
    /// The program that is asked.
    pub token_program: Identity,
}

/// A transfer of tokens that the authority signs itself.
#[derive(Clone, Copy, Debug, PartialEq, Eq)]
pub struct TokenTransferParamsWithoutSeed {
    /// The token account that gives.
    pub source: Identity,
    /// The token account that receives.
    pub destination: Identity,
    /// How much is moved.
    pub amount: u64,
    /// The authority over the source.
    pub authority: Identity,
    /// The program that is asked.
    pub token_program: Identity,
}

/// A transfer of native currency that the source signs itself.
#[derive(Clone, Copy, Debug, PartialEq, Eq)]
pub struct SolTransferParamsWithoutSeed {
    /// The account that gives.
    pub source: Identity,
    /// The account that receives.
    pub destination: Identity,
    /// How much is moved.
    pub amount: u64,
    /// The program that is asked.
    pub system_program: Identity,
}

/// The accounts of a transfer of tokens: the source and the destination may
/// change, the authority signs.
pub open spec fn token_transfer_accounts(
    source: Identity,
    destination: Identity,
    authority: Identity,
) -> Seq<AccountRole> {
    seq![
        AccountRole { account: source, is_signer: false, is_writable: true },
        AccountRole { account: destination, is_signer: false, is_writable: true },
        AccountRole { account: authority, is_signer: true, is_writable: false },
    ]
}

/// What asks the token program for a transfer: the byte 3, then the amount in
/// eight bytes, lowest first.
pub open spec fn token_transfer_data(amount: u64) -> Seq<u8> {
    seq![3u8] + le_bytes(amount as nat, 8)
}

/// The accounts of a transfer of native currency: both may change, the source
/// signs.
pub open spec fn system_transfer_accounts(source: Identity, destination: Identity) -> Seq<
    AccountRole,
> {
    seq![
        AccountRole { account: source, is_signer: true, is_writable: true },
        AccountRole { account: destination, is_signer: false, is_writable: true },
    ]
}

/// What asks the system program for a transfer: the number 2 in four bytes,
/// then the amount in eight, each lowest first.
pub open spec fn system_transfer_data(amount: u64) -> Seq<u8> {
    seq![2u8, 0u8, 0u8, 0u8] + le_bytes(amount as nat, 8)
}

/// Calls `spl_token::instruction::transfer` with no further signers.
///
/// Not proved: that it answers an instruction only for the token program
/// itself, and that the instruction then names the source and the destination
/// as accounts that may change and the authority as the one that signs, and
/// holds the byte 3 and the amount.
#[verifier::external_body]
fn token_transfer_instruction(
    program: &Identity,
    source: &Identity,
    destination: &Identity,
    authority: &Identity,
    amount: u64,
) -> (call: Option<Invocation>)
    ensures
        call is Some <==> program.bytes == TOKEN_PROGRAM,
        call matches Some(c) ==> {
            &&& c.program_id == *program
            &&& c.accounts@ == token_transfer_accounts(*source, *destination, *authority)
            &&& c.data@ == token_transfer_data(amount)
            &&& c.signer is None
        },
{
    let key = |id: &Identity| spl_token::solana_program::pubkey::Pubkey::new_from_array(id.bytes);
    let (from, to, by) = (key(source), key(destination), key(authority));
    let ix = spl_token::instruction::transfer(&key(program), &from, &to, &by, &[], amount).ok()?;
    let accounts = ix.accounts.iter().map(|m| AccountRole {
        account: Identity { bytes: m.pubkey.to_bytes() },
        is_signer: m.is_signer,
        is_writable: m.is_writable,
    }).collect();
    let program_id = Identity { bytes: ix.program_id.to_bytes() };
    Some(Invocation { program_id, accounts, data: ix.data, signer: None })
}

/// Calls `anchor_lang::solana_program::system_instruction::transfer`.
///
/// Not proved: that the instruction is for the system program, names the
/// source as the account that signs and both accounts as ones that may
/// change, and holds the number 2 and the amount.
#[verifier::external_body]
fn system_transfer_instruction(source: &Identity, destination: &Identity, amount: u64) -> (call:
    Invocation)
    ensures
        call.program_id.bytes == SYSTEM_PROGRAM,
        call.accounts@ == system_transfer_accounts(*source, *destination),
        call.data@ == system_transfer_data(amount),
        call.signer is None,
{
    let key = |id: &Identity| anchor_lang::prelude::Pubkey::new_from_array(id.bytes);
    let (from, to) = (key(source), key(destination));
    let ix = anchor_lang::solana_program::system_instruction::transfer(&from, &to, amount);
    let accounts = ix.accounts.iter().map(|m| AccountRole {
        account: Identity { bytes: m.pubkey.to_bytes() },
        is_signer: m.is_signer,
        is_writable: m.is_writable,
    }).collect();
    let program_id = Identity { bytes: ix.program_id.to_bytes() };
    Invocation { program_id, accounts, data: ix.data, signer: None }
}

/// What `spl_token_transfer` answers.
pub open spec fn spl_token_transfer_outcome(params: TokenTransferParams) -> Result<
    (),
    PoolError,
> {
    if params.authority != params.authority_signer.spec_address() {
        Err(PoolError::UnauthorizedEscrowAccess)
    } else if params.token_program.bytes != TOKEN_PROGRAM {
        Err(PoolError::TransferFailed)
    } else {
        Ok(())
    }
}

/// The instruction that moves tokens out of an account of the escrow, signed
/// for the escrow. The signer must be the one of the authority named, and the
/// program asked must be the token program.
pub fn spl_token_transfer(params: &TokenTransferParams) -> (r: Result<Invocation, PoolError>)
    ensures
        match spl_token_transfer_outcome(*params) {
            Ok(()) => {
                &&& r matches Ok(call)
                &&& call.program_id == params.token_program
                &&& call.accounts@ == token_transfer_accounts(
                    params.source,
                    params.destination,
                    params.authority,
                )
                &&& call.data@ == token_transfer_data(params.amount)
                &&& call.signer == Some(params.authority_signer)
            },
            Err(e) => r == Err::<Invocation, PoolError>(e),
        },
{
    if !params.authority.equals(&params.authority_signer.address()) {
        return Err(PoolError::UnauthorizedEscrowAccess);
    }
    match token_transfer_instruction(
        &params.token_program,
        &params.source,
        &params.destination,
        &params.authority,
        params.amount,
    ) {
        Some(call) => Ok(
            Invocation {
                program_id: call.program_id,
                accounts: call.accounts,
                data: call.data,
                signer: Some(params.authority_signer),
            },
        ),
        None => Err(PoolError::TransferFailed),
    }
}

/// The instruction that moves tokens out of an account whose authority signs
/// itself. The program asked must be the token program.
pub fn spl_token_transfer_without_seed(params: &TokenTransferParamsWithoutSeed) -> (r: Result<
    Invocation,
    PoolError,
>)
    ensures
        r is Ok <==> params.token_program.bytes == TOKEN_PROGRAM,
        r is Err ==> r == Err::<Invocation, PoolError>(PoolError::TransferFailed),
        r matches Ok(call) ==> {
            &&& call.program_id == params.token_program
            &&& call.accounts@ == token_transfer_accounts(
                params.source,
                params.destination,
                params.authority,
            )
            &&& call.data@ == token_transfer_data(params.amount)
            &&& call.signer is None
        },
{
    match token_transfer_instruction(
        &params.token_program,
        &params.source,
        &params.destination,
        &params.authority,
        params.amount,
    ) {
        Some(call) => Ok(call),
        None => Err(PoolError::TransferFailed),
    }
}

/// The instruction that moves native currency out of an account that signs
/// itself. The program asked must be the system program.
pub fn sol_transfer_without_seed(params: &SolTransferParamsWithoutSeed) -> (r: Result<
    Invocation,
    PoolError,
>)
    ensures
        r is Ok <==> params.system_program.bytes == SYSTEM_PROGRAM,
        r is Err ==> r == Err::<Invocation, PoolError>(PoolError::TransferFailed),
        r matches Ok(call) ==> {
            &&& call.program_id == params.system_program
            &&& call.accounts@ == system_transfer_accounts(params.source, params.destination)
            &&& call.data@ == system_transfer_data(params.amount)
            &&& call.signer is None
        },
{
    let call = system_transfer_instruction(&params.source, &params.destination, params.amount);
    if call.program_id.equals(&params.system_program) {
        Ok(call)
    } else {
        Err(PoolError::TransferFailed)
    }
}

} // verus!
