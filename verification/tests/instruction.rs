use raffle_pool::error::PoolError;
use raffle_pool::escrow::{authorize, EscrowSigner};
use raffle_pool::identity::Identity;
use raffle_pool::instruction::{
    sol_transfer_without_seed, spl_token_transfer, spl_token_transfer_without_seed, AccountRole,
    Invocation, SolTransferParamsWithoutSeed, TokenTransferParams, TokenTransferParamsWithoutSeed,
    SYSTEM_PROGRAM, TOKEN_PROGRAM,
};
use solana_program::pubkey::Pubkey;

const PROGRAM: [u8; 32] = [9; 32];
const SEED: [u8; 32] = [42; 32];

fn id(byte: u8) -> Identity {
    Identity::new([byte; 32])
}

fn signer() -> EscrowSigner {
    let (address, bump) = Pubkey::find_program_address(&[&SEED], &Pubkey::new_from_array(PROGRAM));
    authorize(
        &Identity::new(SEED),
        bump,
        &Identity::new(PROGRAM),
        &Identity::new(address.to_bytes()),
    )
    .unwrap()
}

#[test]
fn programs_have_their_addresses() {
    assert_eq!(TOKEN_PROGRAM, spl_token::id().to_bytes());
    assert_eq!(SYSTEM_PROGRAM, anchor_lang::system_program::ID.to_bytes());
    assert_eq!(SYSTEM_PROGRAM, [0u8; 32]);
}

#[test]
fn token_transfer_names_accounts_and_amount() {
    let params = TokenTransferParamsWithoutSeed {
        source: id(1),
        destination: id(2),
        amount: 0x0102_0304_0506_0708,
        authority: id(3),
        token_program: Identity::new(TOKEN_PROGRAM),
    };
    assert_eq!(
        spl_token_transfer_without_seed(&params),
        Ok(Invocation {
            program_id: Identity::new(TOKEN_PROGRAM),
            accounts: vec![
                AccountRole { account: id(1), is_signer: false, is_writable: true },
                AccountRole { account: id(2), is_signer: false, is_writable: true },
                AccountRole { account: id(3), is_signer: true, is_writable: false },
            ],
            data: vec![3, 8, 7, 6, 5, 4, 3, 2, 1],
            signer: None,
        })
    );
}

#[test]
fn token_transfer_is_what_the_token_program_builds() {
    let key = |byte: u8| spl_token::solana_program::pubkey::Pubkey::new_from_array([byte; 32]);
    for amount in [0u64, 1, 250_000_000, u64::MAX] {
        let built =
            spl_token::instruction::transfer(&spl_token::id(), &key(1), &key(2), &key(3), &[], amount)
                .unwrap();
        let params = TokenTransferParamsWithoutSeed {
            source: id(1),
            destination: id(2),
            amount,
            authority: id(3),
            token_program: Identity::new(TOKEN_PROGRAM),
        };
        let call = spl_token_transfer_without_seed(&params).unwrap();
        assert_eq!(call.program_id.bytes, built.program_id.to_bytes());
        assert_eq!(call.data, built.data);
        assert_eq!(call.accounts.len(), built.accounts.len());
        for (mine, theirs) in call.accounts.iter().zip(built.accounts.iter()) {
            assert_eq!(mine.account.bytes, theirs.pubkey.to_bytes());
            assert_eq!(mine.is_signer, theirs.is_signer);
            assert_eq!(mine.is_writable, theirs.is_writable);
        }
    }
}

#[test]
fn token_transfer_asks_the_token_program_only() {
    let mut params = TokenTransferParamsWithoutSeed {
        source: id(1),
        destination: id(2),
        amount: 5,
        authority: id(3),
        token_program: id(1),
    };
    assert_eq!(spl_token_transfer_without_seed(&params), Err(PoolError::TransferFailed));
    params.token_program = Identity::new(SYSTEM_PROGRAM);
    assert_eq!(spl_token_transfer_without_seed(&params), Err(PoolError::TransferFailed));
}

#[test]
fn escrow_transfer_carries_the_right_to_sign() {
    let mut params = TokenTransferParams {
        source: id(1),
        destination: id(2),
        amount: 1,
        authority: signer().address(),
        authority_signer: signer(),
        token_program: Identity::new(TOKEN_PROGRAM),
    };
    assert_eq!(
        spl_token_transfer(&params),
        Ok(Invocation {
            program_id: Identity::new(TOKEN_PROGRAM),
            accounts: vec![
                AccountRole { account: id(1), is_signer: false, is_writable: true },
                AccountRole { account: id(2), is_signer: false, is_writable: true },
                AccountRole { account: signer().address(), is_signer: true, is_writable: false },
            ],
            data: vec![3, 1, 0, 0, 0, 0, 0, 0, 0],
            signer: Some(signer()),
        })
    );
    params.token_program = id(7);
    assert_eq!(spl_token_transfer(&params), Err(PoolError::TransferFailed));
    params.authority = id(3);
    assert_eq!(spl_token_transfer(&params), Err(PoolError::UnauthorizedEscrowAccess));
    params.token_program = Identity::new(TOKEN_PROGRAM);
    assert_eq!(spl_token_transfer(&params), Err(PoolError::UnauthorizedEscrowAccess));
}

#[test]
fn native_transfer_names_accounts_and_amount() {
    let params = SolTransferParamsWithoutSeed {
        source: id(1),
        destination: id(2),
        amount: 250_000_000,
        system_program: Identity::new(SYSTEM_PROGRAM),
    };
    assert_eq!(
        sol_transfer_without_seed(&params),
        Ok(Invocation {
            program_id: Identity::new([0; 32]),
            accounts: vec![
                AccountRole { account: id(1), is_signer: true, is_writable: true },
                AccountRole { account: id(2), is_signer: false, is_writable: true },
            ],
            data: vec![2, 0, 0, 0, 0x80, 0xB2, 0xE6, 0x0E, 0, 0, 0, 0],
            signer: None,
        })
    );
}

#[test]
fn native_transfer_is_what_the_system_program_builds() {
    let key = |byte: u8| anchor_lang::prelude::Pubkey::new_from_array([byte; 32]);
    for amount in [0u64, 1, 20_000_000, u64::MAX] {
        let built = anchor_lang::solana_program::system_instruction::transfer(&key(1), &key(2), amount);
        let params = SolTransferParamsWithoutSeed {
            source: id(1),
            destination: id(2),
            amount,
            system_program: Identity::new(SYSTEM_PROGRAM),
        };
        let call = sol_transfer_without_seed(&params).unwrap();
        assert_eq!(call.program_id.bytes, built.program_id.to_bytes());
        assert_eq!(call.data, built.data);
        assert_eq!(call.accounts.len(), built.accounts.len());
        for (mine, theirs) in call.accounts.iter().zip(built.accounts.iter()) {
            assert_eq!(mine.account.bytes, theirs.pubkey.to_bytes());
            assert_eq!(mine.is_signer, theirs.is_signer);
            assert_eq!(mine.is_writable, theirs.is_writable);
        }
    }
}

#[test]
fn native_transfer_asks_the_system_program_only() {
    let params = SolTransferParamsWithoutSeed {
        source: id(1),
        destination: id(2),
        amount: 5,
        system_program: Identity::new(TOKEN_PROGRAM),
    };
    assert_eq!(sol_transfer_without_seed(&params), Err(PoolError::TransferFailed));
}
