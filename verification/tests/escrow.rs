use raffle_pool::error::PoolError;
use raffle_pool::escrow::{authorize, check_escrow};
use raffle_pool::identity::Identity;
use solana_program::pubkey::Pubkey;

const PROGRAM: [u8; 32] = [
    218, 7, 92, 178, 255, 94, 198, 129, 118, 19, 222, 83, 11, 105, 42, 135, 53, 71, 119, 105, 218,
    71, 67, 12, 189, 129, 84, 51, 92, 74, 131, 39,
];

fn derived(seed: [u8; 32]) -> (Identity, u8) {
    let (address, bump) = Pubkey::find_program_address(&[&seed], &Pubkey::new_from_array(PROGRAM));
    (Identity::new(address.to_bytes()), bump)
}

#[test]
fn seed_and_bump_that_derive_the_escrow_may_sign() {
    let seed = [5u8; 32];
    let (escrow, bump) = derived(seed);
    let signer = authorize(&Identity::new(seed), bump, &Identity::new(PROGRAM), &escrow).unwrap();
    assert_eq!(signer.seed(), Identity::new(seed));
    assert_eq!(signer.bump(), bump);
    assert_eq!(signer.program(), Identity::new(PROGRAM));
    assert_eq!(signer.address(), escrow);
}

#[test]
fn derivation_agrees_with_the_outside_function() {
    for byte in [0u8, 1, 77, 200, 255] {
        let seed = [byte; 32];
        let program = Pubkey::new_from_array(PROGRAM);
        for bump in [0u8, 1, 128, 254, 255] {
            let expected = Pubkey::create_program_address(&[&seed, &[bump]], &program).ok();
            match expected {
                Some(address) => {
                    let escrow = Identity::new(address.to_bytes());
                    assert!(authorize(
                        &Identity::new(seed),
                        bump,
                        &Identity::new(PROGRAM),
                        &escrow
                    )
                    .is_ok());
                }
                None => {
                    assert_eq!(
                        authorize(
                            &Identity::new(seed),
                            bump,
                            &Identity::new(PROGRAM),
                            &Identity::new(seed)
                        ),
                        Err(PoolError::UnauthorizedEscrowAccess)
                    );
                }
            }
        }
    }
}

#[test]
fn the_seed_itself_is_not_the_escrow() {
    let seed = [5u8; 32];
    let (_, bump) = derived(seed);
    assert_eq!(
        authorize(&Identity::new(seed), bump, &Identity::new(PROGRAM), &Identity::new(seed)),
        Err(PoolError::UnauthorizedEscrowAccess)
    );
    assert_eq!(
        authorize(&Identity::new(seed), bump, &Identity::new(PROGRAM), &Identity::new(PROGRAM)),
        Err(PoolError::UnauthorizedEscrowAccess)
    );
}

#[test]
fn another_bump_seed_or_program_does_not_sign() {
    let seed = [5u8; 32];
    let (escrow, bump) = derived(seed);
    let program = Identity::new(PROGRAM);
    assert_eq!(
        authorize(&Identity::new(seed), bump.wrapping_sub(1), &program, &escrow),
        Err(PoolError::UnauthorizedEscrowAccess)
    );
    assert_eq!(
        authorize(&Identity::new([6; 32]), bump, &program, &escrow),
        Err(PoolError::UnauthorizedEscrowAccess)
    );
    assert_eq!(
        authorize(&Identity::new(seed), bump, &Identity::new([9; 32]), &escrow),
        Err(PoolError::UnauthorizedEscrowAccess)
    );
}

#[test]
fn escrow_is_checked_against_the_derived_address() {
    let a = Identity::new([1; 32]);
    let b = Identity::new([2; 32]);
    assert_eq!(check_escrow(Some(a), &a), Ok(()));
    assert_eq!(check_escrow(Some(a), &b), Err(PoolError::UnauthorizedEscrowAccess));
    assert_eq!(check_escrow(None, &a), Err(PoolError::UnauthorizedEscrowAccess));
}
