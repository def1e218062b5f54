//! The escrow authority: an address that nobody holds a key for. It is
//! derived from a seed, a one-byte bump and the identity of the controlling
//! program, and only a holder of the same seed and bump can sign for it.

use vstd::prelude::*;
use crate::error::PoolError;
use crate::identity::Identity;

verus! {

/// The address that the seeds derive for a program, where they derive one.
///
/// This names what `Pubkey::create_program_address` of `solana_program`
/// answers: a hash of the seeds, the program and a fixed marker, refused where
/// a seed is too long, the seeds are too many, or the hash is a point of the
/// ed25519 curve. It depends on nothing but its arguments.
pub uninterp spec fn program_address(seeds: Seq<Seq<u8>>, program_id: Seq<u8>) -> Option<Seq<u8>>;

/// The seeds of an escrow authority: the seed, then the bump as a seed of one
/// byte.
pub open spec fn escrow_seeds(seed: Seq<u8>, bump: u8) -> Seq<Seq<u8>> {
    seq![seed, seq![bump]]
}

/// The bytes of an identity that may be absent.
pub open spec fn bytes_of(address: Option<Identity>) -> Option<Seq<u8>> {
    match address {
        Some(a) => Some(a@),
        None => None,
    }
}

/// Calls `solana_program::pubkey::Pubkey::create_program_address` on the two
/// seeds `seed` and `[bump]`.
///
/// Not proved: that the answer is `program_address` of these seeds and this
/// program, with every error of the outside function answered as `None`.
#[verifier::external_body]
fn create_program_address(seed: &Identity, bump: u8, program_id: &Identity) -> (address: Option<
    Identity,
>)
    ensures
        bytes_of(address) == program_address(escrow_seeds(seed@, bump), program_id@),
{
    let program = solana_program::pubkey::Pubkey::new_from_array(program_id.bytes);
    let seeds: [&[u8]; 2] = [&seed.bytes, &[bump]];
    match solana_program::pubkey::Pubkey::create_program_address(&seeds, &program) {
        Ok(address) => Some(Identity { bytes: address.to_bytes() }),
        Err(_) => None,
    }
}

/// The right to sign for an escrow: proof that its holder presented the seed
/// and bump that derive the escrow's address for the controlling program.
///
/// A value of this type is made by `authorize` alone, so whoever holds one
/// has passed the derivation.
#[derive(Clone, Copy, Debug, PartialEq, Eq)]
pub struct EscrowSigner {
    seed: Identity,
    bump: u8,
    program: Identity,
    address: Identity,
}

impl EscrowSigner {
    #[verifier::type_invariant]
    spec fn derived(self) -> bool {
        program_address(escrow_seeds(self.seed@, self.bump), self.program@) == Some(self.address@)
    }

    /// The seed that was presented.
    pub closed spec fn spec_seed(self) -> Identity {
        self.seed
    }

    /// The bump that was presented.
    pub closed spec fn spec_bump(self) -> u8 {
        self.bump
    }

    /// The controlling program.
    pub closed spec fn spec_program(self) -> Identity {
        self.program
    }

    /// The escrow's address.
    pub closed spec fn spec_address(self) -> Identity {
        self.address
    }

    /// The seed that was presented.
    pub fn seed(&self) -> (seed: Identity)
        ensures
            seed == self.spec_seed(),
    {
        self.seed
    }

    /// The bump that was presented.
    pub fn bump(&self) -> (bump: u8)
        ensures
            bump == self.spec_bump(),
    {
        self.bump
    }

    /// The controlling program.
    pub fn program(&self) -> (program: Identity)
        ensures
            program == self.spec_program(),
    {
        self.program
    }

    /// The escrow's address: the one that the seed and bump derive.
    pub fn address(&self) -> (address: Identity)
        ensures
            address == self.spec_address(),
            program_address(escrow_seeds(self.spec_seed()@, self.spec_bump()), self.spec_program()@)
                == Some(address@),
    {
        proof {
            use_type_invariant(self);
        }
        self.address
    }
}

/// Whether `derived`, the address that a seed and bump gave, is the escrow
/// account `escrow` that the caller presents.
pub fn check_escrow(derived: Option<Identity>, escrow: &Identity) -> (r: Result<(), PoolError>)
    ensures
        r is Ok <==> derived == Some(*escrow),
        r is Err ==> r == Err::<(), PoolError>(PoolError::UnauthorizedEscrowAccess),
{
    match derived {
        Some(address) => {
            if address.equals(escrow) {
                Ok(())
            } else {
                Err(PoolError::UnauthorizedEscrowAccess)
            }
        },
        None => Err(PoolError::UnauthorizedEscrowAccess),
    }
}

/// Derives the escrow address of `seed` and `bump` for `program_id` and, if it
/// is the account `escrow` presented, answers the right to sign for it.
pub fn authorize(seed: &Identity, bump: u8, program_id: &Identity, escrow: &Identity) -> (r: Result<
    EscrowSigner,
    PoolError,
>)
    ensures
        r is Ok <==> program_address(escrow_seeds(seed@, bump), program_id@) == Some(escrow@),
        r is Err ==> r == Err::<EscrowSigner, PoolError>(PoolError::UnauthorizedEscrowAccess),
        r matches Ok(signer) ==> {
            &&& signer.spec_seed() == *seed
            &&& signer.spec_bump() == bump
            &&& signer.spec_program() == *program_id
            &&& signer.spec_address() == *escrow
        },
{
    let derived = create_program_address(seed, bump, program_id);
    proof {
        if derived is Some {
            Identity::lemma_view_injective(derived->Some_0, *escrow);
        }
    }
    match check_escrow(derived, escrow) {
        Ok(()) => Ok(
            EscrowSigner { seed: *seed, bump, program: *program_id, address: *escrow },
        ),
        Err(e) => Err(e),
    }
}

} // verus!
