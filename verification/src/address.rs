use crate::error::ErrorCode;
use anchor_lang::solana_program::pubkey::{Pubkey, PubkeyError};
use vstd::prelude::*;

verus! {

/// Seed of the program authority, the keyless signer that controls the
/// holding account.
pub const AUTHORITY_SEED: [u8; 9] = [97, 117, 116, 104, 111, 114, 105, 116, 121];

/// Seed of the holding account, which keeps the wrapped source asset while a
/// swap is under way.
pub const WSOL_SEED: [u8; 20] = [
    119, 114, 97, 112, 112, 101, 100, 45, 115, 111, 117, 114, 99, 101, 45, 97, 115, 115, 101, 116,
];

/// A 32-byte ledger address.
#[derive(Clone, Copy, Debug, PartialEq, Eq)]
pub struct Address {
    pub bytes: [u8; 32],
}

impl View for Address {
    type V = Seq<u8>;

    open spec fn view(&self) -> Seq<u8> {
        self.bytes@
    }
}

impl Address {
    pub fn new(bytes: [u8; 32]) -> (address: Address)
        ensures
            address.bytes == bytes,
    {
        Address { bytes }
    }

    /// Byte-wise comparison of two addresses.
    pub fn same(&self, other: &Address) -> (equal: bool)
        ensures
            equal == (*self == *other),
    {
        let mut i: usize = 0;
        while i < 32
            invariant
                i <= 32,
                forall|k: int| 0 <= k < i ==> self.bytes@[k] == other.bytes@[k],
            decreases 32 - i,
        {
            if self.bytes[i] != other.bytes[i] {
                return false;
            }
            i += 1;
        }
        assert(self.bytes =~= other.bytes);
        true
    }
}

/// Two addresses with the same bytes are the same address.
pub proof fn lemma_address_ext(a: Address, b: Address)
    requires
        a@ == b@,
    ensures
        a == b,
{
    assert(a.bytes =~= b.bytes);
}

/// The two fixed seeds that program addresses are derived from.
#[derive(Clone, Copy, Debug, PartialEq, Eq, Structural)]
pub enum Seed {
    Authority,
    Wsol,
}

impl Seed {
    /// The bytes of the seed.
    pub open spec fn label(self) -> Seq<u8> {
        match self {
            Seed::Authority => AUTHORITY_SEED@,
            Seed::Wsol => WSOL_SEED@,
        }
    }

    pub fn bytes(&self) -> (v: Vec<u8>)
        ensures
            v@ == self.label(),
    {
        let mut v: Vec<u8> = Vec::new();
        match self {
            Seed::Authority => {
                let mut i: usize = 0;
                while i < 9
                    invariant
                        i <= 9,
                        v@ == AUTHORITY_SEED@.subrange(0, i as int),
                    decreases 9 - i,
                {
                    v.push(AUTHORITY_SEED[i]);
                    i += 1;
                }
            },
            Seed::Wsol => {
                let mut i: usize = 0;
                while i < 20
                    invariant
                        i <= 20,
                        v@ == WSOL_SEED@.subrange(0, i as int),
                    decreases 20 - i,
                {
                    v.push(WSOL_SEED[i]);
                    i += 1;
                }
            },
        }
        v
    }
}

/// What a program address signs with: its seed and its bump.
#[derive(Clone, Copy, Debug, PartialEq, Eq)]
pub struct SignerSeeds {
    pub seed: Seed,
    pub bump: u8,
}

impl SignerSeeds {
    /// The seed slices handed to the runtime: the label, then the bump.
    pub open spec fn slices(self) -> Seq<Seq<u8>> {
        seq![self.seed.label(), seq![self.bump]]
    }

    pub fn to_vecs(&self) -> (v: Vec<Vec<u8>>)
        ensures
            v@.len() == 2,
            v@[0]@ == self.seed.label(),
            v@[1]@ == seq![self.bump],
    {
        let mut bump: Vec<u8> = Vec::new();
        bump.push(self.bump);
        let mut v: Vec<Vec<u8>> = Vec::new();
        v.push(self.seed.bytes());
        v.push(bump);
        v
    }
}

/// A derived program address together with the recipe that proves authority
/// over it. No secret key exists for it.
#[derive(Clone, Copy, Debug, PartialEq, Eq)]
pub struct ProgramAddress {
    pub address: Address,
    pub seeds: SignerSeeds,
}

/// What `Pubkey::create_program_address` hands back for `seeds` and the
/// program `program_id`: the bytes of the program address, or `None` where it
/// refuses the seeds.
pub uninterp spec fn program_address(seeds: Seq<Seq<u8>>, program_id: Seq<u8>) -> Option<Seq<u8>>;

/// The address derived for `program_id` from a seed and one bump.
pub open spec fn derivation(seed: Seed, bump: u8, program_id: Address) -> Option<Seq<u8>> {
    program_address(seq![seed.label(), seq![bump]], program_id@)
}

/// `derived` is the address of `seed` under the smallest bump that yields one.
pub open spec fn is_derived(derived: ProgramAddress, seed: Seed, program_id: Address) -> bool {
    &&& derived.seeds.seed == seed
    &&& derivation(seed, derived.seeds.bump, program_id) == Some(derived.address@)
    &&& forall|bump: u8| bump < derived.seeds.bump ==> derivation(seed, bump, program_id) is None
}

/// No bump yields an address for `seed`.
pub open spec fn exhausted(seed: Seed, program_id: Address) -> bool {
    forall|bump: u8| derivation(seed, bump, program_id) is None
}

/// The outcome of the search for the address of `seed`.
pub open spec fn derive_spec(seed: Seed, program_id: Address) -> Result<ProgramAddress, ErrorCode> {
    if exists|derived: ProgramAddress| is_derived(derived, seed, program_id) {
        Ok(choose|derived: ProgramAddress| is_derived(derived, seed, program_id))
    } else {
        Err(ErrorCode::DerivationExhausted)
    }
}

/// At most one address is derived from a seed.
pub proof fn lemma_derived_unique(
    a: ProgramAddress,
    b: ProgramAddress,
    seed: Seed,
    program_id: Address,
)
    requires
        is_derived(a, seed, program_id),
        is_derived(b, seed, program_id),
    ensures
        a == b,
{
    assert(a.seeds.bump == b.seeds.bump);
    lemma_address_ext(a.address, b.address);
}

/// The error of `Pubkey::create_program_address`. Nothing is read of it.
#[verifier::external_type_specification]
#[verifier::external_body]
pub struct ExPubkeyError(PubkeyError);

/// Calls `Pubkey::create_program_address` with the two seed slices `label`
/// and `[bump]`. The call hashes the seeds with the program id and refuses
/// the result where it lies on the ed25519 curve or a seed is too long; it
/// depends on nothing but its arguments, so the contract names its result
/// `program_address`.
#[verifier::external_body]
fn create_program_address(label: &Vec<u8>, bump: u8, program_id: &Address) -> (r: Result<
    Address,
    PubkeyError,
>)
    ensures
        match r {
            Ok(address) => program_address(seq![label@, seq![bump]], program_id@) == Some(
                address@,
            ),
            Err(_) => program_address(seq![label@, seq![bump]], program_id@) is None,
        },
{
    let owner = Pubkey::new_from_array(program_id.bytes);
    match Pubkey::create_program_address(&[label.as_slice(), &[bump]], &owner) {
        Ok(key) => Ok(Address { bytes: key.to_bytes() }),
        Err(refused) => Err(refused),
    }
}

/// Derives the address of `seed` for the program `program_id`: tries the
/// bumps from 0 upwards and keeps the first that yields an address.
pub fn derive_address(seed: Seed, program_id: &Address) -> (r: Result<ProgramAddress, ErrorCode>)
    ensures
        match r {
            Ok(derived) => is_derived(derived, seed, *program_id),
            Err(e) => e == ErrorCode::DerivationExhausted && exhausted(seed, *program_id),
        },
        r == derive_spec(seed, *program_id),
{
    let label = seed.bytes();
    let mut bump: u8 = 0;
    loop
        invariant
            label@ == seed.label(),
            forall|b: u8| b < bump ==> derivation(seed, b, *program_id) is None,
        decreases 255 - bump,
    {
        match create_program_address(&label, bump, program_id) {
            Ok(address) => {
                let derived = ProgramAddress { address, seeds: SignerSeeds { seed, bump } };
                proof {
                    assert(is_derived(derived, seed, *program_id));
                    lemma_derived_unique(
                        derived,
                        choose|d: ProgramAddress| is_derived(d, seed, *program_id),
                        seed,
                        *program_id,
                    );
                }
                return Ok(derived);
            },
            Err(_) => {},
        }
        if bump == 255 {
            proof {
                assert(exhausted(seed, *program_id));
                assert forall|d: ProgramAddress| !is_derived(d, seed, *program_id) by {
                    assert(derivation(seed, d.seeds.bump, *program_id) is None);
                }
            }
            return Err(ErrorCode::DerivationExhausted);
        }
        bump += 1;
    }
}

/// Derives the program authority and the holding account of `program_id`.
pub fn derive_addresses(program_id: &Address) -> (r: Result<
    (ProgramAddress, ProgramAddress),
    ErrorCode,
>)
    ensures
        r == match (
            derive_spec(Seed::Authority, *program_id),
            derive_spec(Seed::Wsol, *program_id),
        ) {
            (Ok(authority), Ok(wsol)) => Ok((authority, wsol)),
            _ => Err(ErrorCode::DerivationExhausted),
        },
{
    let authority = derive_address(Seed::Authority, program_id);
    let wsol = derive_address(Seed::Wsol, program_id);
    match (authority, wsol) {
        (Ok(a), Ok(w)) => Ok((a, w)),
        _ => Err(ErrorCode::DerivationExhausted),
    }
}

} // verus!
