use solana_program::pubkey::Pubkey;
use vstd::prelude::*;

verus! {

/// A 32-byte ledger address.
#[derive(Debug, Clone, Copy, Eq)]
pub struct Address {
    pub bytes: [u8; 32],
}

impl PartialEq for Address {
    fn eq(&self, other: &Address) -> (r: bool) {
        let mut i: usize = 0;
        while i < 32
            invariant
                0 <= i <= 32,
                forall|j: int| 0 <= j < i ==> self.bytes[j] == other.bytes[j],
            decreases 32 - i,
        {
            if self.bytes[i] != other.bytes[i] {
                return false;
            }
            i += 1;
        }
        assert(self.bytes =~= other.bytes);
        true
    }
}

impl vstd::std_specs::cmp::PartialEqSpecImpl for Address {
    open spec fn obeys_eq_spec() -> bool {
        true
    }

    open spec fn eq_spec(&self, other: &Address) -> bool {
        *self == *other
    }
}

impl Address {
    pub fn new(bytes: [u8; 32]) -> (r: Address)
        ensures
            r.bytes == bytes,
    {
        Address { bytes }
    }

    /// Two addresses are the same value exactly when their bytes agree.
    pub proof fn lemma_bytes_determine(a: Address, b: Address)
        requires
            a.bytes@ == b.bytes@,
        ensures
            a == b,
    {
        assert(a.bytes =~= b.bytes) by {
            assert forall|i: int| 0 <= i < 32 implies a.bytes[i] == b.bytes[i] by {
                assert(a.bytes@[i] == b.bytes@[i]);
            }
        }
    }
}

/// Bytes of the token program's address.
pub open spec fn token_program_bytes() -> Seq<u8> {
    seq![
        6u8, 221, 246, 225, 215, 101, 161, 147, 217, 203, 225, 70, 206, 235, 121, 172,
        28, 180, 133, 237, 95, 91, 55, 145, 58, 140, 245, 133, 126, 255, 0, 169,
    ]
}

/// Bytes of the system program's address: all zero.
pub open spec fn system_program_bytes() -> Seq<u8> {
    Seq::new(32, |i: int| 0u8)
}

/// Relies on spl_token::id: the token program's fixed address.
#[verifier::external_body]
pub(crate) fn token_program_id() -> (r: Address)
    ensures
        r.bytes@ == token_program_bytes(),
{
    Address { bytes: spl_token::id().to_bytes() }
}

/// Relies on solana_program::system_program::id: the system program's fixed
/// address, thirty-two zero bytes.
#[verifier::external_body]
pub(crate) fn system_program_id() -> (r: Address)
    ensures
        r.bytes@ == system_program_bytes(),
{
    Address { bytes: solana_program::system_program::id().to_bytes() }
}

/// The program address and bump that the host derives from a list of seeds
/// and a program id, when one exists.
pub uninterp spec fn program_address(seeds: Seq<Seq<u8>>, program_id: Seq<u8>) -> Option<(Seq<u8>, u8)>;

/// Relies on Pubkey::try_find_program_address: a search over bump seeds whose
/// outcome depends only on the seeds and the program id.
#[verifier::external_body]
fn try_find_program_address(seed: &[u8], key: &Address, program_id: &Address) -> (r: Option<(Address, u8)>)
    ensures
        match r {
            Some((a, bump)) => program_address(seq![seed@, key.bytes@], program_id.bytes@) == Some((a.bytes@, bump)),
            None => program_address(seq![seed@, key.bytes@], program_id.bytes@) is None,
        },
{
    let program = Pubkey::new_from_array(program_id.bytes);
    match Pubkey::try_find_program_address(&[seed, &key.bytes], &program) {
        Some((found, bump)) => Some((Address { bytes: found.to_bytes() }, bump)),
        None => None,
    }
}

/// The namespace of a derived address.
#[derive(Debug, Clone, Copy, PartialEq, Eq, Structural)]
pub enum SeedTag {
    /// The swap record, seeded by the bytes of "swap".
    Swap,
    /// The custody token account, seeded by the bytes of "escrow".
    Escrow,
}

impl SeedTag {
    pub open spec fn seed_spec(self) -> Seq<u8> {
        match self {
            SeedTag::Swap => seq![115u8, 119, 97, 112],
            SeedTag::Escrow => seq![101u8, 115, 99, 114, 111, 119],
        }
    }

    /// The seed bytes: "swap" or "escrow".
    pub fn seed(&self) -> (r: Vec<u8>)
        ensures
            r@ == self.seed_spec(),
    {
        match self {
            SeedTag::Swap => vec![115u8, 119, 97, 112],
            SeedTag::Escrow => vec![101u8, 115, 99, 114, 111, 119],
        }
    }
}

/// Whether `r` is what deriving from `tag`, `key` and `program_id` gives.
pub open spec fn is_derivation(r: Option<(Address, u8)>, tag: SeedTag, key: Address, program_id: Address) -> bool {
    let found = program_address(seq![tag.seed_spec(), key.bytes@], program_id.bytes@);
    match r {
        Some((a, bump)) => found == Some((a.bytes@, bump)),
        None => found is None,
    }
}

/// Derives the address and bump of `tag`'s namespace for `key` under
/// `program_id`.
pub fn derive_address(tag: SeedTag, key: &Address, program_id: &Address) -> (r: Option<(Address, u8)>)
    ensures
        is_derivation(r, tag, *key, *program_id),
{
    let seed = tag.seed();
    try_find_program_address(seed.as_slice(), key, program_id)
}

/// Derivation is deterministic: two derivations from the same tag, key and
/// program yield the same address and the same bump.
pub proof fn lemma_derivation_deterministic(
    tag: SeedTag,
    key: Address,
    program_id: Address,
    r1: Option<(Address, u8)>,
    r2: Option<(Address, u8)>,
)
    requires
        is_derivation(r1, tag, key, program_id),
        is_derivation(r2, tag, key, program_id),
    ensures
        r1 == r2,
{
    if let (Some((a1, _)), Some((a2, _))) = (r1, r2) {
        Address::lemma_bytes_determine(a1, a2);
    }
}

} // verus!
