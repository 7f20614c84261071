use vstd::prelude::*;
use solana_program::pubkey::Pubkey;
use crate::error::CustomError;

verus! {

/// The address that `Pubkey::create_program_address` computes for `seeds`
/// under `program_id`, or `None` where it returns an error.
pub uninterp spec fn program_address_of(seeds: Seq<Seq<u8>>, program_id: Seq<u8>) -> Option<Seq<u8>>;

/// The address and bump seed that `Pubkey::try_find_program_address`
/// returns for `seeds` under `program_id`.
pub uninterp spec fn found_program_address_of(seeds: Seq<Seq<u8>>, program_id: Seq<u8>) -> Option<
    (Seq<u8>, u8),
>;

/// Relies on `Pubkey::create_program_address`: a deterministic hash of the
/// seeds and the program id, refused when it lies on the curve or when a seed
/// is longer than 32 bytes.
#[verifier::external_body]
fn create_program_address(seed: &[u8], nonce: u8, program_id: &[u8; 32]) -> (r: Option<[u8; 32]>)
    ensures
        match r {
            Some(a) => program_address_of(seq![seed@, seq![nonce]], program_id@) == Some(a@),
            None => program_address_of(seq![seed@, seq![nonce]], program_id@) is None,
        },
        seed@.len() > 32 ==> r is None,
{
    let program = Pubkey::new_from_array(*program_id);
    Pubkey::create_program_address(&[seed, &[nonce]], &program).ok().map(|a| a.to_bytes())
}

/// Relies on `Pubkey::try_find_program_address`: it tries bump seeds from 255
/// down and returns the first address that `create_program_address` accepts
/// for the seeds with the bump appended.
#[verifier::external_body]
fn try_find_program_address(seed: &[u8], program_id: &[u8; 32]) -> (r: Option<([u8; 32], u8)>)
    ensures
        match r {
            Some((a, b)) => {
                &&& found_program_address_of(seq![seed@], program_id@) == Some((a@, b))
                &&& program_address_of(seq![seed@, seq![b]], program_id@) == Some(a@)
            },
            None => found_program_address_of(seq![seed@], program_id@) is None,
        },
{
    let program = Pubkey::new_from_array(*program_id);
    Pubkey::try_find_program_address(&[seed], &program).map(|(a, b)| (a.to_bytes(), b))
}

/// The view of a derivation result.
pub open spec fn derivation_view(r: Option<([u8; 32], u8)>) -> Option<(Seq<u8>, u8)> {
    match r {
        Some((a, b)) => Some((a@, b)),
        None => None,
    }
}

/// Whether the seed bundle `seed` with `nonce` appended derives `target` under `program_id`.
pub open spec fn authorizes(program_id: Seq<u8>, seed: Seq<u8>, nonce: u8, target: Seq<u8>) -> bool {
    program_address_of(seq![seed, seq![nonce]], program_id) == Some(target)
}

/// Whether two keys hold the same bytes.
pub fn keys_equal(a: &[u8; 32], b: &[u8; 32]) -> (r: bool)
    ensures
        r == (a@ == b@),
{
    let mut i: usize = 0;
    while i < 32
        invariant
            i <= 32,
            a@.len() == 32,
            b@.len() == 32,
            forall|j: int| 0 <= j < i ==> a@[j] == b@[j],
        decreases 32 - i,
    {
        if a[i] != b[i] {
            return false;
        }
        i = i + 1;
    }
    assert(a@ =~= b@);
    true
}

/// Finds the program-derived address of `seed` under `program_id`, with the
/// nonce that makes it valid.
pub fn derive_address(program_id: &[u8; 32], seed: &[u8]) -> (r: Option<([u8; 32], u8)>)
    ensures
        derivation_view(r) == found_program_address_of(seq![seed@], program_id@),
        r matches Some((a, b)) ==> authorizes(program_id@, seed@, b, a@),
{
    try_find_program_address(seed, program_id)
}

/// Checks that `seed` with `nonce` appended derives `target` under
/// `program_id`; fails with `AuthorizationMismatch` otherwise.
pub fn authorize(program_id: &[u8; 32], seed: &[u8], nonce: u8, target: &[u8; 32]) -> (r: Result<
    (),
    CustomError,
>)
    ensures
        authorizes(program_id@, seed@, nonce, target@) ==> r is Ok,
        !authorizes(program_id@, seed@, nonce, target@) ==> r == Err::<(), CustomError>(
            CustomError::AuthorizationMismatch,
        ),
        seed@.len() > 32 ==> r == Err::<(), CustomError>(CustomError::AuthorizationMismatch),
{
    match create_program_address(seed, nonce, program_id) {
        Some(a) => {
            if keys_equal(&a, target) {
                Ok(())
            } else {
                Err(CustomError::AuthorizationMismatch)
            }
        },
        None => Err(CustomError::AuthorizationMismatch),
    }
}

/// Deriving an address is deterministic: two derivations from the same
/// program identity and seeds give the same address and nonce.
pub proof fn lemma_derivation_deterministic(
    program_id: Seq<u8>,
    seed: Seq<u8>,
    r1: Option<(Seq<u8>, u8)>,
    r2: Option<(Seq<u8>, u8)>,
)
    requires
        r1 == found_program_address_of(seq![seed], program_id),
        r2 == found_program_address_of(seq![seed], program_id),
    ensures
        r1 == r2,
{
}

} // verus!
