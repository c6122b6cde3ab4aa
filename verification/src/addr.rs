//! Deterministic derivation of a record's storage address.
//!
//! A record's storage unit lives at the address derived from the seed
//! tuple (record-type tag, record id in little-endian bytes, owning
//! authority, discriminant byte).  Derivation is a search: discriminant
//! candidates are tried from 255 downward until the seeds hash to an
//! address that lies off the runtime's signing curve, so that no
//! external signer can ever authorize actions on the unit.
//! Recomputation from a stored discriminant is a single, non-searching
//! hash whose outcome is checked, never trusted.
use vstd::prelude::*;
use crate::Task;

verus! {

/// The record-type tag, the bytes of "task": first seed of every
/// derivation.
pub open spec fn task_tag() -> Seq<u8> {
    seq![116u8, 97u8, 115u8, 107u8]
}

/// The record-type tag as runtime bytes.
pub fn task_tag_bytes() -> (r: Vec<u8>)
    ensures
        r@ == task_tag(),
{
    let mut r: Vec<u8> = Vec::new();
    r.push(116u8);
    r.push(97u8);
    r.push(115u8);
    r.push(107u8);
    proof {
        assert(r@ =~= task_tag());
    }
    r
}

/// What the runtime's address derivation returns for the seed tuple
/// (tag, id, authority, discriminant) under a program: the derived
/// address when the hash of the seeds lies off the signing curve, and
/// nothing when it does not.  The outcome depends on the arguments
/// alone.
pub uninterp spec fn pda_candidate(tag: Seq<u8>, id: u64, authority: Seq<u8>, program: Seq<u8>, bump: u8) -> Option<Seq<u8>>;

/// The derivation outcome for a task record's seeds.
pub open spec fn task_candidate(program: Seq<u8>, id: u64, authority: Seq<u8>, bump: u8) -> Option<
    Seq<u8>,
> {
    pda_candidate(task_tag(), id, authority, program, bump)
}

/// A discriminant is canonical when it yields an address and every
/// larger discriminant yields none: the search from 255 downward stops
/// exactly there.
pub open spec fn is_canonical_bump(program: Seq<u8>, id: u64, authority: Seq<u8>, bump: u8) -> bool {
    &&& task_candidate(program, id, authority, bump) is Some
    &&& forall|b: u8| bump < b ==> task_candidate(program, id, authority, b) is None
}

/// Two canonical discriminants for the same seeds are the same.
pub proof fn lemma_canonical_bump_unique(program: Seq<u8>, id: u64, authority: Seq<u8>, b1: u8, b2: u8)
    requires
        is_canonical_bump(program, id, authority, b1),
        is_canonical_bump(program, id, authority, b2),
    ensures
        b1 == b2,
{
    if b1 < b2 {
        assert(task_candidate(program, id, authority, b2) is None);
    }
    if b2 < b1 {
        assert(task_candidate(program, id, authority, b1) is None);
    }
}

/// Relies on solana_program::pubkey::Pubkey::create_program_address:
/// it hashes the given seeds, the program id and a fixed marker, and
/// returns the hash as the address exactly when that hash is not a
/// valid curve point; the outcome is a function of the arguments
/// alone.
#[verifier::external_body]
fn solana_create_program_address(tag: &Vec<u8>, id: u64, authority: &[u8; 32], program: &[u8; 32], bump: u8) -> (r: Option<[u8; 32]>)
    ensures
        (match r {
            Some(a) => pda_candidate(tag@, id, authority@, program@, bump) == Some(a@),
            None => pda_candidate(tag@, id, authority@, program@, bump) is None,
        }),
{
    let program_id = solana_program::pubkey::Pubkey::new_from_array(*program);
    let id_bytes = id.to_le_bytes();
    let seeds: &[&[u8]] = &[tag.as_slice(), &id_bytes, authority, &[bump]];
    match solana_program::pubkey::Pubkey::create_program_address(seeds, &program_id) {
        Ok(pk) => Some(pk.to_bytes()),
        Err(_) => None,
    }
}

/// Relies on solana_program::pubkey::Pubkey::try_find_program_address:
/// it appends discriminant candidates from 255 down to 1 to the given
/// seeds and returns the first address that create_program_address
/// accepts, or nothing when no candidate is accepted.
#[verifier::external_body]
fn solana_try_find_program_address(tag: &Vec<u8>, id: u64, authority: &[u8; 32], program: &[u8; 32]) -> (r: Option<([u8; 32], u8)>)
    ensures
        (match r {
            Some(p) => {
                &&& pda_candidate(tag@, id, authority@, program@, p.1) == Some(p.0@)
                &&& p.1 >= 1
                &&& forall|b: u8| p.1 < b ==> pda_candidate(tag@, id, authority@, program@, b) is None
            },
            None => forall|b: u8|
                1 <= b ==> pda_candidate(tag@, id, authority@, program@, b) is None,
        }),
{
    let program_id = solana_program::pubkey::Pubkey::new_from_array(*program);
    let id_bytes = id.to_le_bytes();
    let seeds: &[&[u8]] = &[tag.as_slice(), &id_bytes, authority];
    match solana_program::pubkey::Pubkey::try_find_program_address(seeds, &program_id) {
        Some((pk, bump)) => Some((pk.to_bytes(), bump)),
        None => None,
    }
}

/// Search for the canonical (address, discriminant) pair of a record,
/// or report that no discriminant from 1 to 255 yields an address.
pub fn derive_task_address(program_id: &[u8; 32], id: u64, authority: &[u8; 32]) -> (r: Option<
    ([u8; 32], u8),
>)
    ensures
        (match r {
            Some(p) => {
                &&& is_canonical_bump(program_id@, id, authority@, p.1)
                &&& task_candidate(program_id@, id, authority@, p.1) == Some(p.0@)
                &&& p.1 >= 1
            },
            None => forall|b: u8| 1 <= b ==> task_candidate(program_id@, id, authority@, b) is None,
        }),
{
    let tag = task_tag_bytes();
    solana_try_find_program_address(&tag, id, authority, program_id)
}

impl Task {
    /// Recompute the storage address for the given seeds and
    /// discriminant; nothing when the discriminant yields no address.
    pub fn try_create_pda(program_id: &[u8; 32], id: u64, authority: &[u8; 32], bump: u8) -> (r:
        Option<[u8; 32]>)
        ensures
            (match r {
                Some(a) => task_candidate(program_id@, id, authority@, bump) == Some(a@),
                None => task_candidate(program_id@, id, authority@, bump) is None,
            }),
    {
        let tag = task_tag_bytes();
        solana_create_program_address(&tag, id, authority, program_id, bump)
    }

    /// Recompute the storage address for seeds whose discriminant is
    /// known to yield one.
    pub fn create_pda(program_id: &[u8; 32], id: u64, authority: &[u8; 32], bump: u8) -> (r: [u8; 32])
        requires
            task_candidate(program_id@, id, authority@, bump) is Some,
        ensures
            Some(r@) == task_candidate(program_id@, id, authority@, bump),
    {
        match Self::try_create_pda(program_id, id, authority, bump) {
            Some(a) => a,
            None => vstd::pervasive::unreached(),
        }
    }
}

/// Compare two addresses byte for byte.
pub fn address_eq(a: &[u8; 32], b: &[u8; 32]) -> (r: bool)
    ensures
        r == (a@ == b@),
{
    let mut i: usize = 0;
    while i < 32
        invariant
            i <= 32,
            forall|j: int| 0 <= j < i ==> a@[j] == b@[j],
        decreases 32 - i,
    {
        if a[i] != b[i] {
            return false;
        }
        i = i + 1;
    }
    proof {
        assert(a@ =~= b@);
    }
    true
}

/// Derivation is deterministic: whenever the search finds an address
/// and discriminant for a pair of record id and authority, pure
/// recomputation from that discriminant returns the same address.
pub fn rederive_matches_derive(program_id: &[u8; 32], id: u64, authority: &[u8; 32]) -> (consistent:
    bool)
    ensures
        consistent,
{
    match derive_task_address(program_id, id, authority) {
        Some((addr, bump)) => {
            let again = Task::create_pda(program_id, id, authority, bump);
            address_eq(&again, &addr)
        }
        None => true,
    }
}

} // verus!
