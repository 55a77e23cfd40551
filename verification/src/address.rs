//! Derivation of holding addresses from an owner's identity and a seed.
//!
//! The address of a switch is derived from the tag `switch`, the owner's
//! identity and the seed; the address of its escrow from the tag `escrow` and
//! the switch's address. A derivation yields the address together with a bump,
//! which is stored so that the address can later be computed again and
//! compared without a new search.

use vstd::prelude::*;
use vstd::utf8::encode_utf8;
use crate::identity::Identity;

verus! {

/// Largest number of seeds that a derivation accepts, the bump included.
pub const MAX_SEEDS: usize = 16;

/// Largest number of bytes in one seed.
pub const MAX_SEED_LEN: usize = 32;

/// The address that `Pubkey::create_program_address` gives for these seeds
/// under this program, or `None` where it gives an error.
pub uninterp spec fn program_address(seeds: Seq<Seq<u8>>, program: Seq<u8>) -> Option<Seq<u8>>;

/// The address and bump that `Pubkey::try_find_program_address` gives for
/// these seeds under this program, or `None` where it finds none.
pub uninterp spec fn found_address(seeds: Seq<Seq<u8>>, program: Seq<u8>) -> Option<(Seq<u8>, u8)>;

/// The seeds are few enough and each is short enough to be derived from.
pub open spec fn seeds_fit(seeds: Seq<Seq<u8>>) -> bool {
    &&& seeds.len() <= MAX_SEEDS
    &&& forall|i: int| 0 <= i < seeds.len() ==> (#[trigger] seeds[i]).len() <= MAX_SEED_LEN
}

/// The seeds as sequences of bytes.
pub open spec fn seed_views(seeds: Seq<Vec<u8>>) -> Seq<Seq<u8>> {
    seeds.map_values(|s: Vec<u8>| s@)
}

/// An optional address as its bytes.
pub open spec fn address_view(a: Option<Identity>) -> Option<Seq<u8>> {
    match a {
        Some(k) => Some(k@),
        None => None,
    }
}

/// An optional address and bump, the address as its bytes.
pub open spec fn found_view(a: Option<(Identity, u8)>) -> Option<(Seq<u8>, u8)> {
    match a {
        Some((k, bump)) => Some((k@, bump)),
        None => None,
    }
}

/// Calls `Pubkey::create_program_address` of `anchor_lang` (solana-program).
/// Not proved: that the result is `program_address` of the arguments, and
/// that seeds which do not fit give no address (the outside function then
/// returns `MaxSeedLengthExceeded`).
#[verifier::external_body]
fn create_program_address(seeds: &Vec<Vec<u8>>, program: &Identity) -> (r: Option<Identity>)
    ensures
        address_view(r) == program_address(seed_views(seeds@), program@),
        !seeds_fit(seed_views(seeds@)) ==> r is None,
{
    let slices: Vec<&[u8]> = seeds.iter().map(|s| s.as_slice()).collect();
    let program_id = anchor_lang::prelude::Pubkey::new_from_array(program.bytes);
    match anchor_lang::prelude::Pubkey::create_program_address(&slices, &program_id) {
        Ok(key) => Some(Identity { bytes: key.to_bytes() }),
        Err(_) => None,
    }
}

/// Calls `Pubkey::try_find_program_address` of `anchor_lang` (solana-program).
/// Not proved: that the result is `found_address` of the arguments; that an
/// address it finds is the one that `Pubkey::create_program_address` gives
/// for the same seeds followed by the one-byte seed holding the bump; and
/// that it finds none where the seeds, with one byte more for the bump, do
/// not fit.
#[verifier::external_body]
fn try_find_program_address(seeds: &Vec<Vec<u8>>, program: &Identity) -> (r: Option<
    (Identity, u8),
>)
    ensures
        found_view(r) == found_address(seed_views(seeds@), program@),
        r matches Some((a, bump)) ==> program_address(
            seed_views(seeds@).push(seq![bump]),
            program@,
        ) == Some(a@),
        !seeds_fit(seed_views(seeds@).push(seq![0u8])) ==> r is None,
{
    let slices: Vec<&[u8]> = seeds.iter().map(|s| s.as_slice()).collect();
    let program_id = anchor_lang::prelude::Pubkey::new_from_array(program.bytes);
    match anchor_lang::prelude::Pubkey::try_find_program_address(&slices, &program_id) {
        Some((key, bump)) => Some((Identity { bytes: key.to_bytes() }, bump)),
        None => None,
    }
}

/// The bytes of the tag `switch`.
pub open spec fn switch_tag() -> Seq<u8> {
    seq![115u8, 119u8, 105u8, 116u8, 99u8, 104u8]
}

/// The bytes of the tag `escrow`.
pub open spec fn escrow_tag() -> Seq<u8> {
    seq![101u8, 115u8, 99u8, 114u8, 111u8, 119u8]
}

/// The seeds of a switch's address: the tag, the owner, the seed's bytes.
pub open spec fn switch_seeds(owner: Identity, seed: Seq<char>) -> Seq<Seq<u8>> {
    seq![switch_tag(), owner@, encode_utf8(seed)]
}

/// The seeds of an escrow's address: the tag, the switch's address.
pub open spec fn escrow_seeds(switch: Identity) -> Seq<Seq<u8>> {
    seq![escrow_tag(), switch@]
}

/// The address and bump of the switch of `owner` and `seed`.
pub open spec fn switch_address(owner: Identity, seed: Seq<char>, program: Identity) -> Option<
    (Seq<u8>, u8),
> {
    found_address(switch_seeds(owner, seed), program@)
}

/// The address of the switch of `owner` and `seed` at a given bump.
pub open spec fn switch_address_at(
    owner: Identity,
    seed: Seq<char>,
    bump: u8,
    program: Identity,
) -> Option<Seq<u8>> {
    program_address(switch_seeds(owner, seed).push(seq![bump]), program@)
}

/// The address and bump of the escrow of the switch at `switch`.
pub open spec fn escrow_address(switch: Identity, program: Identity) -> Option<(Seq<u8>, u8)> {
    found_address(escrow_seeds(switch), program@)
}

/// The address of the escrow of the switch at `switch` at a given bump.
pub open spec fn escrow_address_at(switch: Identity, bump: u8, program: Identity) -> Option<
    Seq<u8>,
> {
    program_address(escrow_seeds(switch).push(seq![bump]), program@)
}

fn switch_tag_bytes() -> (r: Vec<u8>)
    ensures
        r@ == switch_tag(),
{
    let r: Vec<u8> = vec![115u8, 119u8, 105u8, 116u8, 99u8, 104u8];
    assert(r@ =~= switch_tag());
    r
}

fn escrow_tag_bytes() -> (r: Vec<u8>)
    ensures
        r@ == escrow_tag(),
{
    let r: Vec<u8> = vec![101u8, 115u8, 99u8, 114u8, 111u8, 119u8];
    assert(r@ =~= escrow_tag());
    r
}

fn switch_seed_list(owner: &Identity, seed: &str) -> (r: Vec<Vec<u8>>)
    ensures
        seed_views(r@) == switch_seeds(*owner, seed@),
{
    let mut seeds: Vec<Vec<u8>> = Vec::new();
    seeds.push(switch_tag_bytes());
    seeds.push(owner.to_vec());
    seeds.push(seed.as_bytes_vec());
    assert(seed_views(seeds@) =~= switch_seeds(*owner, seed@));
    seeds
}

fn escrow_seed_list(switch: &Identity) -> (r: Vec<Vec<u8>>)
    ensures
        seed_views(r@) == escrow_seeds(*switch),
{
    let mut seeds: Vec<Vec<u8>> = Vec::new();
    seeds.push(escrow_tag_bytes());
    seeds.push(switch.to_vec());
    assert(seed_views(seeds@) =~= escrow_seeds(*switch));
    seeds
}

fn with_bump(seeds: Vec<Vec<u8>>, bump: u8) -> (r: Vec<Vec<u8>>)
    ensures
        seed_views(r@) == seed_views(seeds@).push(seq![bump]),
{
    let mut seeds = seeds;
    let ghost before = seeds@;
    let last: Vec<u8> = vec![bump];
    assert(last@ =~= seq![bump]);
    seeds.push(last);
    assert(seed_views(seeds@) =~= seed_views(before).push(seq![bump]));
    seeds
}

/// Derives the address of the switch of `owner` and `seed`, with its bump.
/// Gives `None` where no address can be derived: always so for a seed of
/// more than 32 bytes.
pub fn derive_switch(owner: &Identity, seed: &str, program: &Identity) -> (r: Option<(Identity, u8)>)
    ensures
        found_view(r) == switch_address(*owner, seed@, *program),
        r matches Some((a, bump)) ==> switch_address_at(*owner, seed@, bump, *program) == Some(
            a@,
        ),
        encode_utf8(seed@).len() > MAX_SEED_LEN ==> r is None,
{
    let seeds = switch_seed_list(owner, seed);
    proof {
        if encode_utf8(seed@).len() > MAX_SEED_LEN {
            let s = seed_views(seeds@).push(seq![0u8]);
            assert(s[2] == encode_utf8(seed@));
            assert(!seeds_fit(s));
        }
    }
    try_find_program_address(&seeds, program)
}

/// Derives the address of the escrow of the switch at `switch`, with its bump.
pub fn derive_escrow(switch: &Identity, program: &Identity) -> (r: Option<(Identity, u8)>)
    ensures
        found_view(r) == escrow_address(*switch, *program),
        r matches Some((a, bump)) ==> escrow_address_at(*switch, bump, *program) == Some(a@),
{
    let seeds = escrow_seed_list(switch);
    try_find_program_address(&seeds, program)
}

/// Computes again the address of the switch of `owner` and `seed` from a
/// stored bump.
pub fn rederive_switch(owner: &Identity, seed: &str, bump: u8, program: &Identity) -> (r: Option<
    Identity,
>)
    ensures
        address_view(r) == switch_address_at(*owner, seed@, bump, *program),
{
    let seeds = with_bump(switch_seed_list(owner, seed), bump);
    create_program_address(&seeds, program)
}

/// Computes again the address of the escrow of the switch at `switch` from a
/// stored bump.
pub fn rederive_escrow(switch: &Identity, bump: u8, program: &Identity) -> (r: Option<Identity>)
    ensures
        address_view(r) == escrow_address_at(*switch, bump, *program),
{
    let seeds = with_bump(escrow_seed_list(switch), bump);
    create_program_address(&seeds, program)
}

} // verus!
