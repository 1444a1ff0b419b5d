//! Program-derived addresses: identities that are a function of a list of
//! seeds and the id of the program that owns them, and that no private key
//! stands behind.
use vstd::prelude::*;

use crate::state::Address;

verus! {

/// What `Pubkey::try_find_program_address` yields for these seeds and this
/// program id: the address and its bump, or nothing.
pub uninterp spec fn program_address_of(seeds: Seq<Seq<u8>>, program_id: Seq<u8>) -> Option<
    (Seq<u8>, u8),
>;

/// The byte sequences of a list of seeds.
pub open spec fn seed_views(seeds: Seq<Vec<u8>>) -> Seq<Seq<u8>> {
    seeds.map_values(|s: Vec<u8>| s@)
}

/// Relies on `Pubkey::try_find_program_address` of solana-program: the search
/// for a bump seed that puts the address off the curve is a function of the
/// seeds and the program id alone, and it returns `None` rather than panic
/// where no bump fits or the seeds are too many or too long.
#[verifier::external_body]
fn try_find_program_address(seeds: &Vec<Vec<u8>>, program_id: &Address) -> (r: Option<(Address, u8)>)
    ensures
        match r {
            Some(found) => program_address_of(seed_views(seeds@), program_id@) == Some(
                (found.0@, found.1),
            ),
            None => program_address_of(seed_views(seeds@), program_id@) is None,
        },
{
    let slices: Vec<&[u8]> = seeds.iter().map(|s| s.as_slice()).collect();
    let id = anchor_lang::prelude::Pubkey::new_from_array(program_id.bytes);
    match anchor_lang::prelude::Pubkey::try_find_program_address(&slices, &id) {
        Some((key, bump)) => Some((Address { bytes: key.to_bytes() }, bump)),
        None => None,
    }
}

/// The namespace tag of role records.
pub open spec fn user_role_tag() -> Seq<u8> {
    seq![117u8, 115u8, 101u8, 114u8, 95u8, 114u8, 111u8, 108u8, 101u8]
}

/// The tag from which the mint authority is derived.
pub open spec fn mint_authority_tag() -> Seq<u8> {
    seq![109u8, 105u8, 110u8, 116u8, 95u8, 97u8, 117u8, 116u8, 104u8, 111u8, 114u8, 105u8, 116u8, 121u8]
}

/// The tag of the program-state record.
pub open spec fn program_state_tag() -> Seq<u8> {
    seq![112u8, 114u8, 111u8, 103u8, 114u8, 97u8, 109u8, 95u8, 115u8, 116u8, 97u8, 116u8, 101u8]
}

/// The seeds of the role record of `user`.
pub open spec fn user_role_seeds(user: Address) -> Seq<Seq<u8>> {
    seq![user_role_tag(), user@]
}

/// The seeds of the mint authority.
pub open spec fn mint_authority_seeds() -> Seq<Seq<u8>> {
    seq![mint_authority_tag()]
}

/// The seeds of the program-state record.
pub open spec fn program_state_seeds() -> Seq<Seq<u8>> {
    seq![program_state_tag()]
}

/// The address of the role record of `user` under `program_id`, with its bump.
pub fn user_role_address(user: &Address, program_id: &Address) -> (r: Option<(Address, u8)>)
    ensures
        match r {
            Some(found) => program_address_of(user_role_seeds(*user), program_id@) == Some(
                (found.0@, found.1),
            ),
            None => program_address_of(user_role_seeds(*user), program_id@) is None,
        },
{
    let tag: Vec<u8> = vec![117u8, 115u8, 101u8, 114u8, 95u8, 114u8, 111u8, 108u8, 101u8];
    let key: Vec<u8> = user.to_vec();
    let seeds: Vec<Vec<u8>> = vec![tag, key];
    proof {
        assert(seed_views(seeds@) =~= user_role_seeds(*user));
    }
    try_find_program_address(&seeds, program_id)
}

/// The mint authority of the program `program_id`, with its bump.
pub fn mint_authority_address(program_id: &Address) -> (r: Option<(Address, u8)>)
    ensures
        match r {
            Some(found) => program_address_of(mint_authority_seeds(), program_id@) == Some(
                (found.0@, found.1),
            ),
            None => program_address_of(mint_authority_seeds(), program_id@) is None,
        },
{
    let tag: Vec<u8> = vec![109u8, 105u8, 110u8, 116u8, 95u8, 97u8, 117u8, 116u8, 104u8, 111u8, 114u8, 105u8, 116u8, 121u8];
    let seeds: Vec<Vec<u8>> = vec![tag];
    proof {
        assert(seed_views(seeds@) =~= mint_authority_seeds());
    }
    try_find_program_address(&seeds, program_id)
}

/// The program-state record's address under `program_id`, with its bump.
pub fn program_state_address(program_id: &Address) -> (r: Option<(Address, u8)>)
    ensures
        match r {
            Some(found) => program_address_of(program_state_seeds(), program_id@) == Some(
                (found.0@, found.1),
            ),
            None => program_address_of(program_state_seeds(), program_id@) is None,
        },
{
    let tag: Vec<u8> = vec![112u8, 114u8, 111u8, 103u8, 114u8, 97u8, 109u8, 95u8, 115u8, 116u8, 97u8, 116u8, 101u8];
    let seeds: Vec<Vec<u8>> = vec![tag];
    proof {
        assert(seed_views(seeds@) =~= program_state_seeds());
    }
    try_find_program_address(&seeds, program_id)
}

} // verus!
