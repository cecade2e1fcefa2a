use vstd::prelude::*;

use crate::ids::{key_view, same_id, AccountId};

verus! {

/// What the host's deterministic address derivation returns for a seed tuple
/// and a program id: `None` in the statistically improbable event that no
/// bump seed is viable, otherwise the unique derived address. The result is a
/// function of the arguments alone; nothing further is assumed of it.
pub uninterp spec fn pda_of(seeds: Seq<Seq<u8>>, program_id: Seq<u8>) -> Option<Seq<u8>>;

/// The seed tag of a referrer-stats record: the bytes of "referrer_stats".
pub open spec fn referrer_stats_tag() -> Seq<u8> {
    seq![114u8, 101u8, 102u8, 101u8, 114u8, 114u8, 101u8, 114u8, 95u8, 115u8, 116u8, 97u8, 116u8, 115u8]
}

/// The seed tag of a position record: the bytes of "user_stake".
pub open spec fn user_stake_tag() -> Seq<u8> {
    seq![117u8, 115u8, 101u8, 114u8, 95u8, 115u8, 116u8, 97u8, 107u8, 101u8]
}

/// The supplied address is the one derived for this referrer's stats record.
pub open spec fn is_stats_pda(addr: Seq<u8>, referrer: Seq<u8>, program_id: Seq<u8>) -> bool {
    pda_of(seq![referrer_stats_tag(), referrer], program_id) == Some(addr)
}

/// The supplied address is the one derived for this user's position record
/// in this pool.
pub open spec fn is_stake_pda(
    addr: Seq<u8>,
    user: Seq<u8>,
    pool: Seq<u8>,
    program_id: Seq<u8>,
) -> bool {
    pda_of(seq![user_stake_tag(), user, pool], program_id) == Some(addr)
}

/// Relies on `Pubkey::try_find_program_address` (solana-pubkey): the derived
/// address is a deterministic function of the seed slices and the program id,
/// and `None` comes only when no bump seed is viable.
#[verifier::external_body]
fn find_referrer_stats_pda(referrer: &AccountId, program_id: &AccountId) -> (r: Option<
    AccountId,
>)
    ensures
        key_view(r) == pda_of(seq![referrer_stats_tag(), referrer@], program_id@),
{
    let pid = anchor_lang::prelude::Pubkey::new_from_array(program_id.bytes);
    anchor_lang::prelude::Pubkey::try_find_program_address(
        &[b"referrer_stats", &referrer.bytes],
        &pid,
    ).map(|(pk, _bump)| AccountId { bytes: pk.to_bytes() })
}

/// Relies on `Pubkey::try_find_program_address` (solana-pubkey), as
/// `find_referrer_stats_pda` does, for the position-record seed tuple.
#[verifier::external_body]
fn find_user_stake_pda(user: &AccountId, pool: &AccountId, program_id: &AccountId) -> (r: Option<
    AccountId,
>)
    ensures
        key_view(r) == pda_of(seq![user_stake_tag(), user@, pool@], program_id@),
{
    let pid = anchor_lang::prelude::Pubkey::new_from_array(program_id.bytes);
    anchor_lang::prelude::Pubkey::try_find_program_address(
        &[b"user_stake", &user.bytes, &pool.bytes],
        &pid,
    ).map(|(pk, _bump)| AccountId { bytes: pk.to_bytes() })
}

/// Re-derives the stats address for `referrer` and compares it with the
/// supplied one: the only defence against a substituted record.
pub fn verify_stats_address(supplied: &AccountId, referrer: &AccountId, program_id: &AccountId) -> (r:
    bool)
    ensures
        r == is_stats_pda(supplied@, referrer@, program_id@),
{
    match find_referrer_stats_pda(referrer, program_id) {
        Some(expected) => same_id(&expected, supplied),
        None => false,
    }
}

/// Re-derives the position address for `user` in `pool` and compares it with
/// the supplied one.
pub fn verify_stake_address(
    supplied: &AccountId,
    user: &AccountId,
    pool: &AccountId,
    program_id: &AccountId,
) -> (r: bool)
    ensures
        r == is_stake_pda(supplied@, user@, pool@, program_id@),
{
    match find_user_stake_pda(user, pool, program_id) {
        Some(expected) => same_id(&expected, supplied),
        None => false,
    }
}

} // verus!
