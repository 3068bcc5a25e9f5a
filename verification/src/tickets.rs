use vstd::prelude::*;
use crate::pubkey::{pubkey_eq, Pubkey};

verus! {

/// Why an action ticket account was not created.
#[derive(Clone, Copy, Debug, PartialEq, Eq, Structural)]
pub enum TicketError {
    /// The account handed in is not the one that the seeds derive.
    InvalidSeeds,
}

/// The seeds that sign for a ticket account: those of its address, followed
/// by the bump as a single byte.
pub open spec fn signer_seeds_spec(address_seeds: Seq<Seq<u8>>, bump_seed: u8) -> Seq<Seq<u8>> {
    address_seeds.push(seq![bump_seed])
}

/// The byte strings of a list of seeds.
pub open spec fn seeds_view(seeds: &Vec<Vec<u8>>) -> Seq<Seq<u8>> {
    Seq::new(seeds@.len(), |i: int| seeds@[i]@)
}

/// Prepares the creation of an action ticket account.
///
/// `account_address` and `bump_seed` are what `account_address_seeds` derive;
/// `account_key` is the account handed in. Where the two addresses agree,
/// returns the seeds that sign for the new account.
pub fn create_nft_action_ticket_account(
    account_address_seeds: Vec<Vec<u8>>,
    account_address: &Pubkey,
    bump_seed: u8,
    account_key: &Pubkey,
) -> (result: Result<Vec<Vec<u8>>, TicketError>)
    ensures
        result is Ok <==> account_address@ == account_key@,
        result is Err ==> result == Err::<Vec<Vec<u8>>, TicketError>(TicketError::InvalidSeeds),
        result is Ok ==> seeds_view(&result->Ok_0) == signer_seeds_spec(
            seeds_view(&account_address_seeds),
            bump_seed,
        ),
{
    if !pubkey_eq(account_address, account_key) {
        return Err(TicketError::InvalidSeeds);
    }
    let ghost address_seeds: Seq<Seq<u8>> = seeds_view(&account_address_seeds);
    let mut signers_seeds: Vec<Vec<u8>> = account_address_seeds;
    let mut bump: Vec<u8> = Vec::new();
    bump.push(bump_seed);
    assert(bump@ =~= seq![bump_seed]);
    signers_seeds.push(bump);
    assert(seeds_view(&signers_seeds) =~= signer_seeds_spec(address_seeds, bump_seed));
    Ok(signers_seeds)
}

/// Tells whether the balance of a ticket account can be added to that of
/// the beneficiary.
pub open spec fn ticket_can_close(account_lamports: u64, beneficiary_lamports: u64) -> bool {
    account_lamports + beneficiary_lamports <= u64::MAX
}

/// Settles the balances when a ticket account is closed after its action:
/// returns the balance left in the account, which is nothing, and the
/// beneficiary's new balance, which has gained what the account held.
pub fn close_nft_action_ticket_account(account_lamports: u64, beneficiary_lamports: u64) -> (balances: (
    u64,
    u64,
))
    requires
        ticket_can_close(account_lamports, beneficiary_lamports),
    ensures
        balances.0 == 0,
        balances.1 == beneficiary_lamports + account_lamports,
{
    (0, beneficiary_lamports + account_lamports)
}

} // verus!
