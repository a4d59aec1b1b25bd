//! The protocol's global guarantees, stated and proved over the spec
//! functions that the executable functions' contracts are written in.

use vstd::prelude::*;

use crate::controller::validate_spec;
use crate::error::IssueError;
use crate::ledger::{issue_post_dest, issue_post_mint, issue_result, mint_to_spec, LedgerError};
use crate::state::{IssueInputs, MintState, TokenAccountState};
use crate::total_supply_scaled;

verus! {

/// Idempotent failure: a rejected issuance leaves both accounts exactly
/// as they were, so running the operation again on what it left behind
/// is rejected with the identical error.
pub proof fn lemma_failed_issue_repeats(i: IssueInputs, m: MintState, d: TokenAccountState)
    requires
        issue_result(i, m, d) is Err,
    ensures
        issue_post_mint(i, m, d) == m,
        issue_post_dest(i, m, d) == d,
        issue_result(i, issue_post_mint(i, m, d), issue_post_dest(i, m, d)) == issue_result(
            i,
            m,
            d,
        ),
{
}

/// Atomicity: a failed issuance never creates supply, so a mint and a
/// destination that entered empty are still empty after the failure.
pub proof fn lemma_atomic_failure(i: IssueInputs, m: MintState, d: TokenAccountState)
    requires
        m.supply == 0,
        d.amount == 0,
        issue_result(i, m, d) is Err,
    ensures
        issue_post_mint(i, m, d).supply == 0,
        issue_post_dest(i, m, d).amount == 0,
{
}

/// Irreversibility: once a mint's authority slot is empty, the
/// collaborator's `mint` operation rejects every request against that
/// mint, whatever the identity, destination or amount.
pub proof fn lemma_revoked_is_forever(
    m: MintState,
    d: TokenAccountState,
    mint_key: Seq<u8>,
    authority: Seq<u8>,
    amount: u64,
)
    requires
        m.mint_authority is None,
    ensures
        mint_to_spec(m, d, mint_key, authority, amount) == Err::<(), LedgerError>(
            LedgerError::AuthorityMismatch,
        ),
{
}

/// A successful issuance leaves its mint permanently closed: the
/// authority slot of the post state is empty, so by
/// `lemma_revoked_is_forever` no further minting is possible.
pub proof fn lemma_success_closes_mint(i: IssueInputs, m: MintState, d: TokenAccountState)
    requires
        issue_result(i, m, d) is Ok,
    ensures
        issue_post_mint(i, m, d).mint_authority is None,
{
}

/// Exact amount: a successful issuance puts exactly the scaled total
/// supply in the destination, and the mint's recorded supply equals it.
pub proof fn lemma_exact_amount(i: IssueInputs, m: MintState, d: TokenAccountState)
    requires
        issue_result(i, m, d) is Ok,
    ensures
        issue_post_dest(i, m, d).amount == total_supply_scaled(),
        issue_post_mint(i, m, d).supply == issue_post_dest(i, m, d).amount,
{
    crate::controller::lemma_total_supply_fits();
}

/// Role collapse: whenever the claimed mint authority and the payer are
/// different identities, the issuance is rejected as a mismatch, however
/// validly both may have signed.
pub proof fn lemma_role_collapse(i: IssueInputs, m: MintState, d: TokenAccountState)
    requires
        i.mint_authority.is_signer,
        i.payer.is_signer,
        i.mint_authority.key@ != i.payer.key@,
    ensures
        validate_spec(i, m, d) == Err::<u64, IssueError>(IssueError::MintAuthorityMismatch),
        issue_result(i, m, d) == Err::<(), IssueError>(IssueError::MintAuthorityMismatch),
{
}

} // verus!
