//! A model of the token-management collaborator: the delegated `mint`
//! and `revokeMintAuthority` operations as verified transitions on the
//! plain-value account states, and the full issuance run against them.
//!
//! The model lets the controller logic be exercised and proved without a
//! real token-management backend, as one operation per delegated call
//! with the contract the protocol relies on: minting requires the
//! current mint authority, and revocation empties the authority slot.

use vstd::prelude::*;

use crate::controller::{check_revocation, validate, validate_spec};
use crate::error::IssueError;
use crate::state::{key_eq, opt_key, IssueInputs, KeyId, MintState, TokenAccountState};
use crate::total_supply_scaled;

verus! {

/// Why the model token-management program rejected a delegated
/// operation.
#[derive(Clone, Copy, Debug, PartialEq, Eq, Structural)]
pub enum LedgerError {
    /// The signer does not hold the mint authority.
    AuthorityMismatch,
    /// The destination account is not bound to the mint being issued.
    WrongMint,
    /// A balance or the supply would exceed the numeric range.
    BalanceOverflow,
}

/// The outcome of the model collaborator's `mint` operation: it rejects
/// a signer that does not hold the current mint authority, a destination
/// bound to another mint, and an amount that would overflow the supply
/// or the destination balance.
pub open spec fn mint_to_spec(
    m: MintState,
    d: TokenAccountState,
    mint_key: Seq<u8>,
    authority: Seq<u8>,
    amount: u64,
) -> Result<(), LedgerError> {
    if opt_key(m.mint_authority) != Some(authority) {
        Err(LedgerError::AuthorityMismatch)
    } else if d.mint@ != mint_key {
        Err(LedgerError::WrongMint)
    } else if m.supply + amount > u64::MAX || d.amount + amount > u64::MAX {
        Err(LedgerError::BalanceOverflow)
    } else {
        Ok(())
    }
}

/// The model collaborator's `mint` operation: creates `amount` new
/// tokens in `d` against mint `m`. Atomic: on failure nothing changes.
pub fn token_mint_to(
    mint_key: &KeyId,
    m: &mut MintState,
    d: &mut TokenAccountState,
    authority: &KeyId,
    amount: u64,
) -> (r: Result<(), LedgerError>)
    ensures
        r == mint_to_spec(*old(m), *old(d), mint_key@, authority@, amount),
        r is Ok ==> *final(m) == (MintState {
            supply: (old(m).supply + amount) as u64,
            ..*old(m)
        }),
        r is Ok ==> *final(d) == (TokenAccountState {
            amount: (old(d).amount + amount) as u64,
            ..*old(d)
        }),
        r is Err ==> *final(m) == *old(m) && *final(d) == *old(d),
{
    let auth_ok = match &m.mint_authority {
        Some(k) => key_eq(k, authority),
        None => false,
    };
    if !auth_ok {
        return Err(LedgerError::AuthorityMismatch);
    }
    if !key_eq(&d.mint, mint_key) {
        return Err(LedgerError::WrongMint);
    }
    if amount > u64::MAX - m.supply || amount > u64::MAX - d.amount {
        return Err(LedgerError::BalanceOverflow);
    }
    m.supply = m.supply + amount;
    d.amount = d.amount + amount;
    Ok(())
}

/// The model collaborator's `revokeMintAuthority` operation: empties the
/// authority slot, provided the signer currently holds it.
pub fn token_revoke_authority(m: &mut MintState, authority: &KeyId) -> (r: Result<
    (),
    LedgerError,
>)
    ensures
        r is Ok <==> opt_key(old(m).mint_authority) == Some(authority@),
        r is Ok ==> *final(m) == (MintState { mint_authority: None, ..*old(m) }),
        r is Err ==> *final(m) == *old(m) && r == Err::<(), LedgerError>(
            LedgerError::AuthorityMismatch,
        ),
{
    let auth_ok = match &m.mint_authority {
        Some(k) => key_eq(k, authority),
        None => false,
    };
    if !auth_ok {
        return Err(LedgerError::AuthorityMismatch);
    }
    m.mint_authority = None;
    Ok(())
}

/// What the whole issuance returns: success exactly when every
/// precondition gate passes, else the first failing gate's error.
pub open spec fn issue_result(i: IssueInputs, m: MintState, d: TokenAccountState) -> Result<
    (),
    IssueError,
> {
    match validate_spec(i, m, d) {
        Ok(_) => Ok(()),
        Err(e) => Err(e),
    }
}

/// The mint state the issuance leaves behind: on success the full scaled
/// supply with the authority slot emptied, on failure the entry state.
pub open spec fn issue_post_mint(i: IssueInputs, m: MintState, d: TokenAccountState) -> MintState {
    if validate_spec(i, m, d) is Ok {
        MintState {
            supply: total_supply_scaled() as u64,
            mint_authority: None,
            ..m
        }
    } else {
        m
    }
}

/// The destination state the issuance leaves behind: on success the full
/// scaled supply, on failure the entry state.
pub open spec fn issue_post_dest(
    i: IssueInputs,
    m: MintState,
    d: TokenAccountState,
) -> TokenAccountState {
    if validate_spec(i, m, d) is Ok {
        TokenAccountState { amount: total_supply_scaled() as u64, ..d }
    } else {
        d
    }
}

/// The whole protocol against the model collaborator: validate, mint the
/// scaled supply, revoke the mint authority, and confirm from the final
/// state that the authority really is gone.
pub fn issue_fixed_supply(
    inputs: &IssueInputs,
    mint: &mut MintState,
    dest: &mut TokenAccountState,
) -> (r: Result<(), IssueError>)
    ensures
        r == issue_result(*inputs, *old(mint), *old(dest)),
        *final(mint) == issue_post_mint(*inputs, *old(mint), *old(dest)),
        *final(dest) == issue_post_dest(*inputs, *old(mint), *old(dest)),
        r is Ok ==> final(dest).amount == total_supply_scaled() && final(mint).supply
            == total_supply_scaled() && final(mint).mint_authority is None,
        r is Err ==> *final(mint) == *old(mint) && *final(dest) == *old(dest),
{
    proof {
        crate::controller::lemma_total_supply_fits();
    }
    let amount = match validate(inputs, mint, dest) {
        Ok(v) => v,
        Err(e) => {
            return Err(e);
        },
    };
    match token_mint_to(&inputs.mint_acct.key, mint, dest, &inputs.mint_authority.key, amount) {
        Ok(_) => (),
        Err(_) => {
            return Err(IssueError::MintStepFailed);
        },
    }
    match token_revoke_authority(mint, &inputs.mint_authority.key) {
        Ok(_) => (),
        Err(_) => {
            return Err(IssueError::RevokeStepFailed);
        },
    }
    match check_revocation(mint) {
        Ok(_) => Ok(()),
        Err(e) => Err(e),
    }
}

} // verus!
