//! The issuance controller's decision logic: the precondition gates, the
//! overflow-checked supply scaling, and the post-condition check on the
//! revoked authority.

use vstd::prelude::*;

use crate::error::IssueError;
use crate::state::{opt_key, key_eq, IssueInputs, KeyId, MintState, TokenAccountState};
use crate::{pow10, DECIMALS, TOTAL_SUPPLY};

verus! {

proof fn lemma_pow10_pos(n: nat)
    ensures
        pow10(n) >= 1,
    decreases n,
{
    if n > 0 {
        lemma_pow10_pos((n - 1) as nat);
    }
}

proof fn lemma_pow10_adds(a: nat, b: nat)
    ensures
        pow10(a + b) == pow10(a) * pow10(b),
    decreases a,
{
    if a > 0 {
        let a1 = (a - 1) as nat;
        lemma_pow10_adds(a1, b);
        assert(pow10(a) == 10 * pow10(a1));
        assert((a + b - 1) as nat == a1 + b);
        assert(pow10(a + b) == 10 * pow10(a1 + b));
        assert(pow10(a + b) == pow10(a) * pow10(b)) by (nonlinear_arith)
            requires
                pow10(a + b) == 10 * pow10(a1 + b),
                pow10(a1 + b) == pow10(a1) * pow10(b),
                pow10(a) == 10 * pow10(a1),
        ;
    } else {
        assert(pow10(a) == 1);
        assert(pow10(a + b) == pow10(b));
        assert(1 * pow10(b) == pow10(b)) by (nonlinear_arith);
    }
}

proof fn lemma_mul_ge(b: int, p: int, q: int)
    by (nonlinear_arith)
    requires
        b >= 0,
        p >= 0,
        q >= 1,
    ensures
        b * (p * q) >= b * p,
{
}

proof fn lemma_mul_shuffle(b: int, p: int)
    by (nonlinear_arith)
    ensures
        b * (10 * p) == (b * p) * 10,
{
}

/// With the protocol's fixed constants, the scaled total supply is
/// exactly `5 * 10^17`, which fits the supply's numeric range.
pub proof fn lemma_total_supply_fits()
    ensures
        crate::total_supply_scaled() == 500_000_000_000_000_000,
{
    reveal_with_fuel(pow10, 10);
    assert(pow10(DECIMALS as nat) == 1_000_000_000);
}

/// Step A of the protocol: `base` scaled by `10^decimals`, with
/// overflow-checked multiplication. Returns `None` exactly when the
/// scaled value does not fit the supply's numeric range.
pub fn scaled_supply(base: u64, decimals: u8) -> (r: Option<u64>)
    ensures
        r is Some <==> base * pow10(decimals as nat) <= u64::MAX,
        r matches Some(v) ==> v == base * pow10(decimals as nat),
{
    let mut acc: u64 = base;
    let mut i: u8 = 0;
    proof {
        assert(pow10(0) == 1);
    }
    while i < decimals
        invariant
            i <= decimals,
            acc == base * pow10(i as nat),
        decreases decimals - i,
    {
        proof {
            lemma_mul_shuffle(base as int, pow10(i as nat) as int);
        }
        if acc > u64::MAX / 10 {
            proof {
                let b = base as int;
                let d = decimals as nat;
                let k = (d - i - 1) as nat;
                lemma_pow10_adds((i + 1) as nat, k);
                lemma_pow10_pos(k);
                lemma_mul_ge(b, pow10((i + 1) as nat) as int, pow10(k) as int);
                assert(b * pow10(d) >= b * pow10((i + 1) as nat));
                assert(b * pow10((i + 1) as nat) == acc * 10);
            }
            return None;
        }
        acc = acc * 10;
        i = i + 1;
    }
    Some(acc)
}

/// The mint-state gate: initialized, expected decimals, zero supply, no
/// freeze authority, and the mint authority equal to the claimed signer.
pub open spec fn mint_entry_ok(m: MintState, authority: KeyId) -> bool {
    &&& m.initialized
    &&& m.decimals == DECIMALS
    &&& m.supply == 0
    &&& m.freeze_authority is None
    &&& opt_key(m.mint_authority) == Some(authority@)
}

/// The destination-account gate: bound to the mint under issuance, empty,
/// and free of delegates and close authorities.
pub open spec fn dest_entry_ok(d: TokenAccountState, mint_key: KeyId) -> bool {
    &&& d.mint@ == mint_key@
    &&& d.amount == 0
    &&& d.delegate is None
    &&& d.close_authority is None
}

/// The first failure among the gates that look only at the invocation
/// itself: both signatures present, the two signer roles collapsed to
/// one identity, both accounts owned by the token-management program,
/// and both accounts writable.
pub open spec fn header_gate_error(i: IssueInputs) -> Option<IssueError> {
    if !(i.mint_authority.is_signer && i.payer.is_signer) {
        Some(IssueError::MissingSignature)
    } else if i.mint_authority.key@ != i.payer.key@ {
        Some(IssueError::MintAuthorityMismatch)
    } else if i.mint_acct.owner@ != i.token_program@ || i.dest_acct.owner@ != i.token_program@ {
        Some(IssueError::IllegalOwnership)
    } else if !i.mint_acct.is_writable || !i.dest_acct.is_writable {
        Some(IssueError::InvalidState)
    } else {
        None
    }
}

/// Checks the invocation-level gates, reporting the first failure.
pub fn header_gate_check(inputs: &IssueInputs) -> (r: Option<IssueError>)
    ensures
        r == header_gate_error(*inputs),
{
    if !(inputs.mint_authority.is_signer && inputs.payer.is_signer) {
        return Some(IssueError::MissingSignature);
    }
    if !key_eq(&inputs.mint_authority.key, &inputs.payer.key) {
        return Some(IssueError::MintAuthorityMismatch);
    }
    if !key_eq(&inputs.mint_acct.owner, &inputs.token_program) || !key_eq(
        &inputs.dest_acct.owner,
        &inputs.token_program,
    ) {
        return Some(IssueError::IllegalOwnership);
    }
    if !inputs.mint_acct.is_writable || !inputs.dest_acct.is_writable {
        return Some(IssueError::InvalidState);
    }
    None
}

/// The outcome of the validation phase: the first failing gate's error,
/// or the scaled supply to mint. Gates are checked in a fixed order, so
/// the first failure wins.
pub open spec fn validate_spec(i: IssueInputs, m: MintState, d: TokenAccountState) -> Result<
    u64,
    IssueError,
> {
    if header_gate_error(i) is Some {
        Err(header_gate_error(i)->Some_0)
    } else if !mint_entry_ok(m, i.mint_authority.key) {
        Err(IssueError::InvalidMintState)
    } else if d.owner@ != i.payer.key@ {
        Err(IssueError::TokenAccountOwnerMismatch)
    } else if !dest_entry_ok(d, i.mint_acct.key) {
        Err(IssueError::TokenAccountNotEmpty)
    } else if TOTAL_SUPPLY * pow10(DECIMALS as nat) > u64::MAX {
        Err(IssueError::ArithmeticOverflow)
    } else {
        Ok((TOTAL_SUPPLY * pow10(DECIMALS as nat)) as u64)
    }
}

/// Checks the mint-state gate.
pub fn mint_entry_check(m: &MintState, authority: &KeyId) -> (r: bool)
    ensures
        r == mint_entry_ok(*m, *authority),
{
    let auth_ok = match &m.mint_authority {
        Some(k) => key_eq(k, authority),
        None => false,
    };
    m.initialized && m.decimals == DECIMALS && m.supply == 0 && m.freeze_authority.is_none()
        && auth_ok
}

/// Checks the destination-account gate.
pub fn dest_entry_check(d: &TokenAccountState, mint_key: &KeyId) -> (r: bool)
    ensures
        r == dest_entry_ok(*d, *mint_key),
{
    key_eq(&d.mint, mint_key) && d.amount == 0 && d.delegate.is_none()
        && d.close_authority.is_none()
}

/// The validation phase of the protocol: every precondition gate in
/// order, then the overflow-checked supply scaling. Returns the amount
/// to mint, or the first failing gate's error; no state is touched.
pub fn validate(inputs: &IssueInputs, mint: &MintState, dest: &TokenAccountState) -> (r: Result<
    u64,
    IssueError,
>)
    ensures
        r == validate_spec(*inputs, *mint, *dest),
{
    match header_gate_check(inputs) {
        Some(e) => {
            return Err(e);
        },
        None => (),
    }
    if !mint_entry_check(mint, &inputs.mint_authority.key) {
        return Err(IssueError::InvalidMintState);
    }
    if !key_eq(&dest.owner, &inputs.payer.key) {
        return Err(IssueError::TokenAccountOwnerMismatch);
    }
    if !dest_entry_check(dest, &inputs.mint_acct.key) {
        return Err(IssueError::TokenAccountNotEmpty);
    }
    match scaled_supply(TOTAL_SUPPLY, DECIMALS) {
        Some(v) => Ok(v),
        None => Err(IssueError::ArithmeticOverflow),
    }
}

/// Step D of the protocol: the defense-in-depth check that the mint
/// authority really is gone. Succeeds exactly when the authority slot is
/// empty.
pub fn check_revocation(m: &MintState) -> (r: Result<(), IssueError>)
    ensures
        r == (if m.mint_authority is None {
            Ok::<(), IssueError>(())
        } else {
            Err::<(), IssueError>(IssueError::MintAuthorityNotRevoked)
        }),
{
    match &m.mint_authority {
        None => Ok(()),
        Some(_) => Err(IssueError::MintAuthorityNotRevoked),
    }
}

} // verus!
