use fixed_supply_token::controller::{check_revocation, scaled_supply, validate};
use fixed_supply_token::error::{as_custom, custom_code, CustomError, IssueError};
use fixed_supply_token::ledger::{
    issue_fixed_supply, token_mint_to, token_revoke_authority, LedgerError,
};
use fixed_supply_token::state::{
    key_eq, AccountHeader, IssueInputs, KeyId, MintState, Signer, TokenAccountState,
};

const SCALED: u64 = 500_000_000_000_000_000;

fn key(b: u8) -> KeyId {
    KeyId { bytes: [b; 32] }
}

fn happy_inputs() -> IssueInputs {
    IssueInputs {
        mint_acct: AccountHeader { key: key(1), owner: key(9), is_writable: true },
        dest_acct: AccountHeader { key: key(2), owner: key(9), is_writable: true },
        mint_authority: Signer { key: key(7), is_signer: true },
        payer: Signer { key: key(7), is_signer: true },
        token_program: key(9),
    }
}

fn happy_mint() -> MintState {
    MintState {
        initialized: true,
        decimals: 9,
        supply: 0,
        mint_authority: Some(key(7)),
        freeze_authority: None,
    }
}

fn happy_dest() -> TokenAccountState {
    TokenAccountState {
        mint: key(1),
        owner: key(7),
        amount: 0,
        delegate: None,
        close_authority: None,
    }
}

#[test]
fn scenario_a_happy_path() {
    let inputs = happy_inputs();
    let mut mint = happy_mint();
    let mut dest = happy_dest();
    let r = issue_fixed_supply(&inputs, &mut mint, &mut dest);
    assert_eq!(r, Ok(()));
    assert_eq!(dest.amount, SCALED);
    assert_eq!(mint.supply, SCALED);
    assert_eq!(mint.mint_authority, None);
    assert_eq!(mint.initialized, true);
    assert_eq!(mint.decimals, 9);
    assert_eq!(dest.owner, key(7));
    assert_eq!(dest.mint, key(1));
}

#[test]
fn scenario_b_nonzero_supply() {
    let inputs = happy_inputs();
    let mut mint = happy_mint();
    mint.supply = 100;
    let before_mint = mint;
    let mut dest = happy_dest();
    let before_dest = dest;
    let r = issue_fixed_supply(&inputs, &mut mint, &mut dest);
    assert_eq!(r, Err(IssueError::InvalidMintState));
    assert_eq!(mint, before_mint);
    assert_eq!(dest, before_dest);
}

#[test]
fn scenario_c_delegate_set() {
    let inputs = happy_inputs();
    let mut mint = happy_mint();
    let mut dest = happy_dest();
    dest.delegate = Some(key(3));
    let before_mint = mint;
    let before_dest = dest;
    let r = issue_fixed_supply(&inputs, &mut mint, &mut dest);
    assert_eq!(r, Err(IssueError::TokenAccountNotEmpty));
    assert_eq!(mint, before_mint);
    assert_eq!(dest, before_dest);
}

#[test]
fn scenario_d_payer_differs() {
    let mut inputs = happy_inputs();
    inputs.payer = Signer { key: key(8), is_signer: true };
    let mut mint = happy_mint();
    let mut dest = happy_dest();
    let r = issue_fixed_supply(&inputs, &mut mint, &mut dest);
    assert_eq!(r, Err(IssueError::MintAuthorityMismatch));
}

#[test]
fn scenario_e_revoke_fails_leaves_partial_state() {
    let inputs = happy_inputs();
    let mut mint = happy_mint();
    let mut dest = happy_dest();
    let amount = validate(&inputs, &mint, &dest).unwrap();
    assert_eq!(amount, SCALED);
    let minted = token_mint_to(
        &inputs.mint_acct.key,
        &mut mint,
        &mut dest,
        &inputs.mint_authority.key,
        amount,
    );
    assert_eq!(minted, Ok(()));
    // The collaborator rejects the revoke call (here: a signer that does
    // not hold the authority); the documented partial state remains.
    let revoked = token_revoke_authority(&mut mint, &key(42));
    assert_eq!(revoked, Err(LedgerError::AuthorityMismatch));
    assert_eq!(mint.supply, SCALED);
    assert_eq!(mint.mint_authority, Some(key(7)));
    assert_eq!(check_revocation(&mint), Err(IssueError::MintAuthorityNotRevoked));
    // A second invocation now correctly rejects re-minting: the supply
    // is no longer zero.
    assert_eq!(validate(&inputs, &mint, &dest), Err(IssueError::InvalidMintState));
}

#[test]
fn missing_signature_rejected() {
    let mut inputs = happy_inputs();
    inputs.payer.is_signer = false;
    let mut mint = happy_mint();
    let mut dest = happy_dest();
    let r = issue_fixed_supply(&inputs, &mut mint, &mut dest);
    assert_eq!(r, Err(IssueError::MissingSignature));

    let mut inputs2 = happy_inputs();
    inputs2.mint_authority.is_signer = false;
    let r2 = issue_fixed_supply(&inputs2, &mut mint, &mut dest);
    assert_eq!(r2, Err(IssueError::MissingSignature));
}

#[test]
fn illegal_ownership_rejected() {
    let mut inputs = happy_inputs();
    inputs.mint_acct.owner = key(33);
    let mut mint = happy_mint();
    let mut dest = happy_dest();
    let r = issue_fixed_supply(&inputs, &mut mint, &mut dest);
    assert_eq!(r, Err(IssueError::IllegalOwnership));
}

#[test]
fn unwritable_account_rejected() {
    let mut inputs = happy_inputs();
    inputs.dest_acct.is_writable = false;
    let mut mint = happy_mint();
    let mut dest = happy_dest();
    let r = issue_fixed_supply(&inputs, &mut mint, &mut dest);
    assert_eq!(r, Err(IssueError::InvalidState));
}

#[test]
fn dest_owner_mismatch_rejected() {
    let inputs = happy_inputs();
    let mut mint = happy_mint();
    let mut dest = happy_dest();
    dest.owner = key(8);
    let r = issue_fixed_supply(&inputs, &mut mint, &mut dest);
    assert_eq!(r, Err(IssueError::TokenAccountOwnerMismatch));
}

#[test]
fn wrong_mint_binding_rejected() {
    let inputs = happy_inputs();
    let mut mint = happy_mint();
    let mut dest = happy_dest();
    dest.mint = key(4);
    let r = issue_fixed_supply(&inputs, &mut mint, &mut dest);
    assert_eq!(r, Err(IssueError::TokenAccountNotEmpty));
}

#[test]
fn freeze_authority_present_rejected() {
    let inputs = happy_inputs();
    let mut mint = happy_mint();
    mint.freeze_authority = Some(key(5));
    let mut dest = happy_dest();
    let r = issue_fixed_supply(&inputs, &mut mint, &mut dest);
    assert_eq!(r, Err(IssueError::InvalidMintState));
}

#[test]
fn failed_issue_repeats_identically() {
    let inputs = happy_inputs();
    let mut mint = happy_mint();
    mint.supply = 100;
    let mut dest = happy_dest();
    let first = issue_fixed_supply(&inputs, &mut mint, &mut dest);
    let second = issue_fixed_supply(&inputs, &mut mint, &mut dest);
    assert_eq!(first, Err(IssueError::InvalidMintState));
    assert_eq!(second, first);
    assert_eq!(mint.supply, 100);
    assert_eq!(dest.amount, 0);
}

#[test]
fn revoked_mint_rejects_every_minting() {
    let mut mint = happy_mint();
    mint.mint_authority = None;
    let mut dest = happy_dest();
    for b in [0u8, 7, 42, 255] {
        let r = token_mint_to(&key(1), &mut mint, &mut dest, &key(b), 1);
        assert_eq!(r, Err(LedgerError::AuthorityMismatch));
        assert_eq!(mint.supply, 0);
        assert_eq!(dest.amount, 0);
    }
}

#[test]
fn issuance_ends_with_closed_mint() {
    let inputs = happy_inputs();
    let mut mint = happy_mint();
    let mut dest = happy_dest();
    issue_fixed_supply(&inputs, &mut mint, &mut dest).unwrap();
    // No party can mint against the closed mint, the original authority
    // included.
    let r = token_mint_to(&key(1), &mut mint, &mut dest, &key(7), 1);
    assert_eq!(r, Err(LedgerError::AuthorityMismatch));
    assert_eq!(mint.supply, SCALED);
    assert_eq!(dest.amount, SCALED);
}

#[test]
fn mint_overflow_rejected_atomically() {
    let mut mint = happy_mint();
    mint.supply = u64::MAX - 5;
    let mut dest = happy_dest();
    let r = token_mint_to(&key(1), &mut mint, &mut dest, &key(7), 10);
    assert_eq!(r, Err(LedgerError::BalanceOverflow));
    assert_eq!(mint.supply, u64::MAX - 5);
    assert_eq!(dest.amount, 0);
}

#[test]
fn scaled_supply_exact_value() {
    assert_eq!(scaled_supply(500_000_000, 9), Some(SCALED));
    assert_eq!(scaled_supply(1, 0), Some(1));
    assert_eq!(scaled_supply(0, 20), Some(0));
    assert_eq!(scaled_supply(123, 2), Some(12_300));
}

#[test]
fn scaled_supply_overflow_detected() {
    assert_eq!(scaled_supply(u64::MAX, 1), None);
    assert_eq!(scaled_supply(2, 63), None);
    assert_eq!(scaled_supply(184, 17), Some(18_400_000_000_000_000_000));
    assert_eq!(scaled_supply(185, 17), None);
}

#[test]
fn keys_differing_in_one_byte_are_distinct() {
    let a = key(7);
    let mut b = key(7);
    assert!(key_eq(&a, &b));
    b.bytes[31] = 8;
    assert!(!key_eq(&a, &b));
    let mut c = key(7);
    c.bytes[0] = 8;
    assert!(!key_eq(&a, &c));

    // The role-collapse gate sees the difference too.
    let mut inputs = happy_inputs();
    inputs.payer.key = b;
    let mut mint = happy_mint();
    let mut dest = happy_dest();
    let r = issue_fixed_supply(&inputs, &mut mint, &mut dest);
    assert_eq!(r, Err(IssueError::MintAuthorityMismatch));
}

#[test]
fn first_failing_gate_wins() {
    // Both a missing signature and a foreign owner: the gates are
    // checked in order, so the signature failure is reported.
    let mut inputs = happy_inputs();
    inputs.payer.is_signer = false;
    inputs.mint_acct.owner = key(33);
    let mut mint = happy_mint();
    let mut dest = happy_dest();
    let r = issue_fixed_supply(&inputs, &mut mint, &mut dest);
    assert_eq!(r, Err(IssueError::MissingSignature));
    // Identity mismatch outranks the ownership failure in the same way.
    let mut inputs2 = happy_inputs();
    inputs2.payer.key = key(8);
    inputs2.mint_acct.owner = key(33);
    let r2 = issue_fixed_supply(&inputs2, &mut mint, &mut dest);
    assert_eq!(r2, Err(IssueError::MintAuthorityMismatch));
}

#[test]
fn custom_error_codes() {
    assert_eq!(custom_code(CustomError::InvalidMintState), 6000);
    assert_eq!(custom_code(CustomError::TokenAccountNotEmpty), 6001);
    assert_eq!(custom_code(CustomError::MintAuthorityNotRevoked), 6002);
    assert_eq!(custom_code(CustomError::TokenAccountOwnerMismatch), 6003);
    assert_eq!(custom_code(CustomError::MintAuthorityMismatch), 6004);
}

#[test]
fn issue_errors_map_to_custom_codes() {
    assert_eq!(
        as_custom(IssueError::MintAuthorityMismatch),
        Some(CustomError::MintAuthorityMismatch)
    );
    assert_eq!(as_custom(IssueError::InvalidMintState), Some(CustomError::InvalidMintState));
    assert_eq!(
        as_custom(IssueError::TokenAccountNotEmpty),
        Some(CustomError::TokenAccountNotEmpty)
    );
    assert_eq!(
        as_custom(IssueError::TokenAccountOwnerMismatch),
        Some(CustomError::TokenAccountOwnerMismatch)
    );
    assert_eq!(
        as_custom(IssueError::MintAuthorityNotRevoked),
        Some(CustomError::MintAuthorityNotRevoked)
    );
    assert_eq!(as_custom(IssueError::MissingSignature), None);
    assert_eq!(as_custom(IssueError::ArithmeticOverflow), None);
}
