//! Reading the token-management program's account byte format.
//!
//! The mint and token-account records arrive as fixed-length byte
//! strings in the collaborator's wire layout. Deserialization itself is
//! delegated to the collaborator's own parser behind trusted wrappers;
//! the layout each parse is trusted to follow is pinned down here, byte
//! for byte, so that the validation logic over the parsed values is
//! verified against the raw data.

use vstd::prelude::*;

use solana_program::program_option::COption;
use solana_program::program_pack::Pack;

use crate::controller::{
    check_revocation, dest_entry_check, header_gate_error, header_gate_check, mint_entry_check,
    scaled_supply,
};
use crate::error::IssueError;
use crate::state::{key_eq, opt_key, IssueInputs, KeyId, MintState, TokenAccountState};
use crate::{pow10, DECIMALS, TOTAL_SUPPLY};

verus! {

/// The unsigned little-endian integer held by an 8-byte field.
pub open spec fn le_u64(s: Seq<u8>) -> int
    recommends
        s.len() == 8,
{
    s[0] + s[1] * 0x100 + s[2] * 0x1_0000 + s[3] * 0x100_0000 + s[4] * 0x1_0000_0000 + s[5]
        * 0x100_0000_0000 + s[6] * 0x1_0000_0000_0000 + s[7] * 0x100_0000_0000_0000
}

/// Whether a 36-byte optional-key field carries a well-formed tag: a
/// 4-byte little-endian 0 (absent) or 1 (present).
pub open spec fn coption_key_valid(s: Seq<u8>) -> bool
    recommends
        s.len() == 36,
{
    (s[0] == 0 || s[0] == 1) && s[1] == 0 && s[2] == 0 && s[3] == 0
}

/// The key held by a well-formed 36-byte optional-key field.
pub open spec fn coption_key_of(s: Seq<u8>) -> Option<Seq<u8>>
    recommends
        s.len() == 36,
{
    if s[0] == 0 {
        None
    } else {
        Some(s.subrange(4, 36))
    }
}

/// Whether a 12-byte optional-integer field carries a well-formed tag.
pub open spec fn coption_u64_valid(s: Seq<u8>) -> bool
    recommends
        s.len() == 12,
{
    (s[0] == 0 || s[0] == 1) && s[1] == 0 && s[2] == 0 && s[3] == 0
}

/// Whether a byte string parses as an initialized mint record: 82 bytes
/// laid out as authority tag+key (36), supply (8), decimals (1),
/// initialization flag (1), freeze-authority tag+key (36), with both
/// tags well formed and the flag set.
pub open spec fn mint_bytes_valid(s: Seq<u8>) -> bool {
    &&& s.len() == 82
    &&& coption_key_valid(s.subrange(0, 36))
    &&& s[45] == 1
    &&& coption_key_valid(s.subrange(46, 82))
}

/// Whether a byte string parses as an initialized token-account record:
/// 165 bytes laid out as mint (32), owner (32), amount (8), delegate
/// tag+key (36), state (1), native tag+amount (12), delegated amount
/// (8), close-authority tag+key (36), with well-formed tags and the
/// state marking the account initialized or frozen.
pub open spec fn token_account_bytes_valid(s: Seq<u8>) -> bool {
    &&& s.len() == 165
    &&& coption_key_valid(s.subrange(72, 108))
    &&& (s[108] == 1 || s[108] == 2)
    &&& coption_u64_valid(s.subrange(109, 121))
    &&& coption_key_valid(s.subrange(129, 165))
}

/// Relies on `spl_token::state::Mint::unpack` (via solana_program's
/// `Pack`): parses the 82-byte mint layout above, failing on a wrong
/// length, a malformed optional-key tag, an initialization byte other
/// than 0 or 1, or a mint not marked initialized.
#[verifier::external_body]
pub(crate) fn unpack_mint(data: &[u8]) -> (r: Option<MintState>)
    ensures
        r is Some <==> mint_bytes_valid(data@),
        r matches Some(m) ==> ({
            &&& m.initialized == true
            &&& m.decimals == data@[44]
            &&& m.supply == le_u64(data@.subrange(36, 44))
            &&& opt_key(m.mint_authority) == coption_key_of(data@.subrange(0, 36))
            &&& opt_key(m.freeze_authority) == coption_key_of(data@.subrange(46, 82))
        }),
{
    let m = match spl_token::state::Mint::unpack(data) { Ok(m) => m, Err(_) => return None };
    let ma = match m.mint_authority {
        COption::Some(k) => Some(KeyId { bytes: k.to_bytes() }), COption::None => None };
    let fa = match m.freeze_authority {
        COption::Some(k) => Some(KeyId { bytes: k.to_bytes() }), COption::None => None };
    Some(MintState {
        initialized: m.is_initialized, decimals: m.decimals, supply: m.supply,
        mint_authority: ma, freeze_authority: fa })
}

/// Relies on `spl_token::state::Account::unpack` (via solana_program's
/// `Pack`): parses the 165-byte token-account layout above, failing on
/// a wrong length, a malformed tag, a state byte above 2, or an
/// uninitialized account.
#[verifier::external_body]
pub(crate) fn unpack_token_account(data: &[u8]) -> (r: Option<TokenAccountState>)
    ensures
        r is Some <==> token_account_bytes_valid(data@),
        r matches Some(a) ==> ({
            &&& a.mint@ == data@.subrange(0, 32)
            &&& a.owner@ == data@.subrange(32, 64)
            &&& a.amount == le_u64(data@.subrange(64, 72))
            &&& opt_key(a.delegate) == coption_key_of(data@.subrange(72, 108))
            &&& opt_key(a.close_authority) == coption_key_of(data@.subrange(129, 165))
        }),
{
    let a = match spl_token::state::Account::unpack(data) { Ok(a) => a, Err(_) => return None };
    let dg = match a.delegate {
        COption::Some(k) => Some(KeyId { bytes: k.to_bytes() }), COption::None => None };
    let ca = match a.close_authority {
        COption::Some(k) => Some(KeyId { bytes: k.to_bytes() }), COption::None => None };
    Some(TokenAccountState {
        mint: KeyId { bytes: a.mint.to_bytes() }, owner: KeyId { bytes: a.owner.to_bytes() },
        amount: a.amount, delegate: dg, close_authority: ca })
}

/// The mint-state gate over the raw record: initialized, expected
/// decimals, zero supply, no freeze authority, and the claimed signer
/// in the authority slot.
pub open spec fn mint_bytes_entry_ok(s: Seq<u8>, authority: KeyId) -> bool {
    &&& s[45] == 1
    &&& s[44] == DECIMALS
    &&& le_u64(s.subrange(36, 44)) == 0
    &&& coption_key_of(s.subrange(0, 36)) == Some(authority@)
    &&& coption_key_of(s.subrange(46, 82)) is None
}

/// The destination gates over the raw record: owned by the payer, bound
/// to the mint under issuance, empty, and free of delegates and close
/// authorities.
pub open spec fn dest_bytes_owner_ok(s: Seq<u8>, payer: KeyId) -> bool {
    s.subrange(32, 64) == payer@
}

/// The destination emptiness gate over the raw record.
pub open spec fn dest_bytes_entry_ok(s: Seq<u8>, mint_key: KeyId) -> bool {
    &&& s.subrange(0, 32) == mint_key@
    &&& le_u64(s.subrange(64, 72)) == 0
    &&& coption_key_of(s.subrange(72, 108)) is None
    &&& coption_key_of(s.subrange(129, 165)) is None
}

/// The outcome of the validation phase run on raw account data: the
/// invocation gates, then each record parsed and held to its gate, then
/// the overflow-checked scaling; the first failure wins.
pub open spec fn validate_accounts_spec(i: IssueInputs, md: Seq<u8>, dd: Seq<u8>) -> Result<
    u64,
    IssueError,
> {
    if header_gate_error(i) is Some {
        Err(header_gate_error(i)->Some_0)
    } else if !mint_bytes_valid(md) {
        Err(IssueError::MalformedAccount)
    } else if !mint_bytes_entry_ok(md, i.mint_authority.key) {
        Err(IssueError::InvalidMintState)
    } else if !token_account_bytes_valid(dd) {
        Err(IssueError::MalformedAccount)
    } else if !dest_bytes_owner_ok(dd, i.payer.key) {
        Err(IssueError::TokenAccountOwnerMismatch)
    } else if !dest_bytes_entry_ok(dd, i.mint_acct.key) {
        Err(IssueError::TokenAccountNotEmpty)
    } else if TOTAL_SUPPLY * pow10(DECIMALS as nat) > u64::MAX {
        Err(IssueError::ArithmeticOverflow)
    } else {
        Ok((TOTAL_SUPPLY * pow10(DECIMALS as nat)) as u64)
    }
}

/// The validation phase of the protocol, run on the two accounts' raw
/// data: parses each record with the collaborator's own parser and
/// holds every precondition gate against it, in order. Returns the
/// amount to mint, or the first failing gate's error; no state is
/// touched.
pub fn validate_accounts(inputs: &IssueInputs, mint_data: &[u8], dest_data: &[u8]) -> (r: Result<
    u64,
    IssueError,
>)
    ensures
        r == validate_accounts_spec(*inputs, mint_data@, dest_data@),
{
    match header_gate_check(inputs) {
        Some(e) => {
            return Err(e);
        },
        None => (),
    }
    let m = match unpack_mint(mint_data) {
        Some(m) => m,
        None => {
            return Err(IssueError::MalformedAccount);
        },
    };
    if !mint_entry_check(&m, &inputs.mint_authority.key) {
        return Err(IssueError::InvalidMintState);
    }
    let a = match unpack_token_account(dest_data) {
        Some(a) => a,
        None => {
            return Err(IssueError::MalformedAccount);
        },
    };
    if !key_eq(&a.owner, &inputs.payer.key) {
        return Err(IssueError::TokenAccountOwnerMismatch);
    }
    if !dest_entry_check(&a, &inputs.mint_acct.key) {
        return Err(IssueError::TokenAccountNotEmpty);
    }
    match scaled_supply(TOTAL_SUPPLY, DECIMALS) {
        Some(v) => Ok(v),
        None => Err(IssueError::ArithmeticOverflow),
    }
}

/// The outcome of the post-condition check on the re-read mint record:
/// the record must still parse, and its authority slot must be empty.
pub open spec fn revocation_spec(md: Seq<u8>) -> Result<(), IssueError> {
    if !mint_bytes_valid(md) {
        Err(IssueError::MalformedAccount)
    } else if coption_key_of(md.subrange(0, 36)) is Some {
        Err(IssueError::MintAuthorityNotRevoked)
    } else {
        Ok(())
    }
}

/// Step D of the protocol on the re-read raw mint data: parses the
/// record and succeeds exactly when the mint authority is gone, so that
/// the caller trusts the final state alone, not the revoke call's
/// reported success.
pub fn verify_revocation(mint_data: &[u8]) -> (r: Result<(), IssueError>)
    ensures
        r == revocation_spec(mint_data@),
{
    let m = match unpack_mint(mint_data) {
        Some(m) => m,
        None => {
            return Err(IssueError::MalformedAccount);
        },
    };
    match check_revocation(&m) {
        Ok(_) => Ok(()),
        Err(e) => Err(e),
    }
}

} // verus!
