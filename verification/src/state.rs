//! Plain-value models of the externally owned entities the controller
//! reads and transitions: signer identities, the mint, and the
//! destination token account.

use vstd::prelude::*;

verus! {

/// A signer identity: a 32-byte public key.
#[derive(Clone, Copy, Debug, PartialEq, Eq)]
pub struct KeyId {
    pub bytes: [u8; 32],
}

impl View for KeyId {
    type V = Seq<u8>;

    open spec fn view(&self) -> Seq<u8> {
        self.bytes@
    }
}

/// Compares two identities byte for byte.
pub fn key_eq(a: &KeyId, b: &KeyId) -> (r: bool)
    ensures
        r == (a@ == b@),
{
    let mut i: usize = 0;
    while i < 32
        invariant
            i <= 32,
            forall|j: int| 0 <= j < i ==> a.bytes@[j] == b.bytes@[j],
        decreases 32 - i,
    {
        if a.bytes[i] != b.bytes[i] {
            return false;
        }
        i += 1;
    }
    proof {
        assert(a.bytes@ =~= b.bytes@);
    }
    true
}

/// The identity held by an optional authority slot, as a sequence of bytes.
pub open spec fn opt_key(o: Option<KeyId>) -> Option<Seq<u8>> {
    match o {
        Some(k) => Some(k@),
        None => None,
    }
}

/// The state of a token mint, as read from the token-management program.
#[derive(Clone, Copy, Debug, PartialEq, Eq)]
pub struct MintState {
    /// Whether the mint has been initialized.
    pub initialized: bool,
    /// Number of base-10 digits to the right of the decimal place.
    pub decimals: u8,
    /// Total supply of tokens issued so far.
    pub supply: u64,
    /// The authority allowed to mint new tokens; `None` means the supply
    /// is fixed forever.
    pub mint_authority: Option<KeyId>,
    /// The authority allowed to freeze token accounts.
    pub freeze_authority: Option<KeyId>,
}

/// The state of a token account, as read from the token-management program.
#[derive(Clone, Copy, Debug, PartialEq, Eq)]
pub struct TokenAccountState {
    /// The mint this account holds balances of.
    pub mint: KeyId,
    /// The wallet that owns this account.
    pub owner: KeyId,
    /// The balance held.
    pub amount: u64,
    /// An optional party allowed to spend on the owner's behalf.
    pub delegate: Option<KeyId>,
    /// An optional party allowed to close the account.
    pub close_authority: Option<KeyId>,
}

/// The address, program owner and writability of an account passed into
/// the instruction.
#[derive(Clone, Copy, Debug, PartialEq, Eq)]
pub struct AccountHeader {
    /// The account's address.
    pub key: KeyId,
    /// The program that owns the account's data.
    pub owner: KeyId,
    /// Whether the account may be mutated in this execution context.
    pub is_writable: bool,
}

/// An identity together with whether it signed the current invocation.
#[derive(Clone, Copy, Debug, PartialEq, Eq)]
pub struct Signer {
    /// The signer's address.
    pub key: KeyId,
    /// Whether a valid signature was supplied for this invocation.
    pub is_signer: bool,
}

/// Everything the controller learns about an invocation besides the
/// unpacked mint and token-account states.
#[derive(Clone, Copy, Debug, PartialEq, Eq)]
pub struct IssueInputs {
    /// Address, owner and writability of the mint account.
    pub mint_acct: AccountHeader,
    /// Address, owner and writability of the destination token account.
    pub dest_acct: AccountHeader,
    /// The claimed mint authority; must co-sign.
    pub mint_authority: Signer,
    /// The payer initiating the call; must co-sign.
    pub payer: Signer,
    /// The identity of the token-management program that must own both
    /// accounts.
    pub token_program: KeyId,
}

} // verus!
