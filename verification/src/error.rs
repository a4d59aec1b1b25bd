//! The closed error taxonomy of the issuance protocol.

use vstd::prelude::*;

verus! {

/// Failures specific to this protocol's validation and post-condition
/// gates, kept apart from the generic failures so that a caller can map
/// them onto a numeric custom-error channel.
#[derive(Clone, Copy, Debug, PartialEq, Eq, Structural)]
pub enum CustomError {
    /// Mint account is not in the expected initial state.
    InvalidMintState,
    /// Token account already contains tokens, is bound to another mint,
    /// or has a delegate or close authority.
    TokenAccountNotEmpty,
    /// Mint authority was not successfully revoked.
    MintAuthorityNotRevoked,
    /// Token account owner does not match the payer.
    TokenAccountOwnerMismatch,
    /// Mint authority does not match the payer.
    MintAuthorityMismatch,
}

/// The numeric code a `CustomError` is reported under on the generic
/// error channel.
pub fn custom_code(e: CustomError) -> (r: u32)
    ensures
        r == custom_code_spec(e),
{
    match e {
        CustomError::InvalidMintState => 6000,
        CustomError::TokenAccountNotEmpty => 6001,
        CustomError::MintAuthorityNotRevoked => 6002,
        CustomError::TokenAccountOwnerMismatch => 6003,
        CustomError::MintAuthorityMismatch => 6004,
    }
}

/// The numeric code of each `CustomError`, as a mathematical function.
pub open spec fn custom_code_spec(e: CustomError) -> u32 {
    match e {
        CustomError::InvalidMintState => 6000,
        CustomError::TokenAccountNotEmpty => 6001,
        CustomError::MintAuthorityNotRevoked => 6002,
        CustomError::TokenAccountOwnerMismatch => 6003,
        CustomError::MintAuthorityMismatch => 6004,
    }
}

/// Every way the issuance operation can fail. Each gate of the protocol
/// aborts with exactly one of these; nothing is caught and downgraded.
#[derive(Clone, Copy, Debug, PartialEq, Eq, Structural)]
pub enum IssueError {
    /// A required co-signer did not authenticate the call.
    MissingSignature,
    /// Payer and mint-authority identities differ.
    MintAuthorityMismatch,
    /// Mint or destination is not owned by the token-management program.
    IllegalOwnership,
    /// Mint or destination is not mutable in this context.
    InvalidState,
    /// Mint or destination account data does not deserialize to an
    /// initialized record of the expected length.
    MalformedAccount,
    /// Mint preconditions (initialized, decimals, zero supply, no freeze
    /// authority, authority match) not met.
    InvalidMintState,
    /// Destination owner differs from the payer.
    TokenAccountOwnerMismatch,
    /// Destination has a nonzero balance, the wrong mint binding, a
    /// delegate, or a close authority.
    TokenAccountNotEmpty,
    /// The scaled total supply does not fit the supply's numeric range.
    ArithmeticOverflow,
    /// The delegated mint call was rejected by the token-management
    /// program.
    MintStepFailed,
    /// The delegated revoke call was rejected by the token-management
    /// program.
    RevokeStepFailed,
    /// The post-condition check found a mint authority still present
    /// after an apparently successful revoke.
    MintAuthorityNotRevoked,
}

/// The protocol-specific code behind an `IssueError`, where one exists;
/// the remaining errors are reported on generic channels.
pub fn as_custom(e: IssueError) -> (r: Option<CustomError>)
    ensures
        r == as_custom_spec(e),
{
    match e {
        IssueError::MintAuthorityMismatch => Some(CustomError::MintAuthorityMismatch),
        IssueError::InvalidMintState => Some(CustomError::InvalidMintState),
        IssueError::TokenAccountOwnerMismatch => Some(CustomError::TokenAccountOwnerMismatch),
        IssueError::TokenAccountNotEmpty => Some(CustomError::TokenAccountNotEmpty),
        IssueError::MintAuthorityNotRevoked => Some(CustomError::MintAuthorityNotRevoked),
        _ => None,
    }
}

/// Which `IssueError`s carry a protocol-specific code, as a mathematical
/// function.
pub open spec fn as_custom_spec(e: IssueError) -> Option<CustomError> {
    match e {
        IssueError::MintAuthorityMismatch => Some(CustomError::MintAuthorityMismatch),
        IssueError::InvalidMintState => Some(CustomError::InvalidMintState),
        IssueError::TokenAccountOwnerMismatch => Some(CustomError::TokenAccountOwnerMismatch),
        IssueError::TokenAccountNotEmpty => Some(CustomError::TokenAccountNotEmpty),
        IssueError::MintAuthorityNotRevoked => Some(CustomError::MintAuthorityNotRevoked),
        _ => None,
    }
}

} // verus!
