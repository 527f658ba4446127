use vstd::prelude::*;

verus! {

/// The broad class an error belongs to.
#[derive(Clone, Copy, Debug, PartialEq, Eq, Structural)]
pub enum ErrorKind {
    /// Malformed, duplicate or self-referential input.
    Validation,
    /// The operation is not allowed in the pool's current state.
    State,
    /// A checked integer operation left the supported range.
    Arithmetic,
    /// A cross-contract call answered wrongly, failed, or answered more than once.
    ExternalCall,
    /// The computed output rounds down to zero.
    Slippage,
}

/// Every way an operation of the pool can be refused. A refused operation changes nothing.
#[derive(Clone, Copy, Debug, PartialEq, Eq, Structural)]
pub enum AmmError {
    /// The owner (liquidity provider) is the pool's own account.
    OwnerIsContractAccount,
    /// Both tokens of the pool are the same.
    DuplicateTokens,
    /// The account that asks for a swap is the pool's own account.
    SwapperIsContractAccount,
    /// A metadata callback came with a number of results other than one.
    PromiseTooManyResults,
    /// A metadata callback carried a value that is not token metadata of one of the pool's tokens.
    PromiseWrongValueReceived,
    /// The metadata call failed.
    PromiseCallFailed,
    /// A token decimal outside `[MIN_DECIMAL, MAX_DECIMAL]`.
    InvalidTokenDecimal,
    /// A checked integer operation overflowed or underflowed.
    InternalOverflow,
    /// Swaps and the pool view need both tokens' metadata and liquidity.
    NotFunctional,
    /// The token's metadata has not arrived yet.
    TokenMetadataNotInitialised,
    /// A reserve would reach zero, or is zero.
    InvalidTokenBalance,
    /// The output of a swap rounds down to zero.
    Slippage,
    /// The transfer message is neither `lp_deposit` nor `swap`.
    InvalidReceiverMessage,
    /// A liquidity deposit came from an account other than the owner.
    InvalidLpDepositSender,
    /// The transferred token is not one of the pool's two tokens.
    InvalidTokenTransferred,
    /// A transfer of zero tokens.
    ZeroAmountTransferred,
}

impl AmmError {
    pub open spec fn spec_kind(self) -> ErrorKind {
        match self {
            AmmError::OwnerIsContractAccount => ErrorKind::Validation,
            AmmError::DuplicateTokens => ErrorKind::Validation,
            AmmError::SwapperIsContractAccount => ErrorKind::Validation,
            AmmError::InvalidTokenDecimal => ErrorKind::Validation,
            AmmError::InvalidReceiverMessage => ErrorKind::Validation,
            AmmError::InvalidLpDepositSender => ErrorKind::Validation,
            AmmError::InvalidTokenTransferred => ErrorKind::Validation,
            AmmError::ZeroAmountTransferred => ErrorKind::Validation,
            AmmError::NotFunctional => ErrorKind::State,
            AmmError::TokenMetadataNotInitialised => ErrorKind::State,
            AmmError::InvalidTokenBalance => ErrorKind::State,
            AmmError::InternalOverflow => ErrorKind::Arithmetic,
            AmmError::PromiseTooManyResults => ErrorKind::ExternalCall,
            AmmError::PromiseWrongValueReceived => ErrorKind::ExternalCall,
            AmmError::PromiseCallFailed => ErrorKind::ExternalCall,
            AmmError::Slippage => ErrorKind::Slippage,
        }
    }

    /// The class of this error.
    pub fn kind(&self) -> (r: ErrorKind)
        ensures
            r == self.spec_kind(),
    {
        match self {
            AmmError::OwnerIsContractAccount => ErrorKind::Validation,
            AmmError::DuplicateTokens => ErrorKind::Validation,
            AmmError::SwapperIsContractAccount => ErrorKind::Validation,
            AmmError::InvalidTokenDecimal => ErrorKind::Validation,
            AmmError::InvalidReceiverMessage => ErrorKind::Validation,
            AmmError::InvalidLpDepositSender => ErrorKind::Validation,
            AmmError::InvalidTokenTransferred => ErrorKind::Validation,
            AmmError::ZeroAmountTransferred => ErrorKind::Validation,
            AmmError::NotFunctional => ErrorKind::State,
            AmmError::TokenMetadataNotInitialised => ErrorKind::State,
            AmmError::InvalidTokenBalance => ErrorKind::State,
            AmmError::InternalOverflow => ErrorKind::Arithmetic,
            AmmError::PromiseTooManyResults => ErrorKind::ExternalCall,
            AmmError::PromiseWrongValueReceived => ErrorKind::ExternalCall,
            AmmError::PromiseCallFailed => ErrorKind::ExternalCall,
            AmmError::Slippage => ErrorKind::Slippage,
        }
    }
}

} // verus!
