use vstd::prelude::*;

verus! {

/// Every way an operation of the program can be refused.
#[derive(Clone, Copy, Debug, PartialEq, Eq, Structural)]
pub enum BlinkError {
    NameTooLong,
    DescriptionTooLong,
    InvalidBlinkType,
    Unauthorized,
    InvalidNFTMetadata,
    CollectionFull,
    SymbolTooLong,
    InvalidCurrency,
    MessageTooLong,
    InvalidPaymentStatus,
    InvalidSwapParameters,
    MathOverflow,
    InsufficientFunds,
    InvalidTokenAccount,
    InvalidMint,
    InvalidMetadata,
    InvalidCollection,
    BlinkNotFound,
    NFTNotFound,
    CollectionNotFound,
    SwapNotFound,
    DonationNotFound,
    PaymentNotFound,
    InvalidFee,
    FeeTooHigh,
    SlippageExceeded,
    DeadlineExceeded,
    InvalidSignature,
    AccountAlreadyInitialized,
    AccountNotInitialized,
    InvalidProgramAddress,
    InvalidSystemProgram,
    InvalidTokenProgram,
    InvalidAssociatedTokenProgram,
    InvalidRentSysvar,
}

impl BlinkError {
    /// The text shown to a caller for this error.
    pub open spec fn spec_message(self) -> Seq<char> {
        match self {
            BlinkError::NameTooLong => "Name is too long"@,
            BlinkError::DescriptionTooLong => "Description is too long"@,
            BlinkError::InvalidBlinkType => "Invalid blink type"@,
            BlinkError::Unauthorized => "You are not authorized to perform this action"@,
            BlinkError::InvalidNFTMetadata => "Invalid NFT metadata"@,
            BlinkError::CollectionFull => "Collection is full"@,
            BlinkError::SymbolTooLong => "Symbol is too long"@,
            BlinkError::InvalidCurrency => "Invalid currency"@,
            BlinkError::MessageTooLong => "Message is too long"@,
            BlinkError::InvalidPaymentStatus => "Invalid payment status"@,
            BlinkError::InvalidSwapParameters => "Invalid swap parameters"@,
            BlinkError::MathOverflow => "Math overflow"@,
            BlinkError::InsufficientFunds => "Insufficient funds"@,
            BlinkError::InvalidTokenAccount => "Invalid token account"@,
            BlinkError::InvalidMint => "Invalid mint"@,
            BlinkError::InvalidMetadata => "Invalid metadata"@,
            BlinkError::InvalidCollection => "Invalid collection"@,
            BlinkError::BlinkNotFound => "Blink not found"@,
            BlinkError::NFTNotFound => "NFT not found"@,
            BlinkError::CollectionNotFound => "Collection not found"@,
            BlinkError::SwapNotFound => "Swap not found"@,
            BlinkError::DonationNotFound => "Donation not found"@,
            BlinkError::PaymentNotFound => "Payment not found"@,
            BlinkError::InvalidFee => "Invalid fee"@,
            BlinkError::FeeTooHigh => "Fee exceeds maximum allowed"@,
            BlinkError::SlippageExceeded => "Slippage tolerance exceeded"@,
            BlinkError::DeadlineExceeded => "Deadline exceeded"@,
            BlinkError::InvalidSignature => "Invalid signature"@,
            BlinkError::AccountAlreadyInitialized => "Account already initialized"@,
            BlinkError::AccountNotInitialized => "Account not initialized"@,
            BlinkError::InvalidProgramAddress => "Invalid program address"@,
            BlinkError::InvalidSystemProgram => "Invalid system program"@,
            BlinkError::InvalidTokenProgram => "Invalid token program"@,
            BlinkError::InvalidAssociatedTokenProgram => "Invalid associated token program"@,
            BlinkError::InvalidRentSysvar => "Invalid rent sysvar"@,
        }
    }

    /// Returns the text shown to a caller for this error.
    pub fn message(&self) -> (text: &'static str)
        ensures
            text@ == self.spec_message(),
    {
        match self {
            BlinkError::NameTooLong => "Name is too long",
            BlinkError::DescriptionTooLong => "Description is too long",
            BlinkError::InvalidBlinkType => "Invalid blink type",
            BlinkError::Unauthorized => "You are not authorized to perform this action",
            BlinkError::InvalidNFTMetadata => "Invalid NFT metadata",
            BlinkError::CollectionFull => "Collection is full",
            BlinkError::SymbolTooLong => "Symbol is too long",
            BlinkError::InvalidCurrency => "Invalid currency",
            BlinkError::MessageTooLong => "Message is too long",
            BlinkError::InvalidPaymentStatus => "Invalid payment status",
            BlinkError::InvalidSwapParameters => "Invalid swap parameters",
            BlinkError::MathOverflow => "Math overflow",
            BlinkError::InsufficientFunds => "Insufficient funds",
            BlinkError::InvalidTokenAccount => "Invalid token account",
            BlinkError::InvalidMint => "Invalid mint",
            BlinkError::InvalidMetadata => "Invalid metadata",
            BlinkError::InvalidCollection => "Invalid collection",
            BlinkError::BlinkNotFound => "Blink not found",
            BlinkError::NFTNotFound => "NFT not found",
            BlinkError::CollectionNotFound => "Collection not found",
            BlinkError::SwapNotFound => "Swap not found",
            BlinkError::DonationNotFound => "Donation not found",
            BlinkError::PaymentNotFound => "Payment not found",
            BlinkError::InvalidFee => "Invalid fee",
            BlinkError::FeeTooHigh => "Fee exceeds maximum allowed",
            BlinkError::SlippageExceeded => "Slippage tolerance exceeded",
            BlinkError::DeadlineExceeded => "Deadline exceeded",
            BlinkError::InvalidSignature => "Invalid signature",
            BlinkError::AccountAlreadyInitialized => "Account already initialized",
            BlinkError::AccountNotInitialized => "Account not initialized",
            BlinkError::InvalidProgramAddress => "Invalid program address",
            BlinkError::InvalidSystemProgram => "Invalid system program",
            BlinkError::InvalidTokenProgram => "Invalid token program",
            BlinkError::InvalidAssociatedTokenProgram => "Invalid associated token program",
            BlinkError::InvalidRentSysvar => "Invalid rent sysvar",
        }
    }
}

} // verus!
