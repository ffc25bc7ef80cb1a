//! The ways in which the validation of a block or a transaction can fail.

use crate::text::{decimal, prefixed, push_decimal};
use vstd::prelude::*;
use vstd::string::to_string_from_display_ensures;

verus! {

/// A validation failure.
///
/// A variant that stems from a failure of another subsystem carries that
/// failure's message as text.
#[derive(Debug, PartialEq, Eq)]
pub enum ValidationError {
    BlockHeaderError(String),
    BlockError(String),
    MaturityError,
    UnknownInputs,
    TransactionError(String),
    CustomError(String),
    FatalStorageError(String),
    InvalidAccountingBalance,
    ContainsSTxO,
    ContainsTxO,
    WeakerAccumulatedDifficulty,
    InvalidOutputMr,
    InvalidKernelMr,
    InvalidRangeProofMr,
    ChainBalanceValidationFailed(u64),
    ProofOfWorkError(String),
    ValidatingGenesis,
    PreviousHashNotFound,
    UnsortedOrDuplicateInput,
    UnsortedOrDuplicateOutput,
    MergeMineError(String),
    InvalidMinedHeight,
    MaxTransactionWeightExceeded,
    EndOfTimeError(String),
}

impl ValidationError {
    /// The message of this failure.
    pub open spec fn message(self) -> Seq<char> {
        match self {
            ValidationError::BlockHeaderError(e) => "Block header validation failed: "@ + e@,
            ValidationError::BlockError(e) => "Block validation error: "@ + e@,
            ValidationError::MaturityError => "Contains kernels or inputs that are not yet spendable"@,
            ValidationError::UnknownInputs => "Contains unknown inputs"@,
            ValidationError::TransactionError(e) => "The transaction is invalid: "@ + e@,
            ValidationError::CustomError(e) => "Error: "@ + e@,
            ValidationError::FatalStorageError(e) => "Fatal storage error during validation: "@
                + e@,
            ValidationError::InvalidAccountingBalance => "The total expected supply plus the total accumulated (offset) excess does not equal the sum of all UTXO commitments."@,
            ValidationError::ContainsSTxO => "Transaction contains already spent inputs"@,
            ValidationError::ContainsTxO => "Transaction contains already outputs that already exist"@,
            ValidationError::WeakerAccumulatedDifficulty => "The recorded chain accumulated difficulty was stronger"@,
            ValidationError::InvalidOutputMr => "Invalid output merkle root"@,
            ValidationError::InvalidKernelMr => "Invalid kernel merkle root"@,
            ValidationError::InvalidRangeProofMr => "Invalid range proof merkle root"@,
            ValidationError::ChainBalanceValidationFailed(height) => "Final state validation failed: The UTXO set did not balance with the expected emission at height "@
                + decimal(height as nat),
            ValidationError::ProofOfWorkError(e) => "Proof of work error: "@ + e@,
            ValidationError::ValidatingGenesis => "Attempted to validate genesis block"@,
            ValidationError::PreviousHashNotFound => "Previous block hash not found"@,
            ValidationError::UnsortedOrDuplicateInput => "Duplicate or unsorted input found in block body"@,
            ValidationError::UnsortedOrDuplicateOutput => "Duplicate or unsorted output found in block body"@,
            ValidationError::MergeMineError(e) => "Error in merge mine data:"@ + e@,
            ValidationError::InvalidMinedHeight => "Contains an input with an invalid mined-height in body"@,
            ValidationError::MaxTransactionWeightExceeded => "Maximum transaction weight exceeded"@,
            ValidationError::EndOfTimeError(e) => "End of time: "@ + e@,
        }
    }

    /// A failure with a free-form reason: the text that `err` displays as.
    pub fn custom_error<T: core::fmt::Display>(err: T) -> (error: ValidationError)
        ensures
            error matches ValidationError::CustomError(reason) && to_string_from_display_ensures::<
                T,
            >(&err, reason),
    {
        ValidationError::CustomError(err.to_string())
    }

    /// The failure that a storage fault during validation amounts to. It
    /// keeps the fault's message, not the fault.
    pub fn from_storage_fault(fault: String) -> (error: ValidationError)
        ensures
            error matches ValidationError::FatalStorageError(reason) && reason@ == fault@,
    {
        ValidationError::FatalStorageError(fault)
    }

    /// Renders `message`.
    pub fn to_string(&self) -> (text: String)
        ensures
            text@ == self.message(),
    {
        match self {
            ValidationError::BlockHeaderError(e) => prefixed(
                "Block header validation failed: ",
                e.as_str(),
            ),
            ValidationError::BlockError(e) => prefixed("Block validation error: ", e.as_str()),
            ValidationError::MaturityError => String::from_str(
                "Contains kernels or inputs that are not yet spendable",
            ),
            ValidationError::UnknownInputs => String::from_str("Contains unknown inputs"),
            ValidationError::TransactionError(e) => prefixed(
                "The transaction is invalid: ",
                e.as_str(),
            ),
            ValidationError::CustomError(e) => prefixed("Error: ", e.as_str()),
            ValidationError::FatalStorageError(e) => prefixed(
                "Fatal storage error during validation: ",
                e.as_str(),
            ),
            ValidationError::InvalidAccountingBalance => String::from_str(
                "The total expected supply plus the total accumulated (offset) excess does not equal the sum of all UTXO commitments.",
            ),
            ValidationError::ContainsSTxO => String::from_str(
                "Transaction contains already spent inputs",
            ),
            ValidationError::ContainsTxO => String::from_str(
                "Transaction contains already outputs that already exist",
            ),
            ValidationError::WeakerAccumulatedDifficulty => String::from_str(
                "The recorded chain accumulated difficulty was stronger",
            ),
            ValidationError::InvalidOutputMr => String::from_str("Invalid output merkle root"),
            ValidationError::InvalidKernelMr => String::from_str("Invalid kernel merkle root"),
            ValidationError::InvalidRangeProofMr => String::from_str(
                "Invalid range proof merkle root",
            ),
            ValidationError::ChainBalanceValidationFailed(height) => {
                let mut text = String::from_str(
                    "Final state validation failed: The UTXO set did not balance with the expected emission at height ",
                );
                push_decimal(&mut text, *height);
                text
            },
            ValidationError::ProofOfWorkError(e) => prefixed("Proof of work error: ", e.as_str()),
            ValidationError::ValidatingGenesis => String::from_str(
                "Attempted to validate genesis block",
            ),
            ValidationError::PreviousHashNotFound => String::from_str(
                "Previous block hash not found",
            ),
            ValidationError::UnsortedOrDuplicateInput => String::from_str(
                "Duplicate or unsorted input found in block body",
            ),
            ValidationError::UnsortedOrDuplicateOutput => String::from_str(
                "Duplicate or unsorted output found in block body",
            ),
            ValidationError::MergeMineError(e) => prefixed("Error in merge mine data:", e.as_str()),
            ValidationError::InvalidMinedHeight => String::from_str(
                "Contains an input with an invalid mined-height in body",
            ),
            ValidationError::MaxTransactionWeightExceeded => String::from_str(
                "Maximum transaction weight exceeded",
            ),
            ValidationError::EndOfTimeError(e) => prefixed("End of time: ", e.as_str()),
        }
    }
}

} // verus!
