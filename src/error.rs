//! Errors returned by the processor and the helpers around it.
use vstd::prelude::*;

verus! {

/// Everything that can make an instruction fail. The first failing check
/// aborts the instruction, and no slot is changed.
#[derive(Clone, Copy, Debug, PartialEq, Eq, Structural)]
pub enum HapiError {
    /// The slot's balance is below the rent-exempt threshold.
    NotRentExempt,
    /// The payer cannot fund the new slot.
    InsufficientFunds,
    /// The instruction's arguments are malformed.
    InvalidInstruction,
    /// The slot already holds data.
    AlreadyInUse,
    /// A required signature is missing.
    SignatureMissing,
    /// The case id is stale or does not match the case slot.
    CaseIDMismatch,
    /// The signer is not the community's authority.
    InvalidAuthority,
    /// The reporter slot is not the one derived for the signer.
    InvalidReporter,
    /// An inactive reporter tried to report or update an address.
    ReportingNotPermitted,
    /// The reporter's level does not allow this operation on this case.
    InvalidReporterPermissions,
    /// A name is longer than its 32-byte budget.
    NameTooLong,
    /// The operation is reserved and not implemented.
    NotImplemented,
    /// The slot is not owned by this program.
    InvalidAccountOwner,
    /// The slot holds another kind of record.
    InvalidAccountType,
    /// The instruction names fewer slots than the operation reads.
    NotEnoughAccountKeys,
    /// A slot does not sit at the address derived for it.
    InvalidAccountAddress,
    /// The record does not fit in the slot's allocated space.
    AccountDataTooSmall,
}

impl HapiError {
    /// The number under which the error is reported to the host ledger.
    pub open spec fn spec_code(self) -> u32 {
        match self {
            HapiError::NotRentExempt => 0,
            HapiError::InsufficientFunds => 1,
            HapiError::InvalidInstruction => 2,
            HapiError::AlreadyInUse => 3,
            HapiError::SignatureMissing => 4,
            HapiError::CaseIDMismatch => 5,
            HapiError::InvalidAuthority => 6,
            HapiError::InvalidReporter => 7,
            HapiError::ReportingNotPermitted => 8,
            HapiError::InvalidReporterPermissions => 9,
            HapiError::NameTooLong => 10,
            HapiError::NotImplemented => 11,
            HapiError::InvalidAccountOwner => 12,
            HapiError::InvalidAccountType => 13,
            HapiError::NotEnoughAccountKeys => 14,
            HapiError::InvalidAccountAddress => 15,
            HapiError::AccountDataTooSmall => 16,
        }
    }

    /// The number under which the error is reported to the host ledger:
    /// its position in the declaration.
    pub fn code(self) -> (r: u32)
        ensures
            r == self.spec_code(),
    {
        match self {
            HapiError::NotRentExempt => 0,
            HapiError::InsufficientFunds => 1,
            HapiError::InvalidInstruction => 2,
            HapiError::AlreadyInUse => 3,
            HapiError::SignatureMissing => 4,
            HapiError::CaseIDMismatch => 5,
            HapiError::InvalidAuthority => 6,
            HapiError::InvalidReporter => 7,
            HapiError::ReportingNotPermitted => 8,
            HapiError::InvalidReporterPermissions => 9,
            HapiError::NameTooLong => 10,
            HapiError::NotImplemented => 11,
            HapiError::InvalidAccountOwner => 12,
            HapiError::InvalidAccountType => 13,
            HapiError::NotEnoughAccountKeys => 14,
            HapiError::InvalidAccountAddress => 15,
            HapiError::AccountDataTooSmall => 16,
        }
    }
}

/// Why a "community/network" path could not be split.
#[derive(Clone, Copy, Debug, PartialEq, Eq, Structural)]
pub enum NetworkParseError {
    /// Community name not found.
    InvalidCommunityName,
    /// Network name not found.
    InvalidNetworkName,
}

/// Why a typed-in name could not be read.
#[derive(Clone, Copy, Debug, PartialEq, Eq, Structural)]
pub enum NameParseError {
    /// Not one of the reporter levels.
    UnknownReporterType,
    /// Not one of the case statuses.
    UnknownCaseStatus,
    /// Not one of the categories.
    UnknownCategory,
}

} // verus!
