//! The reporter capability model: which level may perform which operation.
use crate::enums::ReporterType;
use crate::error::HapiError;
use crate::key::Key;
use crate::state::Reporter;
use vstd::prelude::*;

verus! {

/// The operations that reporters perform.
#[derive(Clone, Copy, Debug, PartialEq, Eq, Structural)]
pub enum Operation {
    ReportAddress,
    UpdateAddress,
    CreateCase,
    UpdateCase,
}

/// The rule table: whether a reporter of `level` may perform `op`;
/// `is_creator` says whether the reporter created the case in question.
pub open spec fn permits(level: ReporterType, op: Operation, is_creator: bool) -> bool {
    match level {
        ReporterType::Inactive => false,
        ReporterType::Tracer => op == Operation::ReportAddress || op == Operation::UpdateAddress,
        ReporterType::Full => op != Operation::UpdateCase || is_creator,
        ReporterType::Authority => true,
    }
}

/// The error that a denied operation fails with.
pub open spec fn denial(op: Operation) -> HapiError {
    match op {
        Operation::ReportAddress | Operation::UpdateAddress => HapiError::ReportingNotPermitted,
        Operation::CreateCase | Operation::UpdateCase => HapiError::InvalidReporterPermissions,
    }
}

/// The outcome of the capability check.
pub open spec fn permission(level: ReporterType, op: Operation, is_creator: bool) -> Result<(), HapiError> {
    if permits(level, op, is_creator) {
        Ok(())
    } else {
        Err(denial(op))
    }
}

/// Checks the rule table for a reporter of `level`.
pub fn check_permission(level: ReporterType, op: Operation, is_creator: bool) -> (r: Result<(), HapiError>)
    ensures
        r == permission(level, op, is_creator),
{
    let allowed = match level {
        ReporterType::Inactive => false,
        ReporterType::Tracer => match op {
            Operation::ReportAddress | Operation::UpdateAddress => true,
            _ => false,
        },
        ReporterType::Full => match op {
            Operation::UpdateCase => is_creator,
            _ => true,
        },
        ReporterType::Authority => true,
    };
    if allowed {
        Ok(())
    } else {
        match op {
            Operation::ReportAddress | Operation::UpdateAddress => Err(HapiError::ReportingNotPermitted),
            _ => Err(HapiError::InvalidReporterPermissions),
        }
    }
}

/// Checks that the reporter may report an address: any level but `Inactive`.
pub fn assert_reporter_can_report_address(reporter: &Reporter) -> (r: Result<(), HapiError>)
    ensures
        r == permission(reporter.reporter_type, Operation::ReportAddress, false),
        r is Ok <==> reporter.reporter_type != ReporterType::Inactive,
{
    check_permission(reporter.reporter_type, Operation::ReportAddress, false)
}

/// Checks that the reporter may create a case: `Full` or `Authority`.
pub fn assert_reporter_can_report_case(reporter: &Reporter) -> (r: Result<(), HapiError>)
    ensures
        r == permission(reporter.reporter_type, Operation::CreateCase, false),
        r is Ok <==> (reporter.reporter_type == ReporterType::Full || reporter.reporter_type
            == ReporterType::Authority),
{
    check_permission(reporter.reporter_type, Operation::CreateCase, false)
}

/// Checks that the reporter with key `signer` may update a case created by
/// `case_reporter`: `Authority` always, `Full` only on its own cases.
pub fn assert_reporter_can_update_case(signer: &Key, reporter: &Reporter, case_reporter: &Key) -> (r: Result<
    (),
    HapiError,
>)
    ensures
        r == permission(reporter.reporter_type, Operation::UpdateCase, *signer == *case_reporter),
        r is Ok <==> (reporter.reporter_type == ReporterType::Authority || (reporter.reporter_type
            == ReporterType::Full && *signer == *case_reporter)),
{
    check_permission(reporter.reporter_type, Operation::UpdateCase, *signer == *case_reporter)
}

} // verus!
