//! Status codes of the enumeration service and the failures of this library.

use vstd::prelude::*;

verus! {

/// How a table lookup or an image extraction fails.
#[derive(Clone, Copy, Debug, PartialEq, Eq, Structural)]
pub enum AcpiError {
    /// The enumeration service answered a query with the given status, which
    /// is neither success nor "not found".
    QueryFailed(usize),
    /// The scan ran out of candidates before any table matched.
    NotFound,
    /// The boot graphics resource table refers to no image.
    NoImage,
}

/// Whether `status` is the code for success.
pub open spec fn spec_is_success(status: usize) -> bool {
    status == 0
}

/// The status by which the service says that nothing is found: the error
/// bit, which is the top bit of the machine word, together with code 14.
pub open spec fn spec_not_found_status() -> usize {
    (usize::MAX / 2 + 1 + 14) as usize
}

/// What a status means for a scan: nothing to report on success, "not found"
/// for the status of that name, and a failed query for any other.
pub open spec fn spec_check_status(status: usize) -> Result<(), AcpiError> {
    if spec_is_success(status) {
        Ok(())
    } else if status == spec_not_found_status() {
        Err(AcpiError::NotFound)
    } else {
        Err(AcpiError::QueryFailed(status))
    }
}

/// Whether a status code reports success.
///
/// Trusted: calls `uefi::Status::is_success`, which compares the status with
/// `Status::SUCCESS`, the code 0. Warnings and errors alike are no success.
#[verifier::external_body]
pub(crate) fn status_is_success(status: usize) -> (ok: bool)
    ensures
        ok == spec_is_success(status),
{
    uefi::Status(status).is_success()
}

/// The code of the "not found" status.
///
/// Trusted: reads `uefi::Status::NOT_FOUND`, which is defined as
/// `Status::ERROR_BIT | 14`, where the error bit is `1 << (usize::BITS - 1)`.
#[verifier::external_body]
pub(crate) fn status_not_found() -> (status: usize)
    ensures
        status == spec_not_found_status(),
{
    uefi::Status::NOT_FOUND.0
}

/// Sorts a status into success and the two kinds of failure.
pub fn check_status(status: usize) -> (r: Result<(), AcpiError>)
    ensures
        r == spec_check_status(status),
{
    if status_is_success(status) {
        Ok(())
    } else if status == status_not_found() {
        Err(AcpiError::NotFound)
    } else {
        Err(AcpiError::QueryFailed(status))
    }
}

} // verus!
