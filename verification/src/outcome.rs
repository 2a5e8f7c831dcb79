//! Outcomes of filesystem calls, and the two existence-check policies.
//!
//! The filesystem calls themselves live with the caller; they hand their
//! outcome back as a plain value, and the policies here decide what an
//! existence check reports for every possible outcome.

use vstd::prelude::*;

verus! {

/// The kind of error a filesystem call reports. The taxonomy is the
/// platform's, carried as a plain value; `Other` stands for every kind the
/// taxonomy does not single out.
#[derive(Clone, Copy, Debug, PartialEq, Eq, Structural)]
pub enum FsErrorKind {
    NotFound,
    PermissionDenied,
    AlreadyExists,
    NotADirectory,
    DirectoryNotEmpty,
    CrossDevice,
    Other,
}

/// The policy of `exists`: the entity exists exactly when the metadata query
/// succeeded, and every error — plain absence, a permission error, a broken
/// link — is swallowed into `false`. This policy never raises an error on
/// any outcome.
pub fn exists_from_outcome(outcome: Result<(), FsErrorKind>) -> (b: bool)
    ensures
        b == (outcome is Ok),
{
    match outcome {
        Ok(_) => true,
        Err(_) => false,
    }
}

/// The policy of `try_exists`: a successful metadata query is `Ok(true)`,
/// plain absence is `Ok(false)` and no error, and every other error — one
/// unrelated to the path not existing, such as permission denied on an
/// ancestor — is surfaced unchanged. An error is raised if and only if the
/// outcome is an error other than absence.
pub fn try_exists_from_outcome(outcome: Result<(), FsErrorKind>) -> (r: Result<
    bool,
    FsErrorKind,
>)
    ensures
        match outcome {
            Ok(_) => r == Result::<bool, FsErrorKind>::Ok(true),
            Err(k) => if k == FsErrorKind::NotFound {
                r == Result::<bool, FsErrorKind>::Ok(false)
            } else {
                r == Result::<bool, FsErrorKind>::Err(k)
            },
        },
{
    match outcome {
        Ok(_) => Ok(true),
        Err(k) => if k == FsErrorKind::NotFound {
            Ok(false)
        } else {
            Err(k)
        },
    }
}

} // verus!
