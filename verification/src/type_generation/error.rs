//! The error type generation reports.
use vstd::prelude::*;

verus! {

#[verifier::external_type_specification]
#[verifier::external_body]
pub struct ExIoError(std::io::Error);

/// Why type generation failed.
#[derive(Debug)]
pub enum TypeGenError {
    /// Type generation failed, for the reason given.
    Generation(String),
    /// The generated types could not be written.
    Io(std::io::Error),
    /// `pnpm`, which TypeScript generation runs, is not installed.
    PnpmNotFound(std::io::Error),
}

impl TypeGenError {
    /// The error for a failure to start `pnpm`: that it is not installed when
    /// the failure is that the program was not found (`not_found`), otherwise
    /// the I/O error itself.
    pub fn pnpm_failure(error: std::io::Error, not_found: bool) -> (e: Self)
        ensures
            not_found ==> e == TypeGenError::PnpmNotFound(error),
            !not_found ==> e == TypeGenError::Io(error),
    {
        if not_found {
            TypeGenError::PnpmNotFound(error)
        } else {
            TypeGenError::Io(error)
        }
    }

    /// Whether this is a generation failure with exactly `message`.
    pub open spec fn is_generation(self, message: Seq<char>) -> bool {
        self matches TypeGenError::Generation(m) && m@ == message
    }
}

} // verus!
