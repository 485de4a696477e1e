//! I/O error values of std, behind a trusted wrapper.

use vstd::prelude::*;

verus! {

/// An I/O failure from std, opaque to the proofs.
#[verifier::external_type_specification]
#[verifier::external_body]
pub struct ExIoError(std::io::Error);

/// `<std::io::Error as Display>::fmt` through `format!("{}")`. The text of
/// an operating-system error comes from the platform, so nothing is stated.
#[verifier::external_body]
pub(crate) fn io_error_text(e: &std::io::Error) -> String {
    format!("{}", e)
}

} // verus!
