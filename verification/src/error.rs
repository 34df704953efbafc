//! Why a file is not accepted for browsing.

use vstd::prelude::*;

verus! {

/// The reasons for which the library turns a file down.
#[derive(Debug, Clone, Copy, PartialEq, Eq, Structural, Hash)]
pub enum LoadError {
    /// The metadata names no row group, or a row group without columns.
    MalformedMetadata,
}

/// The error type of the input and output functions of the standard library.
/// Nothing is known of its values; the library only passes the type on in the
/// result of functions that callers chain with input and output of their own.
#[verifier::external_type_specification]
#[verifier::external_body]
pub struct ExIoError(std::io::Error);

} // verus!
