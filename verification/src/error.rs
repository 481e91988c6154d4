//! The error type of the bundler's settings.

use vstd::prelude::*;

verus! {

/// An error of the bundler.
#[derive(Debug)]
pub enum Error {
    /// A failure described by its message.
    GenericError(String),
}

} // verus!
