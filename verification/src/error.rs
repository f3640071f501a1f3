//! What can go wrong between a typed answer and a generated password.

use vstd::prelude::*;

verus! {

/// Why a submitted line did not become a value.
#[derive(Clone, Copy, Debug, PartialEq, Eq, Structural)]
pub enum InputError {
    /// The line is not of the form that the prompt accepts. The operator is
    /// told so and asked again.
    InvalidFormat,
    /// The line is a number too large for the count it was meant for. There
    /// is no recovery: the run ends.
    Overflow,
}

/// Why no password was generated.
#[derive(Clone, Copy, Debug, PartialEq, Eq, Structural)]
pub enum BuildError {
    /// No component was selected, so there is nothing to draw from.
    EmptyPool,
}

} // verus!
