//! Error types: boundary validation failures and render failures.

use vstd::prelude::*;

verus! {

/// Why a control request was rejected at the validation boundary, before
/// any State Cell mutation.
#[derive(Clone, Copy, Debug, PartialEq, Eq)]
pub enum ControlError {
    /// `SetNumber` only accepts positive ordinals.
    NonPositiveNumber,
}

/// A request-level failure: the projection renderer could not produce the
/// display text. Fatal to the one operation that asked for it, never to
/// the process.
#[derive(Debug)]
pub enum AppError {
    TemplateError(tera::Error),
}

} // verus!
