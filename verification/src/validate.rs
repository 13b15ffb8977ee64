//! Structural validation of the annotated function.
//!
//! Four checks run in a fixed priority order, so that of several violations
//! only the first applicable one is ever reported: the function must be
//! asynchronous, must not be `const`, must not be variadic, and must not be
//! an instance method. A declaration that passes all four becomes a
//! [`FnItem`], whose invariant records exactly those four facts.

use vstd::prelude::*;
use crate::model::{ExpandError, RawFn};

verus! {

/// A validated function declaration: [`RawFn`] plus the four structural
/// guarantees, established once at construction and never rechecked.
pub struct FnItem {
    /// The underlying declaration.
    pub decl: RawFn,
}

impl FnItem {
    /// The invariant every value produced by [`validate`] satisfies.
    pub open spec fn wf(self) -> bool {
        &&& self.decl.is_async
        &&& !self.decl.is_const
        &&& !self.decl.is_variadic
        &&& !self.decl.first_input_is_receiver()
    }
}

/// The outcome of the four checks on a declaration, in their priority
/// order: the first violated check decides, later ones are not consulted.
pub open spec fn spec_validation(f: RawFn) -> Option<ExpandError> {
    if !f.is_async {
        Some(ExpandError::NotAsync)
    } else if f.is_const {
        Some(ExpandError::ConstFn)
    } else if f.is_variadic {
        Some(ExpandError::Variadic)
    } else if f.first_input_is_receiver() {
        Some(ExpandError::MethodReceiver)
    } else {
        None
    }
}

/// Checks the four structural rules and wraps the declaration on success.
///
/// The result is a function of the input alone: on failure it is exactly
/// the first violated check's error, on success the declaration itself,
/// untouched, with the invariant established.
pub fn validate(f: RawFn) -> (r: Result<FnItem, ExpandError>)
    ensures
        match r {
            Ok(item) => spec_validation(f) is None && item.decl == f && item.wf(),
            Err(e) => spec_validation(f) == Some(e),
        },
{
    if !f.is_async {
        return Err(ExpandError::NotAsync);
    }
    if f.is_const {
        return Err(ExpandError::ConstFn);
    }
    if f.is_variadic {
        return Err(ExpandError::Variadic);
    }
    if f.inputs.len() > 0 && f.inputs[0].is_receiver() {
        return Err(ExpandError::MethodReceiver);
    }
    Ok(FnItem { decl: f })
}

/// A synchronous declaration is always refused as not-async, whatever its
/// other qualifiers: no later check can mask the first one.
pub proof fn lemma_not_async_takes_priority(f: RawFn)
    requires
        !f.is_async,
    ensures
        spec_validation(f) == Some(ExpandError::NotAsync),
{
}

/// On a declaration that is both synchronous and `const`, the
/// const-function refusal is not the one reported: the not-async check
/// comes first in the fixed priority order.
pub proof fn lemma_const_not_reported_before_async(f: RawFn)
    requires
        !f.is_async,
        f.is_const,
    ensures
        spec_validation(f) == Some(ExpandError::NotAsync),
        spec_validation(f) != Some(ExpandError::ConstFn),
{
}

/// Validation is a pure function of the declaration: the same input always
/// yields the same verdict, so diagnostics are deterministic.
pub proof fn lemma_validation_deterministic(f1: RawFn, f2: RawFn)
    requires
        f1 == f2,
    ensures
        spec_validation(f1) == spec_validation(f2),
{
}

} // verus!
