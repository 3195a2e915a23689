//! The ways in which a caller or an effect can misuse the framework.

use vstd::prelude::*;

verus! {

/// A contract violation reported by the buffer store or by a driver.
#[derive(Clone, Copy, Debug, PartialEq, Eq, Structural)]
pub enum EffectError {
    /// A buffer of that name was already created.
    DuplicateBuffer,
    /// No buffer of that name exists.
    MissingBuffer,
    /// The buffer exists but holds another element type.
    TypeMismatch,
    /// The buffer, or the domain, has no element at that index.
    IndexOutOfRange,
    /// The driver already holds a domain.
    AlreadyMounted,
    /// The driver holds no domain.
    NotMounted,
}

impl EffectError {
    /// A short description for logs and panics.
    pub fn describe(&self) -> (text: &'static str)
        ensures
            text@ == Self::description(*self),
    {
        match self {
            EffectError::DuplicateBuffer => "a buffer of that name already exists",
            EffectError::MissingBuffer => "there is no buffer of that name",
            EffectError::TypeMismatch => "the buffer holds another element type",
            EffectError::IndexOutOfRange => "there is no element at that index",
            EffectError::AlreadyMounted => "the driver already holds a domain",
            EffectError::NotMounted => "the driver holds no domain",
        }
    }

    /// The text that [`EffectError::describe`] returns.
    pub open spec fn description(e: EffectError) -> Seq<char> {
        match e {
            EffectError::DuplicateBuffer => "a buffer of that name already exists"@,
            EffectError::MissingBuffer => "there is no buffer of that name"@,
            EffectError::TypeMismatch => "the buffer holds another element type"@,
            EffectError::IndexOutOfRange => "there is no element at that index"@,
            EffectError::AlreadyMounted => "the driver already holds a domain"@,
            EffectError::NotMounted => "the driver holds no domain"@,
        }
    }
}

} // verus!
