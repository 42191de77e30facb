//! Declaration-time diagnostics.
//!
//! Both errors surface as compile-time diagnostics at the declaration site;
//! generation for that declaration is aborted and nothing partial is emitted.

use vstd::prelude::*;

verus! {

/// Why a deferred-static declaration was rejected.
#[derive(Clone, Copy, Debug, PartialEq, Eq, Structural)]
pub enum ExpandError {
    /// A configuration token other than `Send` or `Sync` was given.
    UnrecognizedMarker,
    /// The declared static is mutable, which would defeat the write-once
    /// contract of the backing storage.
    MutableStatic,
}

impl ExpandError {
    /// The diagnostic message reported for this error. The message for an
    /// unrecognized marker names the whole allowed set.
    pub fn message(&self) -> (r: &'static str)
        ensures
            *self == ExpandError::UnrecognizedMarker ==> r@ == (
            "Expected 'Send' and/or 'Sync' as arguments to #[sly_static]")@,
            *self == ExpandError::MutableStatic ==> r@ == (
            "#[sly_static] static must not be mutable")@,
    {
        match self {
            ExpandError::UnrecognizedMarker => {
                "Expected 'Send' and/or 'Sync' as arguments to #[sly_static]"
            },
            ExpandError::MutableStatic => "#[sly_static] static must not be mutable",
        }
    }
}

} // verus!
