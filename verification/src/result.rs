//! Outcomes that cross the driver boundary.

use vstd::prelude::*;

verus! {

/// The outcome of a driver call.
///
/// `Success` and `Incomplete` are the two ways a call can go well; the
/// `Error*` variants reject a request for what it asks; `NotImplemented`
/// marks a valid request that the driver does not serve yet.
#[derive(Clone, Copy, Debug, PartialEq, Eq, Structural)]
pub enum VkResult {
    /// The call did all it was asked.
    Success,
    /// The output buffer was too small: it holds a prefix of the result.
    Incomplete,
    /// The request names a host allocator, which the driver does not take.
    ErrorInitializationFailed,
    /// The client asks for a version outside the supported window.
    ErrorIncompatibleDriver,
    /// The request names an extension that the driver does not list.
    ErrorExtensionNotPresent,
    /// The request is valid, and the driver has no code for it yet.
    NotImplemented,
}

impl VkResult {
    /// Whether the outcome is one of the two that are no errors.
    pub open spec fn spec_is_ok(self) -> bool {
        self == VkResult::Success || self == VkResult::Incomplete
    }

    /// Whether the outcome is one of the two that are no errors.
    #[verifier::when_used_as_spec(spec_is_ok)]
    pub fn is_ok(self) -> (r: bool)
        ensures
            r == self.spec_is_ok(),
    {
        match self {
            VkResult::Success => true,
            VkResult::Incomplete => true,
            _ => false,
        }
    }
}

} // verus!
