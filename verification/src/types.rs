//! Shared newtype wrappers of the protocol's plain value types.

use vstd::prelude::*;

verus! {

/// A public key in its canonical, human-readable text form.
#[derive(Debug)]
pub struct ReadablePublicKey(pub String);

impl Clone for ReadablePublicKey {
    /// An exact copy.
    fn clone(&self) -> (r: Self)
        ensures
            r == *self,
    {
        ReadablePublicKey(self.0.clone())
    }
}

} // verus!
