use vstd::prelude::*;

verus! {

/// The error of building a cipher from a key that is not 16, 24 or 32 bytes long.
#[derive(Debug, Clone, Copy, PartialEq, Eq)]
pub struct InvalidKeyLength;

impl InvalidKeyLength {
    /// A short description of the error.
    pub fn message(&self) -> (r: &'static str)
        ensures
            r@ == "invalid key length"@,
    {
        "invalid key length"
    }
}

} // verus!
