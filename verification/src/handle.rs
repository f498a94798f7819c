//! Identities of interactive elements.

use vstd::prelude::*;

verus! {

/// Identity of one interactive element owned by the rendering layer.
///
/// A handle is only stored and compared; the bits behind it are whatever the
/// rendering layer uses to name the element.
#[derive(Clone, Copy, Debug, PartialEq, Eq, Hash, Structural)]
pub struct ElementHandle(pub u64);

impl ElementHandle {
    /// The handle that stands for the element named by `bits`.
    pub fn from_bits(bits: u64) -> (handle: ElementHandle)
        ensures
            handle == ElementHandle(bits),
    {
        ElementHandle(bits)
    }

    /// The bits that name the element.
    pub fn to_bits(self) -> (bits: u64)
        ensures
            bits == self.0,
    {
        self.0
    }
}

} // verus!
