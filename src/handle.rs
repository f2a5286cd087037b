//! Identities of foreign objects.
use vstd::prelude::*;

verus! {

/// The identity of one object owned by the foreign library: its address.
///
/// A handle is plain data. Copying it copies the identity, never the object,
/// and two handles name the same object exactly when their addresses agree.
/// The null address names no object.
#[derive(Clone, Copy, Debug, PartialEq, Eq, Structural)]
pub struct RawHandle {
    pub addr: usize,
}

impl RawHandle {
    /// The handle that names no object.
    pub fn null() -> (r: RawHandle)
        ensures
            r.addr == 0,
    {
        RawHandle { addr: 0 }
    }

    /// Whether this handle names no object.
    pub fn is_null(&self) -> (r: bool)
        ensures
            r == (self.addr == 0),
    {
        self.addr == 0
    }
}

} // verus!
