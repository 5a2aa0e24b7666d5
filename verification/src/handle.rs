//! Handles to objects that foreign code allocates.
//!
//! A handle is the address of a foreign object, kept as a number. It is
//! compared and tested for null here and never followed: only the foreign
//! functions look behind it.

use vstd::prelude::*;

verus! {

/// The address of a foreign object; zero is the null handle.
#[derive(Clone, Copy, Debug, PartialEq, Eq, Hash, Structural)]
pub struct Handle {
    pub address: usize,
}

impl Handle {
    /// `true` for the handle that refers to no object.
    pub open spec fn spec_is_null(&self) -> bool {
        self.address == 0
    }

    /// The handle that refers to no object.
    pub fn null() -> (handle: Handle)
        ensures
            handle.spec_is_null(),
            handle.address == 0,
    {
        Handle { address: 0 }
    }

    /// Whether the handle refers to no object.
    #[verifier::when_used_as_spec(spec_is_null)]
    pub fn is_null(&self) -> (null: bool)
        ensures
            null == self.spec_is_null(),
    {
        self.address == 0
    }

    /// The handle itself, unless it is null.
    pub fn non_null(self) -> (handle: Option<Handle>)
        ensures
            handle == if self.is_null() {
                None
            } else {
                Some(self)
            },
    {
        if self.address == 0 {
            None
        } else {
            Some(self)
        }
    }

    /// What a foreign constructor gave: the object, or the failure that a
    /// null handle stands for. No detail is known of such a failure.
    pub fn acquired(self) -> (object: Result<Handle, ()>)
        ensures
            object == if self.is_null() {
                Err::<Handle, ()>(())
            } else {
                Ok(self)
            },
    {
        if self.address == 0 {
            Err(())
        } else {
            Ok(self)
        }
    }
}

} // verus!
