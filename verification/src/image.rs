//! Decisions around client-side images.
//!
//! The image itself lives in foreign memory. What is decided here is whether
//! a foreign call produced an image at all, and whether a conversion to the
//! server's native format produced a new one.

use crate::handle::Handle;
use vstd::prelude::*;

pub mod shm;

verus! {

/// Concludes fetching an image from a drawable: the image, or an error where
/// the foreign call gave none.
pub fn get(fetched: Handle) -> (image: Result<Handle, ()>)
    ensures
        image == if fetched.is_null() {
            Err::<Handle, ()>(())
        } else {
            Ok(fetched)
        },
{
    fetched.acquired()
}

/// Whether `image` is in the server's native format already. `native` is what
/// the foreign conversion gave when it was asked not to convert: the image
/// itself exactly when nothing needs converting.
pub fn is_native(image: Handle, native: Handle) -> (same: bool)
    ensures
        same == (native == image),
{
    native.address == image.address
}

/// Concludes converting `image` to the server's native format. `native` is
/// what the foreign conversion gave: a new image is handed out only if it is
/// one, that is neither null nor `image` itself.
pub fn to_native(image: Handle, native: Handle) -> (converted: Option<Handle>)
    ensures
        converted == if native == image || native.is_null() {
            None
        } else {
            Some(native)
        },
{
    if native.address == image.address || native.address == 0 {
        None
    } else {
        Some(native)
    }
}

} // verus!
