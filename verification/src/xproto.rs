//! Names for the fixed-width identifiers of the core protocol.
//!
//! An identifier refers to state held by the server and owns nothing.

use vstd::prelude::*;

verus! {

pub type Atom = u32;

pub type Window = u32;

pub type Pixmap = u32;

pub type Cursor = u32;

pub type Font = u32;

pub type Gravity = u32;

/// The atom that names nothing.
pub const ATOM_NONE: Atom = 0;

} // verus!
