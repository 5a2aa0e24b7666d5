//! Verified decision logic for the X11 utility bindings: hint records,
//! request/reply bookkeeping, string-list encoding and the small protocols
//! (cursor creation, shared-memory images, client-window search) that sit
//! between a caller and the foreign calls.
//!
//! Nothing in this crate talks to a display server. Every function takes and
//! returns plain values, so the layer that owns the connection performs the
//! foreign call and hands the outcome back.
#![allow(non_snake_case)]

pub mod cursor;
pub mod ewmh;
pub mod handle;
pub mod icccm;
pub mod image;
pub mod misc;
pub mod reply;
pub mod util;
pub mod xproto;
