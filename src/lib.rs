//! The native-interface layer of an OpenXR-backed OpenVR runtime.
//!
//! - `status`: the runtime's raw status codes as typed results.
//! - `extensions`: the device-space extension: which optional extensions a
//!   runtime advertises, an all-or-nothing loader of the extension's function
//!   table, and a device list that owns its handle. Every foreign call is made
//!   by a closure that the caller hands in; this crate decides what it is handed
//!   and what its outcome means.
//! - `interface`: the versions of the client-core interface that are served,
//!   and exported records that refer to their object only weakly.
use vstd::prelude::*;

pub mod extensions;
pub mod interface;
pub mod status;

verus! {

} // verus!
