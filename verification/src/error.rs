//! The error taxonomy of the window manager.
//!
//! Startup errors (`ConnectionError`, `AlreadyManagedError`) are fatal and
//! surface at the process boundary; the rest are recoverable: a failed
//! request is abandoned (`ProtocolError`), a pop on an empty window list
//! makes the triggering command a no-op (`EmptyListError`), and a binding
//! whose key symbol has no device keycode is skipped (`KeysymResolutionError`).

use vstd::prelude::*;

verus! {

/// Everything that can go wrong inside the manager.
#[derive(Clone, Debug, PartialEq, Eq)]
pub enum WmError {
    /// The display server cannot be reached, or no root window was found.
    ConnectionError,
    /// Another window manager already holds the root event mask.
    AlreadyManagedError,
    /// One request/reply round trip failed; carries the server's reason.
    ProtocolError(String),
    /// A pop was asked of an empty master or slave list.
    EmptyListError,
    /// The key symbol of a binding resolves to no device keycode.
    KeysymResolutionError(u32),
}

} // verus!
