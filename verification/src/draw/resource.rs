//! Non-owning handles to toolkit-owned drawing resources, and the typed
//! errors reported when a handle or the calling context is not fit for use.

use vstd::prelude::*;

verus! {

/// The errors a drawing operation can report instead of forwarding a call
/// that the native layer would turn into undefined behavior.
#[derive(Clone, Copy, Debug, PartialEq, Eq, Structural)]
pub enum DrawError {
    /// The wrapped resource handle is null or already released.
    InvalidHandle,
    /// The operation was invoked outside the current paint callback's
    /// validity window (or the toolkit was never initialized, in which case
    /// no validity window exists at all).
    OutOfContext,
    /// The wrapped handle belongs to a different resource type than the
    /// operation expects.
    TypeMismatch,
}

/// The resource type a raw handle was issued for.  The raw boundary is
/// untyped, so a wrapper can be built around a handle of the wrong resource
/// type; operations detect that defensively instead of forwarding it.
#[derive(Clone, Copy, Debug, PartialEq, Eq, Structural)]
pub enum HandleKind {
    Path,
    Transform,
    Image,
}

/// Token recording whether the native toolkit has been initialized.  Every
/// drawing operation that the toolkit documents as requiring initialization
/// takes a reference to one.
#[derive(Clone, Copy, Debug, PartialEq, Eq, Structural)]
pub struct UI {
    pub initialized: bool,
}

/// An externally constructed geometric description, immutable once
/// finalized.  `raw` is a handle borrowed from the native toolkit; the
/// wrapper owns nothing and must not outlive the native object.
#[derive(Clone, Copy, Debug, PartialEq, Eq, Structural)]
pub struct Path {
    pub raw: u64,
    pub kind: HandleKind,
}

/// A 2D affine matrix, held as an opaque native handle and forwarded as-is.
#[derive(Clone, Copy, Debug, PartialEq, Eq, Structural)]
pub struct Transform {
    pub raw: u64,
    pub kind: HandleKind,
}

/// A decoded pixel buffer owned elsewhere; only its native handle is read
/// during a blit.
#[derive(Clone, Copy, Debug, PartialEq, Eq, Structural)]
pub struct Image {
    pub raw: u64,
    pub kind: HandleKind,
}

/// The defensive check every operation runs on a resource handle before
/// forwarding it: a null handle is invalid, a handle of another resource
/// type is a type mismatch, and otherwise the handle is accepted.
pub open spec fn handle_check(raw: u64, kind: HandleKind, want: HandleKind) -> Option<DrawError> {
    if raw == 0 {
        Some(DrawError::InvalidHandle)
    } else if kind != want {
        Some(DrawError::TypeMismatch)
    } else {
        None
    }
}

} // verus!
