//! A safe, checked model of a binding layer over a native 2D drawing toolkit.
//!
//! The library wraps externally owned drawing resources (paths, transforms,
//! images) as non-owning handles, resolves high-level brush and stroke
//! descriptors into native-shaped structures at the moment of use, and
//! forwards each drawing operation as exactly one native call.  Instead of
//! trusting raw pointers, every operation validates its arguments and the
//! callback validity window first and reports a typed error, and the calls
//! that would reach the native toolkit are recorded on the context itself so
//! that forwarding, argument preservation and save/restore discipline are
//! stated and proved rather than assumed.

pub mod draw;
