//! Safe bindings for a hardware-acceleration plugin framework: sessions,
//! native-backed resources (models, shared objects), and typed tensor
//! arguments, with the resource lifecycle and session-binding protocol
//! stated and verified.

use vstd::prelude::*;

pub mod backend;
pub mod preprocess;
pub mod resources;
pub mod session;
pub mod torch;

pub use backend::Backend;
pub use resources::{AnyResource, Resource, SharedObject, SingleModel, VaccelHandle};
pub use session::Session;

verus! {

/// Identity assigned by the backend when a resource or session is created.
/// Valid ids are positive; `0` is the sentinel of a resource that has not
/// been created (or has been destroyed).
pub type VaccelId = i64;

/// Status code with which the backend reports success.
pub const VACCEL_OK: u32 = 0;

/// Status code with which the backend rejects an invalid id or argument.
pub const VACCEL_EINVAL: u32 = 22;

/// Status code with which the backend reports id-space exhaustion.
pub const VACCEL_ENOMEM: u32 = 12;

/// Typed errors surfaced by every fallible operation of this crate.
#[derive(Clone, Copy, Debug, PartialEq, Eq, Structural)]
pub enum Error {
    /// Bad input: empty path or buffer, mismatched tensor shape, or an
    /// operation attempted on an uninitialized or unregistered resource.
    InvalidArgument,
    /// The backend reported a failure; the status code is preserved.
    Runtime(u32),
    /// A downcast or typed read against the wrong concrete or element type.
    TypeMismatch,
    /// An index beyond the bounds of an output or dependency list.
    OutOfRange,
}

} // verus!
