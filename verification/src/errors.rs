//! The failure taxonomy shared by the painter and the windowing glue
//! around it.

use vstd::prelude::*;

verus! {

/// Relies on winit::error::OsError, the windowing layer's type for an
/// operating-system failure; it is carried through opaque, never
/// inspected here.
#[verifier::external_type_specification]
#[verifier::external_body]
pub struct ExOsError(winit::error::OsError);

/// Relies on winit::error::EventLoopError, the windowing layer's type
/// for an event-loop failure; it is carried through opaque, never
/// inspected here.
#[verifier::external_type_specification]
#[verifier::external_body]
pub struct ExEventLoopError(winit::error::EventLoopError);

/// The failure modes this subsystem surfaces. The two windowing-layer
/// variants are pass-through wraps; only [`Error::CompileShader`] is
/// produced by the painter itself.
#[derive(Debug)]
#[non_exhaustive]
pub enum Error {
    /// The operating system could not perform the requested windowing
    /// operation.
    OsError(winit::error::OsError),
    /// The windowing event loop failed.
    EventLoopError(winit::error::EventLoopError),
    /// A shader object could not be created, or failed to compile or
    /// link.
    CompileShader,
}

} // verus!
