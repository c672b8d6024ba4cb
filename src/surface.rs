use vstd::prelude::*;
use crate::error::{ContextFailure, ViewerError};
use crate::render_loop::Viewport;

verus! {

/// What the host reported when asked for a drawing context with a stencil buffer.
#[derive(Clone, Copy, Debug, PartialEq, Eq, Structural)]
pub enum ContextProbe {
    /// Setting the stencil option on the context request failed.
    OptionRejected,
    /// Creating the context raised an error.
    Refused,
    /// The host has no context of the requested kind.
    Missing,
    /// The host returned an object of another kind.
    WrongKind,
    /// A context was created; `stencil` says whether it has a stencil buffer.
    Created { stencil: bool },
}

pub open spec fn context_outcome(probe: ContextProbe) -> Result<(), ViewerError> {
    match probe {
        ContextProbe::Created { stencil: true } => Ok(()),
        ContextProbe::Created { stencil: false } => Err(
            ViewerError::ContextCreation(ContextFailure::NoStencil),
        ),
        ContextProbe::OptionRejected => Err(
            ViewerError::ContextCreation(ContextFailure::StencilOptionRejected),
        ),
        ContextProbe::Refused => Err(ViewerError::ContextCreation(ContextFailure::Refused)),
        ContextProbe::Missing => Err(ViewerError::ContextCreation(ContextFailure::Unavailable)),
        ContextProbe::WrongKind => Err(ViewerError::ContextCreation(ContextFailure::WrongKind)),
    }
}

/// Binds the drawing surface found by the host, if it found one.
pub fn bind_surface(found: Option<Viewport>) -> (r: Result<Viewport, ViewerError>)
    ensures
        match found {
            Some(v) => r == Ok::<Viewport, ViewerError>(v),
            None => r == Err::<Viewport, ViewerError>(ViewerError::SurfaceNotFound),
        },
{
    match found {
        Some(v) => Ok(v),
        None => Err(ViewerError::SurfaceNotFound),
    }
}

/// Accepts a context only if it has a stencil buffer; every other outcome
/// is a context creation error that keeps the reason.
pub fn settle_context(probe: ContextProbe) -> (r: Result<(), ViewerError>)
    ensures
        r == context_outcome(probe),
        r is Ok <==> probe == (ContextProbe::Created { stencil: true }),
{
    match probe {
        ContextProbe::Created { stencil } => if stencil {
            Ok(())
        } else {
            Err(ViewerError::ContextCreation(ContextFailure::NoStencil))
        },
        ContextProbe::OptionRejected => Err(
            ViewerError::ContextCreation(ContextFailure::StencilOptionRejected),
        ),
        ContextProbe::Refused => Err(ViewerError::ContextCreation(ContextFailure::Refused)),
        ContextProbe::Missing => Err(ViewerError::ContextCreation(ContextFailure::Unavailable)),
        ContextProbe::WrongKind => Err(ViewerError::ContextCreation(ContextFailure::WrongKind)),
    }
}

} // verus!
