use vstd::prelude::*;

verus! {

/// How the fetch of the asset failed.
#[derive(Clone, Copy, Debug, PartialEq, Eq, Structural)]
pub enum FetchFailure {
    /// The request never produced a response (network or transport failure).
    Transport,
    /// The server answered with a status outside the success range.
    Status(u16),
    /// The response body could not be read.
    Body,
}

/// Why a drawing context with a stencil buffer could not be established.
#[derive(Clone, Copy, Debug, PartialEq, Eq, Structural)]
pub enum ContextFailure {
    /// The host refused the option that asks for a stencil buffer.
    StencilOptionRejected,
    /// The host raised an error while creating the context.
    Refused,
    /// The host has no context of the requested kind.
    Unavailable,
    /// The host returned an object that is not the requested kind of context.
    WrongKind,
    /// A context was created but it has no stencil buffer.
    NoStencil,
}

/// Every fatal error of a viewer session.
#[derive(Clone, Copy, Debug, PartialEq, Eq, Structural)]
pub enum ViewerError {
    /// The host document has no drawing surface under the expected id.
    SurfaceNotFound,
    /// No drawing context with a stencil buffer could be established.
    ContextCreation(ContextFailure),
    /// The asset could not be downloaded.
    Fetch(FetchFailure),
    /// The downloaded bytes are not a valid puppet.
    Decode,
    /// The producer went away without handing over a model.
    ChannelClosed,
    /// The renderer could not be created or prepared with the model.
    RenderInit,
}

/// How a viewer session ended: the host closed it, or a fatal error crashed it.
#[derive(Clone, Copy, Debug, PartialEq, Eq, Structural)]
pub enum SessionEnd {
    Closed,
    Crashed(ViewerError),
}

impl SessionEnd {
    /// Whether the session ended on the host's request rather than on an error.
    pub fn is_normal(&self) -> (r: bool)
        ensures
            r == (*self is Closed),
    {
        match self {
            SessionEnd::Closed => true,
            SessionEnd::Crashed(_) => false,
        }
    }
}

} // verus!
