use vstd::prelude::*;

verus! {

/// The kinds of failure the element reports, one for each recovery path a
/// consumer may take.
#[derive(Clone, Copy, Debug, PartialEq, Eq, Structural)]
pub enum SourceError {
    /// The backend could not be built, or the internal preroll failed.
    Init,
    /// The backend failed to deliver a frame.
    BackendRead,
    /// A frame came in a pixel layout that has no translation.
    UnsupportedFormat,
    /// The consumer rejected a proposed format.
    Negotiation,
    /// Production was asked for without an active backend.
    NotNegotiated,
    /// A stop was asked for without an active backend.
    Shutdown,
}

} // verus!
