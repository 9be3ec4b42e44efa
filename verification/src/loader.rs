//! Producing loaded modules from a path.

use vstd::prelude::*;
use crate::errors::LoadError;
use crate::protocol::ReloadApi;

verus! {

/// Opens module files and resolves their protocol tables.
///
/// What opening means is the host's choice: a platform loader opens a
/// native dynamic module, a test loader serves stand-ins. Either a fully
/// usable module comes back or an error does; there is no partial state.
/// Nothing is promised of `load` itself: whether it succeeds depends on
/// what is on disk at the moment of the call.
pub trait Loader<Host>: Sized {
    /// The module type this loader produces.
    type M: ReloadApi<Host>;

    /// Opens the module file at `path` and resolves its protocol table.
    fn load(&mut self, path: &str) -> Result<Self::M, LoadError>;
}

} // verus!
