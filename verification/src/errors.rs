//! The failures a reloadable module slot can surface.

use vstd::prelude::*;

verus! {

/// Why a module file could not be loaded.
#[derive(Clone, Copy, Debug, PartialEq, Eq, Structural)]
pub enum LoadError {
    /// The module file is missing or unreadable.
    NotFound,
    /// The file was read but does not export the expected protocol table.
    BadModule,
}

/// A filesystem-subscription setup failure, described by the message the
/// watching backend gave.
#[derive(Debug)]
pub struct WatchError {
    pub(crate) msg: String,
}

impl WatchError {
    /// What went wrong, in the watching backend's words.
    pub closed spec fn view(&self) -> Seq<char> {
        self.msg@
    }

    /// The backend's description of the failure.
    pub fn message(&self) -> (r: &str)
        ensures
            r@ == self@,
    {
        self.msg.as_str()
    }
}

/// The errors that can occur while working with a reloadable module slot.
#[derive(Debug)]
pub enum Error {
    /// Loading or reloading the module failed.
    Load(LoadError),
    /// The filesystem watcher could not be set up.
    Watch(WatchError),
    /// The `Host` type of the host and module don't match. The engine
    /// performs no layout check, so it never produces this value itself.
    MismatchedHost,
}

} // verus!
