//! Hot-swap a unit of compiled logic while the host process keeps running.
//!
//! A [`Reloadable`] owns one module slot, an opaque state buffer that
//! survives swaps, and a filesystem watcher that decides when to swap.
//! Modules expose the fixed lifecycle protocol [`ReloadApi`]; the host
//! hands the orchestrator a [`Loader`] that produces modules and an
//! [`EventSource`] that reports file changes.

pub mod buffer;
pub mod counter;
pub mod errors;
pub mod loader;
pub mod protocol;
pub mod reload;
pub mod state;
pub mod watch;

pub use buffer::Buffer;
pub use buffer::BUFFER_CAPACITY;
pub use counter::CounterModule;
pub use errors::Error;
pub use errors::LoadError;
pub use errors::WatchError;
pub use loader::Loader;
pub use protocol::LifecycleCall;
pub use protocol::ReloadApi;
pub use protocol::ShouldQuit;
pub use reload::Reloadable;
pub use state::SaveState;
pub use watch::EventSource;
pub use watch::FileWatcher;
pub use watch::FsEvent;
pub use watch::FsEventKind;
