//! Watching the module file for changes.
//!
//! A background notification thread (owned by the notify crate) feeds an
//! ordered queue of filesystem events; the orchestrator drains it without
//! blocking and reloads when an event concerns the watched file. Only
//! creations and writes to exactly the target path count; everything else
//! is discarded.

use vstd::prelude::*;
use crate::errors::Error;
use crate::errors::WatchError;

verus! {

/// The class of a filesystem event, as far as reload decisions care.
#[derive(Clone, Copy, Debug, PartialEq, Eq, Structural)]
pub enum FsEventKind {
    /// A write to a file was noticed ahead of its completion.
    NoticeWrite,
    /// A file was written.
    Write,
    /// A file was created.
    Create,
    /// Anything else: removals, renames, metadata changes, rescans.
    Other,
}

/// One filesystem event: its class and the path it concerns.
pub struct FsEvent {
    /// What happened.
    pub kind: FsEventKind,
    /// The path it happened to.
    pub path: String,
}

/// Whether one event should trigger a reload of the module at `target`:
/// it must be a creation or a write, to exactly that path.
pub open spec fn is_relevant_spec(e: FsEvent, target: Seq<char>) -> bool {
    &&& (e.kind == FsEventKind::NoticeWrite || e.kind == FsEventKind::Write || e.kind
        == FsEventKind::Create)
    &&& e.path@ == target
}

/// Decides whether `e` should trigger a reload of the module at `target`.
pub fn is_relevant(e: &FsEvent, target: &String) -> (r: bool)
    ensures
        r == is_relevant_spec(*e, target@),
{
    match e.kind {
        FsEventKind::NoticeWrite => e.path == *target,
        FsEventKind::Write => e.path == *target,
        FsEventKind::Create => e.path == *target,
        FsEventKind::Other => false,
    }
}

/// An ordered, non-blocking source of filesystem events.
///
/// The orchestrator only ever drains it; what arrives is up to the
/// implementation, so nothing is promised of `try_next`.
pub trait EventSource: Sized {
    /// Takes the next queued event, or reports that none is queued right
    /// now. Never blocks.
    fn try_next(&mut self) -> Option<FsEvent>;
}

#[verifier::external_type_specification]
#[verifier::external_body]
/// The watcher type the notify crate recommends for the platform.
pub struct ExRecommendedWatcher(notify::RecommendedWatcher);

#[verifier::external_type_specification]
#[verifier::external_body]
/// A debounced filesystem event of the notify crate.
pub struct ExDebouncedEvent(notify::DebouncedEvent);

#[verifier::external_type_specification]
#[verifier::external_body]
#[verifier::reject_recursive_types(T)]
/// The receiving half of a standard channel.
pub struct ExReceiver<T>(std::sync::mpsc::Receiver<T>);

/// Relies on notify::watcher: builds a watcher that debounces bursts of
/// events (a one-second window) into the returned channel. Nothing is
/// promised of it: whether it can start depends on the platform; a
/// failure comes back as the backend's message.
#[verifier::external_body]
fn make_watcher() -> (r: Result<
    (notify::RecommendedWatcher, std::sync::mpsc::Receiver<notify::DebouncedEvent>),
    WatchError,
>)
{
    let (tx, rx) = std::sync::mpsc::channel();
    match notify::watcher(tx, std::time::Duration::from_secs(1)) {
        Ok(w) => Ok((w, rx)),
        Err(e) => Err(WatchError { msg: format!("{}", e) }),
    }
}

/// Relies on notify::Watcher::watch: subscribes the watcher to `dir`,
/// non-recursively. Nothing is promised: the directory may be missing or
/// inaccessible; a failure comes back as the backend's message.
#[verifier::external_body]
fn watch_dir(w: &mut notify::RecommendedWatcher, dir: &str) -> (r: Result<(), WatchError>) {
    match notify::Watcher::watch(w, std::path::Path::new(dir), notify::RecursiveMode::NonRecursive)
    {
        Ok(()) => Ok(()),
        Err(e) => Err(WatchError { msg: format!("{}", e) }),
    }
}

/// Relies on std::sync::mpsc::Receiver::try_recv: takes one queued event
/// without blocking, if any. Creations and writes keep their class and
/// path; every other event comes back as `Other`, which reload decisions
/// discard.
#[verifier::external_body]
fn try_next_event(rx: &std::sync::mpsc::Receiver<notify::DebouncedEvent>) -> (r: Option<FsEvent>) {
    match rx.try_recv() {
        Ok(notify::DebouncedEvent::NoticeWrite(p)) => Some(
            FsEvent { kind: FsEventKind::NoticeWrite, path: p.to_string_lossy().into_owned() },
        ),
        Ok(notify::DebouncedEvent::Write(p)) => Some(
            FsEvent { kind: FsEventKind::Write, path: p.to_string_lossy().into_owned() },
        ),
        Ok(notify::DebouncedEvent::Create(p)) => Some(
            FsEvent { kind: FsEventKind::Create, path: p.to_string_lossy().into_owned() },
        ),
        Ok(_) => Some(FsEvent { kind: FsEventKind::Other, path: String::new() }),
        Err(_) => None,
    }
}

/// A filesystem-change subscription on one directory, backed by the
/// notify crate, feeding debounced events through a channel.
pub struct FileWatcher {
    watcher: notify::RecommendedWatcher,
    rx: std::sync::mpsc::Receiver<notify::DebouncedEvent>,
}

impl FileWatcher {
    /// Subscribes, non-recursively, to the directory holding the module
    /// file. Fails with `Error::Watch` when the subscription cannot be
    /// set up.
    pub fn new(dir: &str) -> (r: Result<FileWatcher, Error>)
        ensures
            r matches Err(e) ==> e is Watch,
    {
        match make_watcher() {
            Err(e) => Err(Error::Watch(e)),
            Ok((w, rx)) => {
                let mut w = w;
                match watch_dir(&mut w, dir) {
                    Err(e) => Err(Error::Watch(e)),
                    Ok(()) => Ok(FileWatcher { watcher: w, rx }),
                }
            },
        }
    }
}

impl EventSource for FileWatcher {
    fn try_next(&mut self) -> Option<FsEvent> {
        try_next_event(&self.rx)
    }
}

} // verus!
