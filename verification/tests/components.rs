//! The leaf components: text buffer, state buffer, event filtering, the
//! example counter module, and the notify-backed watcher.

use live_reload::{
    Buffer, BUFFER_CAPACITY, CounterModule, Error, EventSource, FileWatcher, FsEvent, FsEventKind,
    LoadError, Loader, ReloadApi, Reloadable, SaveState, ShouldQuit,
};
use live_reload::state::realloc_buffer;
use live_reload::watch::is_relevant;

#[test]
fn buffer_starts_empty() {
    let b = Buffer::new();
    assert_eq!(b.as_str(), "");
    assert_eq!(b.unused(), BUFFER_CAPACITY);
}

#[test]
fn buffer_appends_and_counts_bytes() {
    let mut b = Buffer::new();
    b.write_str("Counter: 6.\n").unwrap();
    assert_eq!(b.as_str(), "Counter: 6.\n");
    assert_eq!(b.unused(), BUFFER_CAPACITY - 12);
    b.write_str("done").unwrap();
    assert_eq!(b.as_str(), "Counter: 6.\ndone");
}

#[test]
fn buffer_counts_multibyte_text_in_bytes() {
    let mut b = Buffer::new();
    b.write_str("héllo").unwrap();
    assert_eq!(b.unused(), BUFFER_CAPACITY - 6);
    assert_eq!(b.as_str(), "héllo");
}

#[test]
fn buffer_refuses_overflow_whole() {
    let mut b = Buffer::new();
    let chunk = "x".repeat(BUFFER_CAPACITY - 3);
    b.write_str(&chunk).unwrap();
    assert_eq!(b.unused(), 3);
    assert!(b.write_str("four").is_err());
    assert_eq!(b.as_str(), chunk);
    b.write_str("abc").unwrap();
    assert_eq!(b.unused(), 0);
    assert!(b.write_str("y").is_err());
}

#[test]
fn realloc_rounds_up_to_words() {
    let mut v: Vec<u64> = Vec::new();
    realloc_buffer(&mut v, 1);
    assert_eq!(v.len(), 1);
    realloc_buffer(&mut v, 8);
    assert_eq!(v.len(), 1);
    realloc_buffer(&mut v, 9);
    assert_eq!(v.len(), 2);
    realloc_buffer(&mut v, 0);
    assert_eq!(v.len(), 0);
}

#[test]
fn realloc_grow_preserves_prefix_and_zero_fills() {
    let mut v: Vec<u64> = vec![3, 4];
    realloc_buffer(&mut v, 32);
    assert_eq!(v, vec![3, 4, 0, 0]);
}

#[test]
fn realloc_shrink_discards_tail() {
    let mut v: Vec<u64> = vec![3, 4, 5];
    realloc_buffer(&mut v, 10);
    assert_eq!(v, vec![3, 4]);
}

#[test]
fn snapshot_and_restore_round_trip() {
    let v: Vec<u64> = vec![9, 8, 7];
    let snap = SaveState::of_buffer(&v);
    assert_eq!(snap.words(), &v);
    let mut other: Vec<u64> = vec![1];
    snap.restore_into(&mut other);
    assert_eq!(other, v);
}

#[test]
fn relevance_needs_matching_path_and_kind() {
    let target = String::from("/a/b/lib.so");
    let write = FsEvent { kind: FsEventKind::Write, path: target.clone() };
    let create = FsEvent { kind: FsEventKind::Create, path: target.clone() };
    let notice = FsEvent { kind: FsEventKind::NoticeWrite, path: target.clone() };
    let other_kind = FsEvent { kind: FsEventKind::Other, path: target.clone() };
    let other_path = FsEvent { kind: FsEventKind::Write, path: String::from("/a/b/else.so") };
    assert!(is_relevant(&write, &target));
    assert!(is_relevant(&create, &target));
    assert!(is_relevant(&notice, &target));
    assert!(!is_relevant(&other_kind, &target));
    assert!(!is_relevant(&other_path, &target));
}

/// A loader that always serves the library's example counter module.
struct CounterLoader;

impl Loader<()> for CounterLoader {
    type M = CounterModule;

    fn load(&mut self, _path: &str) -> Result<CounterModule, LoadError> {
        Ok(CounterModule)
    }
}

/// An event source that never reports anything.
struct NoEvents;

impl EventSource for NoEvents {
    fn try_next(&mut self) -> Option<FsEvent> {
        None
    }
}

#[test]
fn counter_module_declares_one_word() {
    let m = CounterModule;
    let size: usize = ReloadApi::<()>::size(&m);
    assert_eq!(size, 8);
}

#[test]
fn counter_module_full_lifecycle() {
    let mut app =
        Reloadable::new(String::from("counter"), (), CounterLoader, NoEvents).unwrap();
    for _ in 0..3 {
        assert_eq!(app.update(), ShouldQuit::No);
    }
    assert_eq!(app.save_state().words()[0], 6);
    app.reload_now().unwrap();
    // the counter survives the swap: reload keeps the state word
    assert_eq!(app.save_state().words()[0], 6);
    assert_eq!(app.update(), ShouldQuit::No);
    assert_eq!(app.save_state().words()[0], 8);
}

#[test]
fn watcher_rejects_missing_directory() {
    let r = FileWatcher::new("/surely/not/a/directory/anywhere");
    match r {
        Err(Error::Watch(w)) => assert!(!w.message().is_empty()),
        _ => panic!("expected a watch error"),
    }
}

#[test]
fn watcher_on_current_directory_is_quiet() {
    let mut w = FileWatcher::new(".").unwrap();
    assert!(w.try_next().is_none());
}
