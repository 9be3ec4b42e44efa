//! Lifecycle behavior of the orchestrator, driven by scripted stub
//! modules, loaders and event sources.

use live_reload::{
    Error, EventSource, FsEvent, FsEventKind, LoadError, Loader, ReloadApi, Reloadable, ShouldQuit,
};
use std::collections::VecDeque;

/// A capability object that counts every entry-point invocation.
#[derive(Debug, Default, Clone, PartialEq, Eq)]
struct CountingHost {
    inits: u32,
    reloads: u32,
    updates: u32,
    unloads: u32,
    deinits: u32,
    trace: Vec<&'static str>,
}

/// A module with a scripted size and step, counting calls in the host.
#[derive(Clone)]
struct StubModule {
    size: usize,
    step: u64,
    quit: bool,
}

impl ReloadApi<CountingHost> for StubModule {
    fn size(&self) -> usize {
        self.size
    }

    fn init(&self, host: &mut CountingHost, state: &mut Vec<u64>) {
        host.inits += 1;
        host.trace.push("init");
        if !state.is_empty() {
            state[0] = 0;
        }
    }

    fn reload(&self, host: &mut CountingHost, _state: &mut Vec<u64>) {
        host.reloads += 1;
        host.trace.push("reload");
    }

    fn update(&self, host: &mut CountingHost, state: &mut Vec<u64>) -> ShouldQuit {
        host.updates += 1;
        host.trace.push("update");
        if !state.is_empty() {
            state[0] = state[0].wrapping_add(self.step);
        }
        if self.quit {
            ShouldQuit::Yes
        } else {
            ShouldQuit::No
        }
    }

    fn unload(&self, host: &mut CountingHost, _state: &mut Vec<u64>) {
        host.unloads += 1;
        host.trace.push("unload");
    }

    fn deinit(&self, host: &mut CountingHost, _state: &mut Vec<u64>) {
        host.deinits += 1;
        host.trace.push("deinit");
    }
}

/// Serves scripted load outcomes in order; once the script runs dry,
/// every further load fails as missing.
struct ScriptLoader {
    script: VecDeque<Result<StubModule, LoadError>>,
}

impl ScriptLoader {
    fn new(script: Vec<Result<StubModule, LoadError>>) -> Self {
        ScriptLoader { script: script.into_iter().collect() }
    }
}

impl Loader<CountingHost> for ScriptLoader {
    type M = StubModule;

    fn load(&mut self, _path: &str) -> Result<StubModule, LoadError> {
        self.script.pop_front().unwrap_or(Err(LoadError::NotFound))
    }
}

/// Hands out queued events, then reports none.
struct StubEvents {
    queue: VecDeque<FsEvent>,
}

impl StubEvents {
    fn with(events: Vec<FsEvent>) -> Self {
        StubEvents { queue: events.into_iter().collect() }
    }
}

impl EventSource for StubEvents {
    fn try_next(&mut self) -> Option<FsEvent> {
        self.queue.pop_front()
    }
}

fn counter_stub() -> StubModule {
    StubModule { size: 8, step: 2, quit: false }
}

fn make_app(
    script: Vec<Result<StubModule, LoadError>>,
    events: Vec<FsEvent>,
) -> Result<Reloadable<CountingHost, ScriptLoader, StubEvents>, Error> {
    Reloadable::new(
        String::from("/proj/target/libdemo.so"),
        CountingHost::default(),
        ScriptLoader::new(script),
        StubEvents::with(events),
    )
}

#[test]
fn construct_calls_init_exactly_once() {
    let app = make_app(vec![Ok(counter_stub())], vec![]).unwrap();
    assert_eq!(app.host().inits, 1);
    assert_eq!(app.host().reloads, 0);
    assert_eq!(app.host().updates, 0);
}

#[test]
fn construct_fails_without_module() {
    let r = make_app(vec![Err(LoadError::NotFound)], vec![]);
    assert!(matches!(r, Err(Error::Load(LoadError::NotFound))));
}

#[test]
fn construct_surfaces_bad_module() {
    let r = make_app(vec![Err(LoadError::BadModule)], vec![]);
    assert!(matches!(r, Err(Error::Load(LoadError::BadModule))));
}

#[test]
fn three_updates_step_counter_to_six() {
    let mut app = make_app(vec![Ok(counter_stub())], vec![]).unwrap();
    for _ in 0..3 {
        assert_eq!(app.update(), ShouldQuit::No);
    }
    let snap = app.save_state();
    assert_eq!(snap.words().len(), 1);
    assert_eq!(snap.words()[0], 6);
    assert_eq!(app.host().updates, 3);
}

#[test]
fn quit_signal_passes_through() {
    let mut app =
        make_app(vec![Ok(StubModule { size: 8, step: 1, quit: true })], vec![]).unwrap();
    assert_eq!(app.update(), ShouldQuit::Yes);
}

#[test]
fn reload_now_swaps_unload_then_reload_without_init() {
    let mut app = make_app(vec![Ok(counter_stub()), Ok(counter_stub())], vec![]).unwrap();
    app.reload_now().unwrap();
    assert_eq!(app.host().inits, 1);
    assert_eq!(app.host().unloads, 1);
    assert_eq!(app.host().reloads, 1);
    // unload on the outgoing module strictly before reload on the incoming
    assert_eq!(app.host().trace, vec!["init", "unload", "reload"]);
}

#[test]
fn file_change_triggers_one_reload() {
    let path = String::from("/proj/target/libdemo.so");
    let mut app = make_app(
        vec![Ok(counter_stub()), Ok(counter_stub())],
        vec![FsEvent { kind: FsEventKind::Write, path: path.clone() }],
    )
    .unwrap();
    app.reload().unwrap();
    assert_eq!(app.host().unloads, 1);
    assert_eq!(app.host().reloads, 1);
    assert_eq!(app.host().inits, 1);
    // the event was consumed: a second poll is a no-op
    app.reload().unwrap();
    assert_eq!(app.host().reloads, 1);
}

#[test]
fn unrelated_events_do_not_reload() {
    let mut app = make_app(
        vec![Ok(counter_stub()), Ok(counter_stub())],
        vec![
            FsEvent { kind: FsEventKind::Write, path: String::from("/proj/target/other.so") },
            FsEvent { kind: FsEventKind::Other, path: String::from("/proj/target/libdemo.so") },
        ],
    )
    .unwrap();
    app.reload().unwrap();
    assert_eq!(app.host().unloads, 0);
    assert_eq!(app.host().reloads, 0);
}

#[test]
fn create_and_notice_write_trigger_too() {
    let path = String::from("/proj/target/libdemo.so");
    let mut app = make_app(
        vec![Ok(counter_stub()), Ok(counter_stub()), Ok(counter_stub())],
        vec![FsEvent { kind: FsEventKind::Create, path: path.clone() }],
    )
    .unwrap();
    app.reload().unwrap();
    assert_eq!(app.host().reloads, 1);
    let mut app2 = make_app(
        vec![Ok(counter_stub()), Ok(counter_stub())],
        vec![FsEvent { kind: FsEventKind::NoticeWrite, path: path.clone() }],
    )
    .unwrap();
    app2.reload().unwrap();
    assert_eq!(app2.host().reloads, 1);
}

#[test]
fn failed_reload_leaves_slot_unloaded_and_state_intact() {
    let mut app = make_app(vec![Ok(counter_stub()), Err(LoadError::NotFound)], vec![]).unwrap();
    app.update();
    let before = app.save_state();
    let host_before = app.host().clone();
    let r = app.reload_now();
    assert!(matches!(r, Err(Error::Load(LoadError::NotFound))));
    let after = app.save_state();
    assert_eq!(after.words(), before.words());
    // the host saw only the unload hook of the outgoing module
    let mut expected = host_before;
    expected.unloads += 1;
    expected.trace.push("unload");
    assert_eq!(*app.host(), expected);
    // no module call happens while unloaded
    assert_eq!(app.update(), ShouldQuit::No);
    assert_eq!(app.host().updates, 1);
}

#[test]
fn unloaded_slot_retries_without_new_event() {
    let mut app = make_app(
        vec![Ok(counter_stub()), Err(LoadError::NotFound), Ok(counter_stub())],
        vec![],
    )
    .unwrap();
    assert!(app.reload_now().is_err());
    // no event queued, yet the empty slot retries on the next poll
    app.reload().unwrap();
    assert_eq!(app.host().reloads, 1);
    assert_eq!(app.update(), ShouldQuit::No);
    assert_eq!(app.host().updates, 1);
}

#[test]
fn state_survives_reload() {
    let mut app = make_app(vec![Ok(counter_stub()), Ok(counter_stub())], vec![]).unwrap();
    app.update();
    app.update();
    app.reload_now().unwrap();
    let snap = app.save_state();
    assert_eq!(snap.words()[0], 4);
}

#[test]
fn shrinking_module_keeps_prefix() {
    let big = StubModule { size: 16, step: 5, quit: false };
    let small = StubModule { size: 12, step: 5, quit: false };
    let mut app = make_app(vec![Ok(big), Ok(small)], vec![]).unwrap();
    app.update();
    app.update();
    let before = app.save_state();
    assert_eq!(before.words().len(), 2);
    assert_eq!(before.words()[0], 10);
    app.reload_now().unwrap();
    let after = app.save_state();
    // twelve bytes still need two words; the prefix is untouched
    assert_eq!(after.words().len(), 2);
    assert_eq!(after.words()[0], 10);
    assert_eq!(after.words()[1], before.words()[1]);
}

#[test]
fn shrinking_below_a_word_drops_the_tail() {
    let big = StubModule { size: 16, step: 3, quit: false };
    let small = StubModule { size: 8, step: 3, quit: false };
    let mut app = make_app(vec![Ok(big), Ok(small)], vec![]).unwrap();
    app.update();
    app.reload_now().unwrap();
    let after = app.save_state();
    assert_eq!(after.words().len(), 1);
    assert_eq!(after.words()[0], 3);
}

#[test]
fn growing_module_zero_fills_the_tail() {
    let small = StubModule { size: 8, step: 9, quit: false };
    let big = StubModule { size: 24, step: 9, quit: false };
    let mut app = make_app(vec![Ok(small), Ok(big)], vec![]).unwrap();
    app.update();
    app.reload_now().unwrap();
    let after = app.save_state();
    assert_eq!(after.words().len(), 3);
    assert_eq!(after.words()[0], 9);
    assert_eq!(after.words()[1], 0);
    assert_eq!(after.words()[2], 0);
}

#[test]
fn state_round_trip_is_exact() {
    let mut app = make_app(vec![Ok(counter_stub())], vec![]).unwrap();
    app.update();
    let saved = app.save_state();
    app.update();
    app.update();
    app.load_state(&saved);
    let again = app.save_state();
    assert_eq!(again.words(), saved.words());
    assert_eq!(again.words()[0], 2);
}

#[test]
fn too_small_restore_is_repaired_by_a_larger_one() {
    let big = StubModule { size: 16, step: 1, quit: false };
    let mut app = make_app(vec![Ok(big)], vec![]).unwrap();
    app.update();
    let good = app.save_state();
    assert_eq!(good.words().len(), 2);
    // restore a snapshot smaller than the module's declared size:
    // accepted unchecked, exactly as given
    let tiny = live_reload::SaveState::of_buffer(&vec![9u64]);
    app.load_state(&tiny);
    assert_eq!(app.save_state().words(), &vec![9u64]);
    // a large enough snapshot restores fitness for module calls
    app.load_state(&good);
    assert_eq!(app.update(), ShouldQuit::No);
    assert_eq!(app.save_state().words()[0], 2);
}

#[test]
fn shutdown_calls_deinit_once_when_loaded() {
    let mut app = make_app(vec![Ok(counter_stub())], vec![]).unwrap();
    app.update();
    let (host, _) = app.shutdown();
    assert_eq!(host.deinits, 1);
    assert_eq!(host.inits, 1);
}

#[test]
fn shutdown_skips_deinit_when_unloaded() {
    let mut app = make_app(vec![Ok(counter_stub()), Err(LoadError::NotFound)], vec![]).unwrap();
    let _ = app.reload_now();
    let (host, _) = app.shutdown();
    assert_eq!(host.deinits, 0);
    assert_eq!(host.unloads, 1);
}

#[test]
fn host_mut_gives_access_to_the_capability_object() {
    let mut app = make_app(vec![Ok(counter_stub())], vec![]).unwrap();
    app.host_mut().updates = 7;
    assert_eq!(app.host().updates, 7);
}

#[test]
fn empty_event_source_means_no_reload() {
    let mut app = make_app(vec![Ok(counter_stub()), Ok(counter_stub())], vec![]).unwrap();
    app.reload().unwrap();
    app.reload().unwrap();
    assert_eq!(app.host().reloads, 0);
    assert_eq!(app.host().unloads, 0);
}
