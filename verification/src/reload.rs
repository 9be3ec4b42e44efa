//! The reload orchestrator: one module slot, one state buffer, one
//! change watcher, composed into the lifecycle state machine the host
//! drives.

use vstd::prelude::*;
use crate::errors::Error;
use crate::loader::Loader;
use crate::protocol::LifecycleCall;
use crate::protocol::ReloadApi;
use crate::protocol::ShouldQuit;
use crate::protocol::count_calls;
use crate::protocol::init_first;
use crate::protocol::lemma_init_exactly_once;
use crate::protocol::lemma_push_keeps_init_first;
use crate::protocol::lemma_reload_history_keeps_init_first;
use crate::protocol::reload_history;
use crate::state::SaveState;
use crate::state::realloc_buffer;
use crate::state::resized;
use crate::state::words_for;
use crate::state::zero_words;
use crate::watch::EventSource;
use crate::watch::FsEvent;
use crate::watch::is_relevant;
use crate::watch::is_relevant_spec;

verus! {

/// How many queued events one poll drains at most. The debounce window
/// upstream coalesces bursts, so a tick never sees anywhere near this
/// many; whatever is left over is picked up on the next tick.
pub const MAX_EVENTS_PER_POLL: usize = 4096;

/// A handle to one reloadable module slot: the module currently loaded
/// (if any), the opaque state buffer that survives swaps, the event
/// source that triggers them, and the host's capability object, passed
/// by reference into every module call.
pub struct Reloadable<Host, L: Loader<Host>, E: EventSource> {
    path: String,
    sym: Option<L::M>,
    state: Vec<u64>,
    events: E,
    loader: L,
    host: Host,
    log: Ghost<Seq<LifecycleCall>>,
    seen: Ghost<Seq<FsEvent>>,
}

impl<Host, L: Loader<Host>, E: EventSource> Reloadable<Host, L, E> {
    /// Whether a module is currently loaded.
    pub closed spec fn loaded(self) -> bool {
        self.sym is Some
    }

    /// The module in the slot; meaningful only while `loaded()`.
    pub closed spec fn module(self) -> L::M {
        match self.sym {
            Some(m) => m,
            None => arbitrary(),
        }
    }

    /// The state buffer's words.
    pub closed spec fn buffer(self) -> Seq<u64> {
        self.state@
    }

    /// Every module entry point invoked so far, oldest first, with the
    /// releases of module resources interleaved where they happened.
    pub closed spec fn history(self) -> Seq<LifecycleCall> {
        self.log@
    }

    /// Every event taken from the event source so far, oldest first.
    pub closed spec fn drained(self) -> Seq<FsEvent> {
        self.seen@
    }

    /// The watched module path.
    pub closed spec fn path_view(self) -> Seq<char> {
        self.path@
    }

    /// The host's capability object.
    pub closed spec fn host_value(self) -> Host {
        self.host
    }

    /// The state size, in bytes, the loaded module declares; zero when
    /// nothing is loaded.
    pub open spec fn current_size(self) -> usize {
        if self.loaded() {
            self.module().size_spec()
        } else {
            0
        }
    }

    /// A well-formed slot: the buffer covers the loaded module's
    /// declared state size, and the history begins with the one and
    /// only `Init`.
    pub closed spec fn wf(self) -> bool {
        &&& (self.sym matches Some(m) ==> self.state@.len() >= words_for(m.size_spec() as nat))
        &&& init_first(self.log@)
    }

    /// The history half of well-formedness on its own: the history
    /// begins with the one and only `Init`. Unlike the buffer-size half,
    /// no operation can break it — not even a state restore that is too
    /// small for the loaded module.
    pub closed spec fn history_wf(self) -> bool {
        init_first(self.log@)
    }

    /// Well-formedness includes the history shape.
    pub proof fn lemma_wf_implies_history_wf(app: &Self)
        requires
            app.wf(),
        ensures
            app.history_wf(),
    {
    }

    /// Some event drained between `pre` and `post` is a creation or a
    /// write to the watched path.
    pub open spec fn saw_change(pre: Self, post: Self) -> bool {
        exists|j: int|
            pre.drained().len() <= j < post.drained().len() && is_relevant_spec(
                #[trigger] post.drained()[j],
                pre.path_view(),
            )
    }

    /// The buffer's passage through one successful swap, by way of the
    /// intermediate contents `s1` that the outgoing module's `unload`
    /// left behind: the engine resized `s1` to the incoming module's
    /// declared size (keeping the prefix, zero-filling any new tail) and
    /// handed the result to the incoming module's `reload` hook, whose
    /// promise relates it to the final contents.
    pub open spec fn swap_buffer_step(pre: Self, post: Self, s1: Seq<u64>) -> bool {
        &&& s1.len() == pre.buffer().len()
        &&& (pre.loaded() ==> pre.module().unload_post(pre.buffer(), s1))
        &&& (!pre.loaded() ==> s1 == pre.buffer())
        &&& post.module().reload_post(
            resized(s1, words_for(post.current_size() as nat)),
            post.buffer(),
        )
    }

    /// One reload attempt turns `pre` into `post`: the history grows by
    /// the unload/release of the outgoing module (if one was loaded) and
    /// by the incoming module's reload hook (if the load succeeded); the
    /// slot is loaded exactly when the load succeeded; on success the
    /// buffer is resized to the incoming module's declared size and
    /// passes through the two modules' stated hooks, on failure it keeps
    /// its size and relates to its old contents by the outgoing module's
    /// `unload` promise; and a failed attempt on an empty slot changes
    /// nothing but the event source.
    pub open spec fn reload_transition(pre: Self, post: Self, ok: bool) -> bool {
        &&& post.path_view() == pre.path_view()
        &&& post.history() == reload_history(pre.history(), pre.loaded(), ok)
        &&& post.loaded() == ok
        &&& ok ==> post.buffer().len() == words_for(post.current_size() as nat)
        &&& ok ==> exists|s1: Seq<u64>| #[trigger] Self::swap_buffer_step(pre, post, s1)
        &&& !ok ==> post.buffer().len() == pre.buffer().len()
        &&& (!ok && pre.loaded()) ==> pre.module().unload_post(pre.buffer(), post.buffer())
        &&& (!ok && !pre.loaded()) ==> post.buffer() == pre.buffer() && post.host_value()
            == pre.host_value()
    }

    /// Nothing observable happened to the slot: module, buffer, host,
    /// path and history are all as they were.
    pub open spec fn unchanged(pre: Self, post: Self) -> bool {
        &&& post.path_view() == pre.path_view()
        &&& post.history() == pre.history()
        &&& post.buffer() == pre.buffer()
        &&& post.host_value() == pre.host_value()
        &&& post.loaded() == pre.loaded()
        &&& post.module() == pre.module()
        &&& post.current_size() == pre.current_size()
    }

    /// However the slot was driven — any mix of polls, reloads, updates
    /// and state swaps — a well-formed slot's history holds exactly one
    /// `Init`: the one from construction.
    pub proof fn lemma_slot_init_once(app: &Self)
        requires
            app.wf(),
        ensures
            count_calls(app.history(), LifecycleCall::Init) == 1,
    {
        lemma_init_exactly_once(app.history());
    }

    /// Creates the slot: loads the module at `path` through `loader`,
    /// sizes the state buffer to the module's declared size (all zeros
    /// at that point), and invokes the module's `init` entry — the one
    /// time in the slot's life it is invoked. Any failure surfaces as
    /// the load error and produces no slot. `path` should already be in
    /// the canonical form the event source reports, and `events` should
    /// watch its directory.
    pub fn new(path: String, host: Host, loader: L, events: E) -> (r: Result<Self, Error>)
        ensures
            r matches Ok(app) ==> {
                &&& app.wf()
                &&& app.loaded()
                &&& app.history() == seq![LifecycleCall::Init]
                &&& app.drained() == Seq::<FsEvent>::empty()
                &&& app.path_view() == path@
                &&& app.buffer().len() == words_for(app.current_size() as nat)
                &&& app.module().init_post(
                    zero_words(words_for(app.current_size() as nat)),
                    app.buffer(),
                )
            },
            r matches Err(e) ==> e is Load,
    {
        let mut loader = loader;
        let mut host = host;
        let ghost first_log: Seq<LifecycleCall> = seq![LifecycleCall::Init];
        let ghost no_events: Seq<FsEvent> = Seq::empty();
        let m = match loader.load(path.as_str()) {
            Ok(m) => m,
            Err(e) => { return Err(Error::Load(e)); },
        };
        let size = m.size();
        let mut state: Vec<u64> = Vec::new();
        proof {
            assert(resized(state@, words_for(size as nat)) =~= zero_words(
                words_for(size as nat),
            ));
        }
        realloc_buffer(&mut state, size);
        m.init(&mut host, &mut state);
        let app = Reloadable {
            path,
            sym: Some(m),
            state,
            events,
            loader,
            host,
            log: Ghost(first_log),
            seen: Ghost(no_events),
        };
        proof {
            assert(init_first(app.log@));
        }
        Ok(app)
    }

    /// Unloads the outgoing module (if any), releases it, and loads the
    /// module file afresh, resizing the buffer to the incoming module's
    /// declared size and invoking its `reload` entry — never `init`. On
    /// failure the slot is left empty, the error is returned, and the
    /// buffer keeps whatever the outgoing module's `unload` left;
    /// nothing retries implicitly.
    pub fn reload_now(&mut self) -> (r: Result<(), Error>)
        requires
            old(self).wf(),
        ensures
            final(self).wf(),
            Self::reload_transition(*old(self), *final(self), r is Ok),
            final(self).drained() == old(self).drained(),
            r matches Err(e) ==> e is Load,
    {
        let was_loaded = self.sym.is_some();
        match &self.sym {
            Some(m) => {
                m.unload(&mut self.host, &mut self.state);
                self.log = Ghost(self.log@.push(LifecycleCall::Unload));
            },
            None => {},
        }
        self.sym = None;
        if was_loaded {
            self.log = Ghost(self.log@.push(LifecycleCall::Release));
        }
        let ghost s1 = self.state@;
        let m = match self.loader.load(self.path.as_str()) {
            Ok(m) => m,
            Err(e) => {
                proof {
                    assert(self.log@ =~= reload_history(old(self).log@, was_loaded, false));
                    lemma_reload_history_keeps_init_first(old(self).log@, was_loaded, false);
                }
                return Err(Error::Load(e));
            },
        };
        let size = m.size();
        realloc_buffer(&mut self.state, size);
        m.reload(&mut self.host, &mut self.state);
        self.log = Ghost(self.log@.push(LifecycleCall::Reload));
        self.sym = Some(m);
        proof {
            assert(self.log@ =~= reload_history(old(self).log@, was_loaded, true));
            lemma_reload_history_keeps_init_first(old(self).log@, was_loaded, true);
            assert(Self::swap_buffer_step(*old(self), *self, s1));
        }
        Ok(())
    }

    /// Polls the event source and reloads when a drained event is a
    /// creation or write to the watched path — or, regardless of events,
    /// when no module is loaded, so a failed reload is retried on every
    /// tick until it succeeds. When nothing matched and a module is
    /// loaded this is an exact no-op; the polling step itself never
    /// fails.
    pub fn reload(&mut self) -> (r: Result<(), Error>)
        requires
            old(self).wf(),
        ensures
            final(self).wf(),
            old(self).drained().is_prefix_of(final(self).drained()),
            (Self::saw_change(*old(self), *final(self)) || !old(self).loaded())
                ==> Self::reload_transition(*old(self), *final(self), r is Ok),
            (!Self::saw_change(*old(self), *final(self)) && old(self).loaded()) ==> (r is Ok
                && Self::unchanged(*old(self), *final(self))),
            !old(self).loaded() ==> Self::reload_transition(*old(self), *final(self), r is Ok),
            r matches Err(e) ==> e is Load,
    {
        let ghost pre = *self;
        let mut changed = false;
        let mut i: usize = 0;
        while i < MAX_EVENTS_PER_POLL
            invariant
                self.path == pre.path,
                self.sym == pre.sym,
                self.state == pre.state,
                self.loader == pre.loader,
                self.host == pre.host,
                self.log == pre.log,
                pre.seen@.is_prefix_of(self.seen@),
                changed == exists|j: int|
                    pre.seen@.len() <= j < self.seen@.len() && is_relevant_spec(
                        #[trigger] self.seen@[j],
                        pre.path@,
                    ),
            decreases MAX_EVENTS_PER_POLL - i,
        {
            match self.events.try_next() {
                None => { break; },
                Some(e) => {
                    let ghost before = self.seen@;
                    let ghost was_changed = changed;
                    let rel = is_relevant(&e, &self.path);
                    self.seen = Ghost(self.seen@.push(e));
                    if rel {
                        changed = true;
                    }
                    proof {
                        assert(self.seen@.len() == before.len() + 1);
                        assert(self.seen@[before.len() as int] == e);
                        assert(forall|j: int|
                            0 <= j < before.len() ==> self.seen@[j] == before[j]);
                        if changed {
                            assert(exists|j: int|
                                pre.seen@.len() <= j < self.seen@.len() && is_relevant_spec(
                                    #[trigger] self.seen@[j],
                                    pre.path@,
                                )) by {
                                if was_changed {
                                    let j0 = choose|j: int|
                                        pre.seen@.len() <= j < before.len() && is_relevant_spec(
                                            #[trigger] before[j],
                                            pre.path@,
                                        );
                                    assert(is_relevant_spec(self.seen@[j0], pre.path@));
                                } else {
                                    assert(is_relevant_spec(
                                        self.seen@[before.len() as int],
                                        pre.path@,
                                    ));
                                }
                            }
                        }
                    }
                },
            }
            i = i + 1;
        }
        if changed || self.sym.is_none() {
            let ghost mid = *self;
            let r = self.reload_now();
            proof {
                if r is Ok {
                    let s1 = choose|s1: Seq<u64>| Self::swap_buffer_step(mid, *self, s1);
                    assert(Self::swap_buffer_step(pre, *self, s1));
                }
                assert(Self::reload_transition(pre, *self, r is Ok));
            }
            r
        } else {
            Ok(())
        }
    }

    /// Invokes the loaded module's `update` entry: the same module the
    /// slot already held, whose promise then relates the buffer before
    /// and after and the continuation signal passed through. With no
    /// module loaded it performs no call at all and reports that the
    /// host should continue.
    pub fn update(&mut self) -> (r: ShouldQuit)
        requires
            old(self).wf(),
        ensures
            final(self).wf(),
            old(self).loaded() ==> {
                &&& final(self).history() == old(self).history().push(LifecycleCall::Update)
                &&& final(self).loaded()
                &&& final(self).module() == old(self).module()
                &&& final(self).current_size() == old(self).current_size()
                &&& final(self).buffer().len() == old(self).buffer().len()
                &&& old(self).module().update_post(old(self).buffer(), final(self).buffer(), r)
                &&& final(self).path_view() == old(self).path_view()
                &&& final(self).drained() == old(self).drained()
            },
            !old(self).loaded() ==> r == ShouldQuit::No && *final(self) == *old(self),
    {
        match &self.sym {
            Some(m) => {
                let r = m.update(&mut self.host, &mut self.state);
                self.log = Ghost(self.log@.push(LifecycleCall::Update));
                proof {
                    lemma_push_keeps_init_first(old(self).log@, LifecycleCall::Update);
                }
                r
            },
            None => ShouldQuit::No,
        }
    }

    /// A byte-for-byte copy of the state buffer, for external
    /// persistence.
    pub fn save_state(&self) -> (r: SaveState)
        ensures
            r@ == self.buffer(),
    {
        SaveState::of_buffer(&self.state)
    }

    /// Replaces the state buffer's contents exactly with the snapshot's
    /// bytes — no resize to the loaded module's expectation, no
    /// compatibility check, and no failure. A snapshot smaller than the
    /// loaded module's declared size leaves the slot unfit for further
    /// module calls until a large enough snapshot is restored; whether
    /// the bytes still mean what the module thinks they mean is entirely
    /// the caller's concern.
    pub fn load_state(&mut self, s: &SaveState)
        ensures
            final(self).buffer() == s@,
            final(self).history() == old(self).history(),
            final(self).drained() == old(self).drained(),
            final(self).path_view() == old(self).path_view(),
            final(self).loaded() == old(self).loaded(),
            final(self).module() == old(self).module(),
            final(self).current_size() == old(self).current_size(),
            final(self).host_value() == old(self).host_value(),
            final(self).history_wf() == old(self).history_wf(),
            old(self).history_wf() && (s@.len() >= words_for(old(self).current_size() as nat)
                || !old(self).loaded()) ==> final(self).wf(),
    {
        s.restore_into(&mut self.state);
    }

    /// A read-only view of the host's capability object.
    pub fn host(&self) -> (h: &Host)
        ensures
            *h == self.host_value(),
    {
        &self.host
    }

    /// Mutable access to the host's capability object.
    pub fn host_mut(&mut self) -> (h: &mut Host)
        ensures
            *h == old(self).host_value(),
            final(self).host_value() == *final(h),
            final(self).history() == old(self).history(),
            final(self).drained() == old(self).drained(),
            final(self).buffer() == old(self).buffer(),
            final(self).path_view() == old(self).path_view(),
            final(self).loaded() == old(self).loaded(),
            final(self).module() == old(self).module(),
            final(self).current_size() == old(self).current_size(),
            old(self).wf() ==> final(self).wf(),
    {
        &mut self.host
    }

    /// Explicit teardown: invokes the loaded module's `deinit` entry —
    /// exactly once, and only if a module is loaded — then releases the
    /// module, the event subscription and the buffer, handing back the
    /// capability object together with the complete lifecycle history.
    pub fn shutdown(self) -> (r: (Host, Ghost<Seq<LifecycleCall>>))
        requires
            self.wf(),
        ensures
            r.1@ == self.history() + (if self.loaded() {
                seq![LifecycleCall::Deinit, LifecycleCall::Release]
            } else {
                Seq::<LifecycleCall>::empty()
            }),
            init_first(r.1@),
            !self.loaded() ==> r.0 == self.host_value(),
    {
        let ghost pre = self;
        let Reloadable { sym, state, host, log, .. } = self;
        let mut host = host;
        let mut state = state;
        let ghost tail: Seq<LifecycleCall> = seq![LifecycleCall::Deinit, LifecycleCall::Release];
        match &sym {
            Some(m) => {
                m.deinit(&mut host, &mut state);
            },
            None => {},
        }
        let ghost out: Seq<LifecycleCall> = if pre.loaded() {
            log@ + tail
        } else {
            log@
        };
        proof {
            if pre.loaded() {
                assert forall|i: int| 1 <= i < out.len() implies out[i] != LifecycleCall::Init by {
                    if i >= log@.len() {
                        assert(out[i] == tail[i - log@.len()]);
                    }
                }
                assert(init_first(out));
            } else {
                assert(log@ + Seq::<LifecycleCall>::empty() =~= log@);
            }
        }
        (host, Ghost(out))
    }
}

} // verus!
