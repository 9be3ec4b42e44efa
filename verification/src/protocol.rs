//! The fixed lifecycle protocol connecting a host and a reloadable module.

use vstd::prelude::*;
use crate::state::words_for;

verus! {

/// Should the main program quit? More self-documenting than a boolean.
///
/// Returned by the module's `update` entry and passed through by the
/// orchestrator's `update`.
#[derive(Clone, Copy, Debug, PartialEq, Eq, Structural)]
pub enum ShouldQuit {
    /// The module thinks the main program should continue running.
    No,
    /// The module thinks the main program should quit now.
    Yes,
}

/// One step of the module lifecycle, as recorded in the orchestrator's
/// ghost history: an entry-point invocation, or the release of a module
/// resource.
pub enum LifecycleCall {
    /// The first-load initializer ran.
    Init,
    /// The post-load hook ran on a freshly loaded module.
    Reload,
    /// The per-tick entry ran.
    Update,
    /// The teardown hook ran on a module about to be released.
    Unload,
    /// The final teardown ran before shutdown.
    Deinit,
    /// The outgoing module's resource was released.
    Release,
}

/// How often `c` occurs in the history `h`.
pub open spec fn count_calls(h: Seq<LifecycleCall>, c: LifecycleCall) -> nat
    decreases h.len(),
{
    if h.len() == 0 {
        0
    } else {
        count_calls(h.drop_last(), c) + (if h.last() == c {
            1nat
        } else {
            0nat
        })
    }
}

/// A history that begins with the one and only `Init`.
pub open spec fn init_first(h: Seq<LifecycleCall>) -> bool {
    &&& h.len() >= 1
    &&& h[0] == LifecycleCall::Init
    &&& forall|i: int| 1 <= i < h.len() ==> h[i] != LifecycleCall::Init
}

/// The history after one reload attempt on top of `h`: the outgoing
/// module, if one was loaded, is told to unload and is then released;
/// the incoming module's reload hook runs only when the load succeeded.
pub open spec fn reload_history(h: Seq<LifecycleCall>, was_loaded: bool, ok: bool) -> Seq<
    LifecycleCall,
> {
    h + (if was_loaded {
        seq![LifecycleCall::Unload, LifecycleCall::Release]
    } else {
        Seq::<LifecycleCall>::empty()
    }) + (if ok {
        seq![LifecycleCall::Reload]
    } else {
        Seq::<LifecycleCall>::empty()
    })
}

/// Counting distributes over history concatenation.
pub proof fn lemma_count_concat(a: Seq<LifecycleCall>, b: Seq<LifecycleCall>, c: LifecycleCall)
    ensures
        count_calls(a + b, c) == count_calls(a, c) + count_calls(b, c),
    decreases b.len(),
{
    if b.len() == 0 {
        assert(a + b =~= a);
    } else {
        assert((a + b).drop_last() =~= a + b.drop_last());
        assert((a + b).last() == b.last());
        lemma_count_concat(a, b.drop_last(), c);
    }
}

/// In a history that begins with the one and only `Init`, `init` was
/// invoked exactly once over the orchestrator's whole lifetime.
pub proof fn lemma_init_exactly_once(h: Seq<LifecycleCall>)
    requires
        init_first(h),
    ensures
        count_calls(h, LifecycleCall::Init) == 1,
    decreases h.len(),
{
    if h.len() == 1 {
        assert(count_calls(h.drop_last(), LifecycleCall::Init) == 0);
        assert(h.last() == h[0]);
    } else {
        assert(h.last() != LifecycleCall::Init);
        assert(init_first(h.drop_last())) by {
            assert(h.drop_last()[0] == h[0]);
            assert(forall|i: int|
                1 <= i < h.drop_last().len() ==> h.drop_last()[i] == h[i]);
        }
        lemma_init_exactly_once(h.drop_last());
    }
}

/// A reload attempt appends no `Init`, so a history that began with the
/// one and only `Init` still does.
pub proof fn lemma_reload_history_keeps_init_first(
    h: Seq<LifecycleCall>,
    was_loaded: bool,
    ok: bool,
)
    requires
        init_first(h),
    ensures
        init_first(reload_history(h, was_loaded, ok)),
{
    let h2 = reload_history(h, was_loaded, ok);
    assert(h2[0] == h[0]);
    assert forall|i: int| 1 <= i < h2.len() implies h2[i] != LifecycleCall::Init by {
        if i >= h.len() {
            let mid: int = if was_loaded {
                2
            } else {
                0
            };
            if i < h.len() + mid {
                assert(h2[i] == seq![LifecycleCall::Unload, LifecycleCall::Release][i - h.len()]);
            } else {
                assert(h2[i] == seq![LifecycleCall::Reload][0]);
            }
        }
    }
}

/// Appending any step but `Init` keeps a history's `Init` unique and
/// first.
pub proof fn lemma_push_keeps_init_first(h: Seq<LifecycleCall>, c: LifecycleCall)
    requires
        init_first(h),
        c != LifecycleCall::Init,
    ensures
        init_first(h.push(c)),
{
}

/// Each successful reload records exactly one more `Reload`, a failed
/// one records none, and neither records another `Init`.
pub proof fn lemma_reload_history_counts(h: Seq<LifecycleCall>, was_loaded: bool, ok: bool)
    ensures
        count_calls(reload_history(h, was_loaded, ok), LifecycleCall::Reload) == count_calls(
            h,
            LifecycleCall::Reload,
        ) + (if ok {
            1nat
        } else {
            0nat
        }),
        count_calls(reload_history(h, was_loaded, ok), LifecycleCall::Init) == count_calls(
            h,
            LifecycleCall::Init,
        ),
{
    let mid = if was_loaded {
        seq![LifecycleCall::Unload, LifecycleCall::Release]
    } else {
        Seq::<LifecycleCall>::empty()
    };
    let tail = if ok {
        seq![LifecycleCall::Reload]
    } else {
        Seq::<LifecycleCall>::empty()
    };
    lemma_count_concat(h, mid, LifecycleCall::Reload);
    lemma_count_concat(h + mid, tail, LifecycleCall::Reload);
    lemma_count_concat(h, mid, LifecycleCall::Init);
    lemma_count_concat(h + mid, tail, LifecycleCall::Init);
    let e = Seq::<LifecycleCall>::empty();
    assert(count_calls(e, LifecycleCall::Reload) == 0);
    assert(count_calls(e, LifecycleCall::Init) == 0);
    if was_loaded {
        let u = seq![LifecycleCall::Unload];
        assert(mid.drop_last() =~= u);
        assert(u.drop_last() =~= e);
        assert(u.last() == LifecycleCall::Unload);
        assert(mid.last() == LifecycleCall::Release);
        assert(count_calls(u, LifecycleCall::Reload) == 0);
        assert(count_calls(mid, LifecycleCall::Reload) == 0);
        assert(count_calls(u, LifecycleCall::Init) == 0);
        assert(count_calls(mid, LifecycleCall::Init) == 0);
    }
    if ok {
        assert(tail.drop_last() =~= e);
        assert(tail.last() == LifecycleCall::Reload);
        assert(count_calls(tail, LifecycleCall::Reload) == 1);
        assert(count_calls(tail, LifecycleCall::Init) == 0);
    }
}

/// In a reload of a loaded module, `unload` on the outgoing module comes
/// strictly before that module's release, which comes strictly before
/// `reload` on the incoming module.
pub proof fn lemma_unload_precedes_release_and_reload(h: Seq<LifecycleCall>, ok: bool)
    ensures
        ({
            let h2 = reload_history(h, true, ok);
            &&& h2[h.len() as int] == LifecycleCall::Unload
            &&& h2[h.len() as int + 1] == LifecycleCall::Release
            &&& ok ==> h2.len() == h.len() + 3 && h2[h.len() as int + 2] == LifecycleCall::Reload
            &&& !ok ==> h2.len() == h.len() + 2
        }),
{
}

/// The six entry points a reloadable module exports, resolved as a unit.
///
/// `Host` is the capability record owned by the surrounding application;
/// the engine passes it through untouched. The state argument is the
/// orchestrator's opaque buffer, handed over with room for at least
/// `size_spec()` bytes; a module may rewrite the words but must not
/// change their number. How a module reinterprets bytes left behind by a
/// previous module is its own responsibility: the engine checks sizes,
/// never layouts.
pub trait ReloadApi<Host>: Sized {
    /// The state size, in bytes, this module declares. An implementation
    /// outside verified code can leave the default in place: the engine
    /// allocates from what `size` returns at run time either way.
    open spec fn size_spec(&self) -> usize {
        0
    }

    /// What this module's `init` promises of the state words. The
    /// default promises nothing, which is right for a module the
    /// verifier never sees; a verified module overrides it and its
    /// promise then survives into the orchestrator's contracts.
    open spec fn init_post(&self, old_state: Seq<u64>, new_state: Seq<u64>) -> bool {
        true
    }

    /// What this module's `reload` promises of the state words; the
    /// default promises nothing.
    open spec fn reload_post(&self, old_state: Seq<u64>, new_state: Seq<u64>) -> bool {
        true
    }

    /// What this module's `update` promises of the state words and of
    /// its continuation signal; the default promises nothing.
    open spec fn update_post(&self, old_state: Seq<u64>, new_state: Seq<u64>, r: ShouldQuit) -> bool {
        true
    }

    /// What this module's `unload` promises of the state words; the
    /// default promises nothing.
    open spec fn unload_post(&self, old_state: Seq<u64>, new_state: Seq<u64>) -> bool {
        true
    }

    /// Returns the size of the module's state record, in bytes, so the
    /// host can keep enough space allocated for it.
    fn size(&self) -> (r: usize)
        ensures
            r == self.size_spec(),
    ;

    /// Initializes the state record when the program first starts.
    fn init(&self, host: &mut Host, state: &mut Vec<u64>)
        requires
            old(state).len() >= words_for(self.size_spec() as nat),
        ensures
            final(state).len() == old(state).len(),
            self.init_post(old(state)@, final(state)@),
    ;

    /// Makes any updates needed right after this module is loaded in
    /// place of a previous one.
    fn reload(&self, host: &mut Host, state: &mut Vec<u64>)
        requires
            old(state).len() >= words_for(self.size_spec() as nat),
        ensures
            final(state).len() == old(state).len(),
            self.reload_post(old(state)@, final(state)@),
    ;

    /// Runs one tick of the module's work and reports whether the host
    /// should keep going.
    fn update(&self, host: &mut Host, state: &mut Vec<u64>) -> (r: ShouldQuit)
        requires
            old(state).len() >= words_for(self.size_spec() as nat),
        ensures
            final(state).len() == old(state).len(),
            self.update_post(old(state)@, final(state)@, r),
    ;

    /// Prepares for this module to be unloaded before another loads.
    fn unload(&self, host: &mut Host, state: &mut Vec<u64>)
        requires
            old(state).len() >= words_for(self.size_spec() as nat),
        ensures
            final(state).len() == old(state).len(),
            self.unload_post(old(state)@, final(state)@),
    ;

    /// Does final shutdown work before the program quits.
    fn deinit(&self, host: &mut Host, state: &mut Vec<u64>)
        requires
            old(state).len() >= words_for(self.size_spec() as nat),
        ensures
            final(state).len() == old(state).len(),
    ;
}

} // verus!
