//! An example module: a 64-bit counter stepped by two on every tick.
//!
//! It exercises the whole lifecycle protocol without a platform loader,
//! so it also serves as a stand-in module wherever a real one is not
//! wanted. Its lifecycle promises are stated as overrides of the
//! protocol's post predicates, so they carry through the orchestrator's
//! contracts.

use vstd::prelude::*;
use crate::protocol::ReloadApi;
use crate::protocol::ShouldQuit;

verus! {

/// The bytes the counter module declares for its state record: one
/// 64-bit counter word.
pub const COUNTER_STATE_BYTES: usize = 8;

/// A module whose state is a single counter word: `init` starts it at
/// zero, `update` steps it by two and never asks the host to quit, and
/// the remaining hooks leave the state alone.
pub struct CounterModule;

impl<Host> ReloadApi<Host> for CounterModule {
    open spec fn size_spec(&self) -> usize {
        COUNTER_STATE_BYTES
    }

    open spec fn init_post(&self, old_state: Seq<u64>, new_state: Seq<u64>) -> bool {
        new_state == old_state.update(0, 0u64)
    }

    open spec fn reload_post(&self, old_state: Seq<u64>, new_state: Seq<u64>) -> bool {
        new_state == old_state
    }

    open spec fn update_post(&self, old_state: Seq<u64>, new_state: Seq<u64>, r: ShouldQuit) -> bool {
        &&& new_state == old_state.update(
            0,
            vstd::wrapping::u64_specs::wrapping_add(old_state[0], 2),
        )
        &&& r == ShouldQuit::No
    }

    open spec fn unload_post(&self, old_state: Seq<u64>, new_state: Seq<u64>) -> bool {
        new_state == old_state
    }

    fn size(&self) -> (r: usize) {
        COUNTER_STATE_BYTES
    }

    fn init(&self, _host: &mut Host, state: &mut Vec<u64>) {
        state[0] = 0;
    }

    fn reload(&self, _host: &mut Host, _state: &mut Vec<u64>) {
    }

    fn update(&self, _host: &mut Host, state: &mut Vec<u64>) -> (r: ShouldQuit) {
        let c = state[0];
        state[0] = c.wrapping_add(2);
        ShouldQuit::No
    }

    fn unload(&self, _host: &mut Host, _state: &mut Vec<u64>) {
    }

    fn deinit(&self, _host: &mut Host, _state: &mut Vec<u64>) {
    }
}

} // verus!
