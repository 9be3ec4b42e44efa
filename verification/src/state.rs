//! The opaque state buffer that survives reloads, and snapshots of it.
//!
//! The buffer is a region of 64-bit words sized in bytes and rounded up
//! to whole words. Resizing keeps the overlapping prefix and zero-fills
//! any new tail; shrinking discards the tail.

use vstd::prelude::*;

verus! {

/// The storage granularity of the state buffer, in bytes per word.
pub const WORD_BYTES: usize = 8;

/// How many whole words cover `bytes` bytes.
pub open spec fn words_for(bytes: nat) -> nat {
    (bytes + 7) / 8
}

/// A run of `n` zeroed words: what a fresh buffer holds.
pub open spec fn zero_words(n: nat) -> Seq<u64> {
    Seq::new(n, |i: int| 0u64)
}

/// The buffer contents after a resize to `n` words: the overlapping
/// prefix is kept, a new tail is zero-filled.
pub open spec fn resized(buf: Seq<u64>, n: nat) -> Seq<u64> {
    if n <= buf.len() {
        buf.subrange(0, n as int)
    } else {
        buf + Seq::new((n - buf.len()) as nat, |i: int| 0u64)
    }
}

/// Growing never disturbs the bytes already present: the old contents
/// are exactly the prefix of the resized contents.
pub proof fn lemma_grow_preserves_prefix(buf: Seq<u64>, n: nat)
    requires
        n >= buf.len(),
    ensures
        resized(buf, n).len() == n,
        resized(buf, n).subrange(0, buf.len() as int) == buf,
        forall|i: int| buf.len() <= i < n ==> resized(buf, n)[i] == 0u64,
{
    assert(resized(buf, n).subrange(0, buf.len() as int) =~= buf);
}

/// Resizing to any size keeps every word of the overlapping prefix.
pub proof fn lemma_resize_preserves_overlap(buf: Seq<u64>, n: nat)
    ensures
        resized(buf, n).len() == n,
        forall|i: int| 0 <= i < n && i < buf.len() ==> resized(buf, n)[i] == buf[i],
{
}

/// Resizes `state` to hold at least `size` bytes, rounded up to whole
/// words, keeping the overlapping prefix and zero-filling any new tail.
pub fn realloc_buffer(state: &mut Vec<u64>, size: usize)
    ensures
        final(state)@ == resized(old(state)@, words_for(size as nat)),
        final(state).len() == words_for(size as nat),
{
    let n: usize = size / WORD_BYTES + if size % WORD_BYTES == 0 { 0 } else { 1 };
    assert(n == words_for(size as nat));
    let ghost orig = state@;
    if n <= state.len() {
        state.truncate(n);
    } else {
        assert(state@ =~= resized(orig, state@.len() as nat));
        while state.len() < n
            invariant
                orig.len() <= state@.len() <= n,
                state@ == resized(orig, state@.len() as nat),
                n > orig.len(),
            decreases n - state@.len(),
        {
            state.push(0);
            assert(state@ =~= resized(orig, state@.len() as nat));
        }
    }
    assert(state@ =~= resized(old(state)@, words_for(size as nat)));
}

/// A copy of a word vector, element for element.
fn copy_words(src: &Vec<u64>) -> (r: Vec<u64>)
    ensures
        r@ == src@,
{
    let mut out: Vec<u64> = Vec::new();
    let mut i: usize = 0;
    while i < src.len()
        invariant
            i <= src.len(),
            out@ == src@.subrange(0, i as int),
        decreases src.len() - i,
    {
        out.push(src[i]);
        i = i + 1;
        assert(out@ =~= src@.subrange(0, i as int));
    }
    assert(out@ =~= src@);
    out
}

/// An immutable copy of the state buffer's bytes at a point in time,
/// with no tie to any module's layout.
pub struct SaveState {
    state: Vec<u64>,
}

impl SaveState {
    /// The saved words.
    pub closed spec fn view(&self) -> Seq<u64> {
        self.state@
    }

    /// Captures the given buffer contents.
    pub fn of_buffer(state: &Vec<u64>) -> (r: SaveState)
        ensures
            r@ == state@,
    {
        SaveState { state: copy_words(state) }
    }

    /// Read access to the saved words.
    pub fn words(&self) -> (r: &Vec<u64>)
        ensures
            r@ == self@,
    {
        &self.state
    }

    /// Round trip: a snapshot written back into the buffer and
    /// snapshotted again comes back word for word, whatever the buffer
    /// held before. The first premise is what restoring ensures, the
    /// second what snapshotting ensures.
    pub proof fn lemma_round_trip(s: SaveState, restored: Seq<u64>, snap: SaveState)
        requires
            restored == s@,
            snap@ == restored,
        ensures
            snap@ == s@,
    {
    }

    /// Writes the saved words back over `state`, replacing its contents
    /// exactly: no resize to any module's expectation, no layout check.
    pub fn restore_into(&self, state: &mut Vec<u64>)
        ensures
            final(state)@ == self@,
    {
        state.clear();
        let mut i: usize = 0;
        while i < self.state.len()
            invariant
                i <= self.state.len(),
                state@ == self.state@.subrange(0, i as int),
            decreases self.state.len() - i,
        {
            state.push(self.state[i]);
            i = i + 1;
            assert(state@ =~= self.state@.subrange(0, i as int));
        }
        assert(state@ =~= self@);
    }
}

} // verus!
