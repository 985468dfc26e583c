//! Change detection by hash: a run condition that lets the UI of a state
//! re-render only in frames where the hash of the state differs from the
//! hash that was rendered last. Every system gated by it in the frame that
//! found the change sees the same answer.
use bevy::platform::hash::FixedHasher;
use std::hash::{BuildHasher, Hash};
use std::marker::PhantomData;
use vstd::prelude::*;

verus! {

/// The hash of the state that was rendered last, and the frame in which
/// that render was decided.
pub struct RenderedHash<T> {
    phantom: PhantomData<T>,
    hash: u64,
    frame: u32,
}

/// The decision of the run condition, as a function of plain values: the
/// stored hash and frame, the current frame, and the hash of the state
/// (`None` when there is no state). It gives the answer and the hash and
/// frame stored afterwards.
///
/// Without state: no. In the frame that last answered yes: yes again. When
/// the hash equals the stored one: no. Otherwise: yes, and the hash and the
/// frame are stored.
pub open spec fn change_step(hash: u64, frame: u32, frame_count: u32, state_hash: Option<u64>) -> (
    bool,
    u64,
    u32,
) {
    match state_hash {
        None => (false, hash, frame),
        Some(h) => if frame == frame_count {
            (true, hash, frame)
        } else if h == hash {
            (false, hash, frame)
        } else {
            (true, h, frame_count)
        },
    }
}

impl<T> RenderedHash<T> {
    /// The stored hash.
    pub closed spec fn stored_hash(&self) -> u64 {
        self.hash
    }

    /// The frame in which the stored hash was taken.
    pub closed spec fn stored_frame(&self) -> u32 {
        self.frame
    }

    /// A record of nothing rendered yet: hash zero, frame zero.
    pub fn new() -> (r: Self)
        ensures
            r.stored_hash() == 0,
            r.stored_frame() == 0,
    {
        RenderedHash { phantom: PhantomData, hash: 0, frame: 0 }
    }

    /// Runs the decision of the run condition on an already computed hash of
    /// the state (`None` when there is no state), in frame `frame_count`.
    pub fn observe(&mut self, frame_count: u32, state_hash: Option<u64>) -> (changed: bool)
        ensures
            (changed, final(self).stored_hash(), final(self).stored_frame()) == change_step(
                old(self).stored_hash(),
                old(self).stored_frame(),
                frame_count,
                state_hash,
            ),
    {
        match state_hash {
            None => false,
            Some(h) => {
                if self.frame == frame_count {
                    true
                } else if self.hash == h {
                    false
                } else {
                    self.frame = frame_count;
                    self.hash = h;
                    true
                }
            },
        }
    }
}

/// Hashes `state` with bevy's deterministic hasher
/// (`bevy::platform::hash::FixedHasher`, foldhash with a fixed seed).
/// Nothing is stated of the value: it is whatever the hasher makes of what
/// the state's `Hash` impl writes into it.
#[verifier::external_body]
fn hash_state<T: Hash>(state: &T) -> (h: u64) {
    FixedHasher.hash_one(state)
}

/// The run condition: runs the decision of `RenderedHash::observe` in frame
/// `frame_count` on the hash of the state (when there is one). In the frame
/// of the last yes the answer is yes without hashing the state; otherwise
/// the state is hashed.
///
/// The contract ties the answer and the new record to `change_step` for the
/// hash that was taken, but not to which hash that is: the hash of a state
/// of any type `T` comes from that type's own `Hash` impl, which nothing here
/// describes, so it is left unnamed. `observe` is exact in the hash it is
/// given.
pub fn ui_state_changed<T: Hash>(
    frame_count: u32,
    previous_hash: &mut RenderedHash<T>,
    state: Option<&T>,
) -> (changed: bool)
    ensures
        state is None ==> !changed && *final(previous_hash) == *old(previous_hash),
        state is Some ==> exists|h: u64|
            (changed, final(previous_hash).stored_hash(), final(previous_hash).stored_frame())
                == #[trigger] change_step(
                old(previous_hash).stored_hash(),
                old(previous_hash).stored_frame(),
                frame_count,
                Some(h),
            ),
{
    match state {
        None => previous_hash.observe(frame_count, None),
        Some(s) => {
            if previous_hash.frame == frame_count {
                // A change was already reported in this frame: yes again,
                // without hashing the state.
                assert(change_step(
                    previous_hash.stored_hash(),
                    previous_hash.stored_frame(),
                    frame_count,
                    Some(0u64),
                ) == (true, previous_hash.stored_hash(), previous_hash.stored_frame()));
                true
            } else {
                let h = hash_state(s);
                previous_hash.observe(frame_count, Some(h))
            }
        },
    }
}

/// Asking again in the same frame with the same hash gives the same answer
/// and leaves the record as the first answer left it.
pub proof fn lemma_same_frame_same_answer(
    hash: u64,
    frame: u32,
    frame_count: u32,
    state_hash: Option<u64>,
)
    ensures
        ({
            let first = change_step(hash, frame, frame_count, state_hash);
            change_step(first.1, first.2, frame_count, state_hash) == first
        }),
{
}

/// Once the answer was yes in a frame, every later question in that frame
/// with some state is answered yes, whatever its hash: all systems gated by
/// the condition in that frame re-render together.
pub proof fn lemma_yes_holds_for_the_frame(
    hash: u64,
    frame: u32,
    frame_count: u32,
    first_hash: u64,
    later_hash: u64,
)
    requires
        change_step(hash, frame, frame_count, Some(first_hash)).0,
    ensures
        ({
            let first = change_step(hash, frame, frame_count, Some(first_hash));
            change_step(first.1, first.2, frame_count, Some(later_hash)) == first
        }),
{
}

/// In a frame other than the one of the last yes, a state whose hash is the
/// stored one gets no, and the record is kept.
pub proof fn lemma_unchanged_hash_says_no(hash: u64, frame: u32, frame_count: u32)
    requires
        frame != frame_count,
    ensures
        change_step(hash, frame, frame_count, Some(hash)) == (false, hash, frame),
{
}

/// In a frame other than the one of the last yes, a state whose hash differs
/// from the stored one gets yes, and its hash and the frame are stored.
pub proof fn lemma_new_hash_is_recorded(hash: u64, frame: u32, frame_count: u32, state_hash: u64)
    requires
        frame != frame_count,
        state_hash != hash,
    ensures
        change_step(hash, frame, frame_count, Some(state_hash)) == (true, state_hash, frame_count),
{
}

/// Without state the answer is no and the record is kept.
pub proof fn lemma_no_state_says_no(hash: u64, frame: u32, frame_count: u32)
    ensures
        change_step(hash, frame, frame_count, None) == (false, hash, frame),
{
}

} // verus!
