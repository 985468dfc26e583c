//! The per-frame decision of the render system: given the current state (or
//! its absence), whether the state resource was touched since the last run,
//! and the value that was rendered last, decide what happens to the UI tree.
use vstd::prelude::*;
use vstd::laws_eq::obeys_concrete_eq;
use vstd::std_specs::cmp::PartialEqSpec;

verus! {

/// What the render system does to the UI tree of one state type in one frame.
#[derive(Clone, Copy, Debug, PartialEq, Eq, Structural)]
pub enum RenderAction {
    /// Leave the UI tree as it is.
    Keep,
    /// Despawn every root of the tree: the state resource is gone.
    Clear,
    /// Despawn every root, spawn a fresh root and render the state under it.
    Rerender,
}

/// The value that was rendered last, if any.
pub struct PreviousState<T> {
    pub value: Option<T>,
}

/// The state that a frame sees, read through its reference.
pub open spec fn seen<T>(state: Option<&T>) -> Option<T> {
    match state {
        Some(s) => Some(*s),
        None => None,
    }
}

/// The render decision as a function of plain values, where `same` tells
/// whether the stored value was found equal to the state: the action that
/// is taken and the value that is stored afterwards.
///
/// A frame without state clears the tree and forgets the stored value. A
/// frame whose state was not touched, or whose state equals the stored value,
/// keeps everything. Any other frame stores the state and re-renders.
pub open spec fn render_next<T>(previous: Option<T>, state: Option<T>, changed: bool, same: bool) -> (
    RenderAction,
    Option<T>,
) {
    match state {
        None => (RenderAction::Clear, None),
        Some(s) => if !changed || (previous is Some && same) {
            (RenderAction::Keep, previous)
        } else {
            (RenderAction::Rerender, Some(s))
        },
    }
}

/// `next` stands where `render_next` puts `Some(state)`, up to `Clone`:
/// the stored value of a re-render is a clone of the state.
pub open spec fn stored_as<T: Clone>(expected: Option<T>, next: Option<T>) -> bool {
    match expected {
        None => next is None,
        Some(e) => next matches Some(v) && cloned(e, v),
    }
}

/// One frame of the render system, for a given outcome `same` of the
/// comparison between the stored value and the state.
pub open spec fn render_step<T: Clone>(
    previous: Option<T>,
    state: Option<T>,
    changed: bool,
    same: bool,
    action: RenderAction,
    next: Option<T>,
) -> bool {
    let (a, n) = render_next(previous, state, changed, same);
    &&& action == a
    &&& if a == RenderAction::Rerender {
        stored_as(n, next)
    } else {
        next == n
    }
}

/// What the comparison of the stored value with `state` gives for a type
/// whose `==` follows its specification.
pub open spec fn same_as_previous<T: PartialEq>(previous: Option<T>, state: Option<T>) -> bool {
    match (previous, state) {
        (Some(p), Some(s)) => p.eq_spec(&s),
        _ => false,
    }
}

impl<T: Clone + PartialEq> PreviousState<T> {
    /// Nothing rendered yet.
    pub fn new() -> (r: Self)
        ensures
            r.value is None,
    {
        PreviousState { value: None }
    }

    /// Compares the stored value with `state` by `==`, the stored value on
    /// the left; `false` when nothing is stored.
    fn matches(&self, state: &T) -> (r: bool)
        ensures
            T::obeys_eq_spec() ==> r == same_as_previous(self.value, Some(*state)),
            self.value is None ==> !r,
    {
        match &self.value {
            Some(p) => p.eq(state),
            None => false,
        }
    }

    /// Applies one frame of the render decision, given whether the stored
    /// value was found equal to the state: forgets the stored value when
    /// the state is gone, stores a clone of the state when it re-renders.
    pub fn advance(&mut self, state: Option<&T>, changed: bool, same: bool) -> (action: RenderAction)
        ensures
            render_step(old(self).value, seen(state), changed, same, action, final(self).value),
    {
        match state {
            None => {
                self.value = None;
                RenderAction::Clear
            },
            Some(s) => {
                if !changed || (self.value.is_some() && same) {
                    RenderAction::Keep
                } else {
                    self.value = Some(s.clone());
                    RenderAction::Rerender
                }
            },
        }
    }
}

/// One run of the render system for one state type.
///
/// `state` is the state resource, `None` when it is not in the world;
/// `changed` is whether it was mutably accessed since the system last ran.
/// Without state the tree is cleared and the stored value forgotten. When
/// the state was not touched nothing happens, and nothing is compared. When
/// it was, it is compared by `==` with the stored value; an equal value keeps
/// the tree, any other value (or nothing stored) is stored as a clone and
/// re-rendered.
pub fn ui_state_render<T: Clone + PartialEq>(
    previous: &mut PreviousState<T>,
    state: Option<&T>,
    changed: bool,
) -> (action: RenderAction)
    ensures
        render_step(old(previous).value, seen(state), changed, true, action, final(previous).value)
            || render_step(
            old(previous).value,
            seen(state),
            changed,
            false,
            action,
            final(previous).value,
        ),
        T::obeys_eq_spec() ==> render_step(
            old(previous).value,
            seen(state),
            changed,
            same_as_previous(old(previous).value, seen(state)),
            action,
            final(previous).value,
        ),
{
    let same = match state {
        Some(s) => changed && previous.matches(s),
        None => false,
    };
    proof {
        if T::obeys_eq_spec() && state is Some && changed && previous.value is Some {
            assert(same == same_as_previous(previous.value, seen(state)));
        }
    }
    previous.advance(state, changed, same)
}

/// Whether both the stored value and the state are there and are the same
/// value.
pub open spec fn equal_values<T>(previous: Option<T>, state: Option<T>) -> bool {
    match (previous, state) {
        (Some(p), Some(s)) => p == s,
        _ => false,
    }
}

/// For a type whose `==` is equality of values, the comparison that the
/// render system makes is `equal_values`.
pub proof fn lemma_concrete_eq_compares_values<T: PartialEq>(previous: Option<T>, state: Option<T>)
    requires
        obeys_concrete_eq::<T>(),
    ensures
        same_as_previous(previous, state) == equal_values(previous, state),
{
    reveal(obeys_concrete_eq);
}

/// A frame in which the state was not touched keeps the tree and the stored
/// value, whatever a comparison would have found.
pub proof fn lemma_untouched_state_keeps<T>(previous: Option<T>, state: T, same: bool)
    ensures
        render_next(previous, Some(state), false, same) == (RenderAction::Keep, previous),
{
}

/// A touched state re-renders exactly when nothing is stored or the stored
/// value was not found equal to it, and a re-render stores the state.
pub proof fn lemma_rerender_exactly_on_change<T>(previous: Option<T>, state: T, same: bool)
    ensures
        (render_next(previous, Some(state), true, same).0 == RenderAction::Rerender) <==> !(
        previous is Some && same),
        render_next(previous, Some(state), true, same).0 == RenderAction::Rerender ==> render_next(
            previous,
            Some(state),
            true,
            same,
        ).1 == Some(state),
{
}

/// A state that is written back unchanged (touched, but equal to what was
/// rendered) does not re-render.
pub proof fn lemma_same_value_write_keeps<T>(state: T)
    ensures
        render_next(Some(state), Some(state), true, equal_values(Some(state), Some(state))) == (
            RenderAction::Keep,
            Some(state),
        ),
{
}

/// Without state the tree is cleared and nothing stays stored, so the next
/// touched state is rendered afresh.
pub proof fn lemma_missing_state_clears<T>(
    previous: Option<T>,
    changed: bool,
    same: bool,
    state: T,
    later_same: bool,
)
    ensures
        render_next(previous, None, changed, same) == (RenderAction::Clear, None::<T>),
        render_next(render_next(previous, None, changed, same).1, Some(state), true, later_same)
            == (RenderAction::Rerender, Some(state)),
{
}

/// After a frame that looked at the state (it was touched), a following
/// frame with the same state, touched or not, keeps the tree and the stored
/// value (or clears again when there is no state).
pub proof fn lemma_second_look_keeps<T>(previous: Option<T>, state: Option<T>, changed: bool)
    ensures
        ({
            let first = render_next(previous, state, true, equal_values(previous, state));
            let second = render_next(first.1, state, changed, equal_values(first.1, state));
            &&& second.1 == first.1
            &&& second.0 == if state is Some {
                RenderAction::Keep
            } else {
                RenderAction::Clear
            }
        }),
{
}

/// The root entities of the UI tree after the render system carried out
/// `action`: a re-render despawns every root and spawns `fresh`, a clear
/// despawns every root, keeping leaves them.
pub open spec fn roots_after<E>(roots: Seq<E>, action: RenderAction, fresh: E) -> Seq<E> {
    match action {
        RenderAction::Keep => roots,
        RenderAction::Clear => Seq::empty(),
        RenderAction::Rerender => seq![fresh],
    }
}

/// The tree and the stored value agree: one root when a value is stored,
/// none otherwise.
pub open spec fn roots_match_stored<E, T>(roots: Seq<E>, stored: Option<T>) -> bool {
    roots.len() == if stored is Some {
        1nat
    } else {
        0nat
    }
}

/// Before the first frame nothing is stored and there is no root, so the
/// tree and the stored value agree.
pub proof fn lemma_roots_match_at_start<E, T>()
    ensures
        roots_match_stored(Seq::<E>::empty(), None::<T>),
{
}

/// Every frame keeps the tree and the stored value in agreement: after it,
/// there is one root exactly when a value is stored, and after a re-render
/// that root is the one spawned for the state now stored (a clone of it).
pub proof fn lemma_frame_keeps_one_root_per_stored_value<E, T: Clone>(
    roots: Seq<E>,
    previous: Option<T>,
    state: Option<T>,
    changed: bool,
    same: bool,
    action: RenderAction,
    next: Option<T>,
    fresh: E,
)
    requires
        roots_match_stored(roots, previous),
        render_step(previous, state, changed, same, action, next),
    ensures
        roots_match_stored(roots_after(roots, action, fresh), next),
        action == RenderAction::Rerender ==> roots_after(roots, action, fresh) == seq![fresh]
            && stored_as(state, next),
        action == RenderAction::Keep ==> roots_after(roots, action, fresh) == roots && next
            == previous,
{
}

} // verus!
