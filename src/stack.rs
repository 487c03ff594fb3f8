//! The save/restore history of drawing states; the top frame is current.

use vstd::prelude::*;
use crate::state::{default_state, State};

verus! {

/// The frames after a save: the top frame duplicated.
pub open spec fn pushed(frames: Seq<State>) -> Seq<State>
    recommends
        frames.len() >= 1,
{
    frames.push(frames.last())
}

/// The frames after a restore: the top frame removed, unless it is the only one.
pub open spec fn popped(frames: Seq<State>) -> Seq<State> {
    if frames.len() > 1 {
        frames.drop_last()
    } else {
        frames
    }
}

/// A sequence of saves (`true`) and restores (`false`) applied in order.
pub open spec fn apply_saves_restores(frames: Seq<State>, ops: Seq<bool>) -> Seq<State>
    decreases ops.len(),
{
    if ops.len() == 0 {
        frames
    } else {
        let next = if ops[0] {
            pushed(frames)
        } else {
            popped(frames)
        };
        apply_saves_restores(next, ops.drop_first())
    }
}

/// An ordered sequence of drawing states: the saved ones, oldest first, and
/// the current one on top. It cannot be empty.
pub struct StateStack {
    saved: Vec<State>,
    top: State,
}

impl View for StateStack {
    type V = Seq<State>;

    closed spec fn view(&self) -> Seq<State> {
        self.saved@.push(self.top)
    }
}

impl StateStack {
    /// The stack is never empty.
    pub open spec fn inv(&self) -> bool {
        self@.len() >= 1
    }

    /// Every stack satisfies `inv`.
    pub proof fn lemma_inv(&self)
        ensures
            self.inv(),
    {
    }

    /// A stack of one frame holding the default state.
    pub fn new() -> (r: StateStack)
        ensures
            r@ == seq![default_state()],
    {
        let r = StateStack { saved: Vec::new(), top: State::new() };
        assert(r@ =~= seq![default_state()]);
        r
    }

    /// The number of saved frames: all but the current one.
    pub fn saved_count(&self) -> (r: usize)
        ensures
            r + 1 == self@.len(),
    {
        self.saved.len()
    }

    /// Duplicates the top frame, so that later changes affect only the copy.
    pub fn push(&mut self)
        ensures
            final(self)@ == pushed(old(self)@),
    {
        self.saved.push(self.top);
    }

    /// Removes the top frame; with a single frame left this does nothing.
    pub fn pop(&mut self)
        ensures
            final(self)@ == popped(old(self)@),
    {
        let ghost before = self@;
        if let Some(s) = self.saved.pop() {
            self.top = s;
            assert(self@ =~= before.drop_last());
        }
    }

    /// The current (top) frame.
    pub fn current(&self) -> (r: &State)
        ensures
            *r == self@.last(),
    {
        &self.top
    }

    /// The current (top) frame, for changing its attributes.
    pub fn current_mut(&mut self) -> (r: &mut State)
        ensures
            *r == old(self)@.last(),
            final(self)@ == old(self)@.update(old(self)@.len() - 1, *final(r)),
    {
        let ghost saved = self.saved@;
        let ghost top = self.top;
        let r = &mut self.top;
        proof {
            assert(saved.push(*final(r)) =~= saved.push(top).update(saved.len() as int, *final(r)));
        }
        r
    }
}

/// However saves and restores are interleaved, the stack never becomes empty.
pub proof fn lemma_never_empty(frames: Seq<State>, ops: Seq<bool>)
    requires
        frames.len() >= 1,
    ensures
        apply_saves_restores(frames, ops).len() >= 1,
    decreases ops.len(),
{
    if ops.len() > 0 {
        let next = if ops[0] {
            pushed(frames)
        } else {
            popped(frames)
        };
        lemma_never_empty(next, ops.drop_first());
    }
}

/// A save followed at once by a restore gives back the same frames, so the
/// top frame keeps every attribute it had before the save.
pub proof fn lemma_save_restore_identity(frames: Seq<State>)
    requires
        frames.len() >= 1,
    ensures
        popped(pushed(frames)) == frames,
        popped(pushed(frames)).last() == frames.last(),
{
    assert(pushed(frames).drop_last() =~= frames);
}

} // verus!
