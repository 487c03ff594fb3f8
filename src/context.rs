//! The rendering context: owns the state stack, refers to the drawing
//! surface, and turns each operation into one message to the renderer.

use vstd::prelude::*;
use std::sync::mpsc::Sender;
use crate::renderer::Renderer;
use crate::protocol::{CanvasMsg, Rect, Size};
use crate::stack::{popped, pushed, StateStack};
use crate::state::{default_state, State};

verus! {

/// Why an operation sent nothing to the renderer, or failed to.
#[derive(Clone, Copy, Debug, PartialEq, Eq, Structural)]
pub enum CanvasError {
    /// The context was closed before, or its renderer was found unreachable.
    Closed,
    /// The renderer could not be reached: the message was not delivered.
    Disconnected,
}

/// What a context is, seen from outside: its frames, every message it has
/// handed to the channel so far, and whether it will send any more.
pub struct Model {
    pub frames: Seq<State>,
    pub sent: Seq<CanvasMsg>,
    pub closed: bool,
}

/// An operation on a context.
pub enum Op {
    /// A drawing or resizing command, sent as the given message.
    Send(CanvasMsg),
    /// Teardown.
    Close,
    /// Save the current state.
    Save,
    /// Restore the previously saved state.
    Restore,
}

/// The model of a freshly constructed context.
pub open spec fn initial_model() -> Model {
    Model { frames: seq![default_state()], sent: Seq::empty(), closed: false }
}

/// The effect of one operation; `delivered` is whether the channel accepted
/// the message, if one was sent.
///
/// A closed context sends nothing more. A failed send closes the context.
/// `Close` is sent once, whatever the channel answers.
pub open spec fn step(m: Model, op: Op, delivered: bool) -> Model {
    match op {
        Op::Send(msg) => if m.closed {
            m
        } else {
            Model { frames: m.frames, sent: m.sent.push(msg), closed: !delivered }
        },
        Op::Close => if m.closed {
            m
        } else {
            Model { frames: m.frames, sent: m.sent.push(CanvasMsg::Close), closed: true }
        },
        Op::Save => Model { frames: pushed(m.frames), sent: m.sent, closed: m.closed },
        Op::Restore => Model { frames: popped(m.frames), sent: m.sent, closed: m.closed },
    }
}

/// A sequence of operations applied in order, the i-th send answered by
/// `outcomes[i]`.
pub open spec fn run(m: Model, ops: Seq<Op>, outcomes: Seq<bool>) -> Model
    decreases ops.len(),
{
    if ops.len() == 0 {
        m
    } else {
        run(step(m, ops[0], outcomes[0]), ops.drop_first(), outcomes.drop_first())
    }
}

/// Every send in the sequence is accepted by the channel.
pub open spec fn all_delivered(ops: Seq<Op>, outcomes: Seq<bool>) -> bool {
    outcomes.len() == ops.len() && forall|i: int| 0 <= i < outcomes.len() ==> outcomes[i]
}

/// A message other than `Close`.
pub open spec fn is_command(msg: CanvasMsg) -> bool {
    !(msg is Close)
}

/// `Close` occurs at most once in `sent`, and only as its last message.
pub open spec fn close_only_last(sent: Seq<CanvasMsg>) -> bool {
    forall|i: int| 0 <= i < sent.len() && sent[i] is Close ==> i == sent.len() - 1
}

/// `sent` ends with `Close`, and holds no other `Close`.
pub open spec fn closed_exactly_once(sent: Seq<CanvasMsg>) -> bool {
    &&& sent.len() >= 1
    &&& sent.last() is Close
    &&& close_only_last(sent)
}

/// Every `Send` in `ops` carries a command; teardown goes through `Op::Close`.
pub open spec fn sends_commands(ops: Seq<Op>) -> bool {
    forall|i: int| 0 <= i < ops.len() && ops[i] is Send ==> is_command(ops[i]->Send_0)
}

/// A `Close` already sent is the last message, and then the context is closed.
pub open spec fn close_is_final(m: Model) -> bool {
    &&& close_only_last(m.sent)
    &&& (m.sent.len() >= 1 && m.sent.last() is Close ==> m.closed)
}

/// Running a history and then one more operation is running the longer
/// history. Since each call on a context ensures
/// `model() == step(old model, op, answer)`, a context that has gone through
/// calls `ops` with answers `outcomes` has the model `run(m, ops, outcomes)`,
/// and the laws on `run` hold of those calls.
pub proof fn lemma_run_then_step(m: Model, ops: Seq<Op>, outcomes: Seq<bool>, op: Op, d: bool)
    requires
        outcomes.len() == ops.len(),
    ensures
        run(m, ops.push(op), outcomes.push(d)) == step(run(m, ops, outcomes), op, d),
    decreases ops.len(),
{
    if ops.len() > 0 {
        let next = step(m, ops[0], outcomes[0]);
        assert(ops.push(op)[0] == ops[0]);
        assert(outcomes.push(d)[0] == outcomes[0]);
        assert(ops.push(op).drop_first() =~= ops.drop_first().push(op));
        assert(outcomes.push(d).drop_first() =~= outcomes.drop_first().push(d));
        lemma_run_then_step(next, ops.drop_first(), outcomes.drop_first(), op, d);
    } else {
        assert(ops.push(op).drop_first() =~= Seq::<Op>::empty());
        assert(outcomes.push(d).drop_first() =~= Seq::<bool>::empty());
        reveal_with_fuel(run, 2);
    }
}

/// However operations and channel answers are interleaved, the state stack
/// never becomes empty.
pub proof fn lemma_frames_never_empty(m: Model, ops: Seq<Op>, outcomes: Seq<bool>)
    requires
        m.frames.len() >= 1,
    ensures
        run(m, ops, outcomes).frames.len() >= 1,
    decreases ops.len(),
{
    if ops.len() > 0 {
        let next = step(m, ops[0], outcomes[0]);
        assert(next.frames.len() >= 1);
        lemma_frames_never_empty(next, ops.drop_first(), outcomes.drop_first());
    }
}

/// A save followed at once by a restore leaves the context as it was: the
/// same frames, the top one attribute for attribute, and nothing sent.
pub proof fn lemma_save_then_restore(m: Model, d1: bool, d2: bool)
    requires
        m.frames.len() >= 1,
    ensures
        step(step(m, Op::Save, d1), Op::Restore, d2) == m,
{
    assert(popped(pushed(m.frames)) =~= m.frames);
}

/// Commands sent to an open context whose channel accepts them all reach the
/// channel in call order, one message each, and leave the state stack as it was.
pub proof fn lemma_commands_in_order(m: Model, msgs: Seq<CanvasMsg>, outcomes: Seq<bool>)
    requires
        !m.closed,
        forall|i: int| 0 <= i < msgs.len() ==> is_command(#[trigger] msgs[i]),
        outcomes.len() == msgs.len(),
        forall|i: int| 0 <= i < outcomes.len() ==> outcomes[i],
    ensures
        run(m, msgs.map_values(|msg: CanvasMsg| Op::Send(msg)), outcomes).sent == m.sent + msgs,
        run(m, msgs.map_values(|msg: CanvasMsg| Op::Send(msg)), outcomes).frames == m.frames,
        !run(m, msgs.map_values(|msg: CanvasMsg| Op::Send(msg)), outcomes).closed,
    decreases msgs.len(),
{
    let ops = msgs.map_values(|msg: CanvasMsg| Op::Send(msg));
    if msgs.len() == 0 {
        assert(m.sent + msgs =~= m.sent);
    } else {
        let next = step(m, ops[0], outcomes[0]);
        assert(next.sent == m.sent.push(msgs[0]));
        let rest = msgs.drop_first();
        assert(ops.drop_first() =~= rest.map_values(|msg: CanvasMsg| Op::Send(msg)));
        assert forall|i: int| 0 <= i < rest.len() implies is_command(#[trigger] rest[i]) by {
            assert(rest[i] == msgs[i + 1]);
        }
        assert forall|i: int| 0 <= i < outcomes.drop_first().len() implies outcomes.drop_first()[i] by {
            assert(outcomes.drop_first()[i] == outcomes[i + 1]);
        }
        lemma_commands_in_order(next, rest, outcomes.drop_first());
        assert(m.sent.push(msgs[0]) + rest =~= m.sent + msgs);
    }
}

/// Resizing an open context N times, with every message accepted, sends N
/// `Recreate` messages in call order; whatever the channel answers, the
/// state stack is unchanged.
pub proof fn lemma_recreate_in_order(m: Model, sizes: Seq<Size>, outcomes: Seq<bool>)
    requires
        !m.closed,
        outcomes.len() == sizes.len(),
    ensures
        run(m, sizes.map_values(|s: Size| Op::Send(CanvasMsg::Recreate(s))), outcomes).frames
            == m.frames,
        (forall|i: int| 0 <= i < outcomes.len() ==> outcomes[i]) ==> run(
            m,
            sizes.map_values(|s: Size| Op::Send(CanvasMsg::Recreate(s))),
            outcomes,
        ).sent == m.sent + sizes.map_values(|s: Size| CanvasMsg::Recreate(s)),
{
    let msgs = sizes.map_values(|s: Size| CanvasMsg::Recreate(s));
    let ops = sizes.map_values(|s: Size| Op::Send(CanvasMsg::Recreate(s)));
    assert(ops =~= msgs.map_values(|msg: CanvasMsg| Op::Send(msg)));
    lemma_sends_keep_frames(m, ops, outcomes);
    if forall|i: int| 0 <= i < outcomes.len() ==> outcomes[i] {
        lemma_commands_in_order(m, msgs, outcomes);
    }
}

/// Sending, closing and answers of the channel never touch the state stack.
pub proof fn lemma_sends_keep_frames(m: Model, ops: Seq<Op>, outcomes: Seq<bool>)
    requires
        forall|i: int| 0 <= i < ops.len() ==> (#[trigger] ops[i]) is Send || ops[i] is Close,
    ensures
        run(m, ops, outcomes).frames == m.frames,
    decreases ops.len(),
{
    if ops.len() > 0 {
        let rest = ops.drop_first();
        assert forall|i: int| 0 <= i < rest.len() implies (#[trigger] rest[i]) is Send
            || rest[i] is Close by {
            assert(rest[i] == ops[i + 1]);
        }
        lemma_sends_keep_frames(step(m, ops[0], outcomes[0]), rest, outcomes.drop_first());
    }
}

/// Once closed, a context sends nothing and its state no longer changes but
/// for saves and restores.
pub proof fn lemma_closed_sends_nothing(m: Model, ops: Seq<Op>, outcomes: Seq<bool>)
    requires
        m.closed,
    ensures
        run(m, ops, outcomes).sent == m.sent,
        run(m, ops, outcomes).closed,
    decreases ops.len(),
{
    if ops.len() > 0 {
        lemma_closed_sends_nothing(step(m, ops[0], outcomes[0]), ops.drop_first(), outcomes.drop_first());
    }
}

proof fn lemma_close_is_final_kept(m: Model, ops: Seq<Op>, outcomes: Seq<bool>)
    requires
        close_is_final(m),
        sends_commands(ops),
    ensures
        close_is_final(run(m, ops, outcomes)),
        all_delivered(ops, outcomes) && (m.closed ==> m.sent.len() >= 1 && m.sent.last() is Close)
            ==> (run(m, ops, outcomes).closed ==> run(m, ops, outcomes).sent.len() >= 1
            && run(m, ops, outcomes).sent.last() is Close),
    decreases ops.len(),
{
    if ops.len() > 0 {
        let next = step(m, ops[0], outcomes[0]);
        if !m.closed {
            assert(forall|i: int| 0 <= i < m.sent.len() ==> !(m.sent[i] is Close));
            match ops[0] {
                Op::Send(msg) => {
                    assert(is_command(ops[0]->Send_0));
                    assert(next.sent == m.sent.push(msg));
                },
                Op::Close => {},
                _ => {},
            }
        }
        assert(close_is_final(next));
        let rest = ops.drop_first();
        assert forall|i: int| 0 <= i < rest.len() && rest[i] is Send implies is_command(
            rest[i]->Send_0,
        ) by {
            assert(rest[i] == ops[i + 1]);
        }
        if all_delivered(ops, outcomes) {
            assert(outcomes[0]);
            assert forall|i: int| 0 <= i < outcomes.drop_first().len() implies outcomes.drop_first()[i] by {
                assert(outcomes.drop_first()[i] == outcomes[i + 1]);
            }
        }
        lemma_close_is_final_kept(next, rest, outcomes.drop_first());
    }
}

/// Whatever a fresh context was asked to do before, tearing it down leaves it
/// closed with `Close` sent at most once and as the last message; while the
/// channel accepted every message, `Close` was sent exactly once.
pub proof fn lemma_close_once(ops: Seq<Op>, outcomes: Seq<bool>)
    requires
        sends_commands(ops),
    ensures
        step(run(initial_model(), ops, outcomes), Op::Close, true).closed,
        close_only_last(step(run(initial_model(), ops, outcomes), Op::Close, true).sent),
        all_delivered(ops, outcomes) ==> closed_exactly_once(
            step(run(initial_model(), ops, outcomes), Op::Close, true).sent,
        ),
{
    let m = run(initial_model(), ops, outcomes);
    lemma_close_is_final_kept(initial_model(), ops, outcomes);
    let end = step(m, Op::Close, true);
    if !m.closed {
        assert(forall|i: int| 0 <= i < m.sent.len() ==> !(m.sent[i] is Close));
        assert(end.sent == m.sent.push(CanvasMsg::Close));
    }
}

/// What an operation that sends a command returns, given whether the
/// channel accepted it.
pub fn send_outcome(delivered: bool) -> (r: Result<(), CanvasError>)
    ensures
        r == (if delivered {
            Ok::<(), CanvasError>(())
        } else {
            Err(CanvasError::Disconnected)
        }),
    opens_invariants none
    no_unwind
{
    if delivered {
        Ok(())
    } else {
        Err(CanvasError::Disconnected)
    }
}

/// A 2D drawing context bound to a surface of type `S` and to the sending
/// end of its renderer's channel.
pub struct CanvasRenderingContext2D<S> {
    renderer: Renderer,
    canvas: S,
    state: StateStack,
    closed: bool,
}

impl<S> CanvasRenderingContext2D<S> {
    pub closed spec fn model(&self) -> Model {
        Model { frames: self.state@, sent: self.renderer.handed(), closed: self.closed }
    }

    /// The surface the context draws on.
    pub closed spec fn surface(&self) -> S {
        self.canvas
    }

    /// The channel endpoint the context sends on.
    pub closed spec fn sender(&self) -> Sender<CanvasMsg> {
        self.renderer.sender()
    }

    /// The state stack is never empty.
    pub open spec fn inv(&self) -> bool {
        self.model().frames.len() >= 1
    }

    /// Every context satisfies `inv`: its state stack cannot be empty.
    pub proof fn lemma_inv(&self)
        ensures
            self.inv(),
    {
        self.state.lemma_inv();
    }

    /// A context for `canvas` that sends to `renderer`, with one default frame.
    pub fn new(canvas: S, renderer: Sender<CanvasMsg>) -> (r: Self)
        ensures
            r.model() == initial_model(),
            r.surface() == canvas,
            r.sender() == renderer,
            r.inv(),
    {
        CanvasRenderingContext2D {
            renderer: Renderer::new(renderer),
            canvas,
            state: StateStack::new(),
            closed: false,
        }
    }

    /// Sends one command, unless the context is closed.
    fn dispatch(&mut self, msg: CanvasMsg) -> (r: Result<(), CanvasError>)
        requires
            is_command(msg),
        ensures
            final(self).model() == step(old(self).model(), Op::Send(msg), r is Ok),
            final(self).surface() == old(self).surface(),
            final(self).sender() == old(self).sender(),
            old(self).model().closed ==> r == Err::<(), CanvasError>(CanvasError::Closed),
            !old(self).model().closed ==> r is Ok || r == Err::<(), CanvasError>(
                CanvasError::Disconnected,
            ),
    {
        if self.closed {
            return Err(CanvasError::Closed);
        }
        let delivered = self.renderer.send(msg);
        self.closed = !delivered;
        send_outcome(delivered)
    }

    /// Asks the renderer to reallocate its buffer at `size`. The state stack
    /// is left as it is.
    pub fn recreate(&mut self, size: Size) -> (r: Result<(), CanvasError>)
        ensures
            final(self).model() == step(old(self).model(), Op::Send(CanvasMsg::Recreate(size)), r is Ok),
            final(self).surface() == old(self).surface(),
            final(self).sender() == old(self).sender(),
            old(self).model().closed ==> r == Err::<(), CanvasError>(CanvasError::Closed),
            !old(self).model().closed ==> r is Ok || r == Err::<(), CanvasError>(
                CanvasError::Disconnected,
            ),
    {
        self.dispatch(CanvasMsg::Recreate(size))
    }

    /// Fills `rect` on the renderer's buffer.
    pub fn fill_rect(&mut self, rect: Rect) -> (r: Result<(), CanvasError>)
        ensures
            final(self).model() == step(old(self).model(), Op::Send(CanvasMsg::FillRect(rect)), r is Ok),
            final(self).surface() == old(self).surface(),
            final(self).sender() == old(self).sender(),
            old(self).model().closed ==> r == Err::<(), CanvasError>(CanvasError::Closed),
            !old(self).model().closed ==> r is Ok || r == Err::<(), CanvasError>(
                CanvasError::Disconnected,
            ),
    {
        self.dispatch(CanvasMsg::FillRect(rect))
    }

    /// Clears `rect` on the renderer's buffer.
    pub fn clear_rect(&mut self, rect: Rect) -> (r: Result<(), CanvasError>)
        ensures
            final(self).model() == step(old(self).model(), Op::Send(CanvasMsg::ClearRect(rect)), r is Ok),
            final(self).surface() == old(self).surface(),
            final(self).sender() == old(self).sender(),
            old(self).model().closed ==> r == Err::<(), CanvasError>(CanvasError::Closed),
            !old(self).model().closed ==> r is Ok || r == Err::<(), CanvasError>(
                CanvasError::Disconnected,
            ),
    {
        self.dispatch(CanvasMsg::ClearRect(rect))
    }

    /// Strokes the outline of `rect` on the renderer's buffer.
    pub fn stroke_rect(&mut self, rect: Rect) -> (r: Result<(), CanvasError>)
        ensures
            final(self).model() == step(old(self).model(), Op::Send(CanvasMsg::StrokeRect(rect)), r is Ok),
            final(self).surface() == old(self).surface(),
            final(self).sender() == old(self).sender(),
            old(self).model().closed ==> r == Err::<(), CanvasError>(CanvasError::Closed),
            !old(self).model().closed ==> r is Ok || r == Err::<(), CanvasError>(
                CanvasError::Disconnected,
            ),
    {
        self.dispatch(CanvasMsg::StrokeRect(rect))
    }

    /// Tells the renderer to stop, the first time only; afterwards the
    /// context sends nothing more.
    pub fn close(&mut self) -> (r: Result<(), CanvasError>)
        ensures
            final(self).model() == step(old(self).model(), Op::Close, true),
            final(self).surface() == old(self).surface(),
            final(self).sender() == old(self).sender(),
            old(self).model().closed ==> r == Err::<(), CanvasError>(CanvasError::Closed),
            !old(self).model().closed ==> r is Ok || r == Err::<(), CanvasError>(
                CanvasError::Disconnected,
            ),
        opens_invariants none
        no_unwind
    {
        if self.closed {
            return Err(CanvasError::Closed);
        }
        let delivered = self.renderer.send(CanvasMsg::Close);
        self.closed = true;
        send_outcome(delivered)
    }

    /// Whether the context will send no more messages.
    pub fn is_closed(&self) -> (r: bool)
        ensures
            r == self.model().closed,
    {
        self.closed
    }

    /// Saves a copy of the current state.
    pub fn save(&mut self)
        ensures
            final(self).model() == step(old(self).model(), Op::Save, true),
            final(self).surface() == old(self).surface(),
            final(self).sender() == old(self).sender(),
            final(self).inv(),
    {
        self.state.push();
    }

    /// Restores the last saved state; with nothing saved this does nothing.
    pub fn restore(&mut self)
        ensures
            final(self).model() == step(old(self).model(), Op::Restore, true),
            final(self).surface() == old(self).surface(),
            final(self).sender() == old(self).sender(),
            final(self).inv(),
    {
        self.state.pop();
        proof {
            self.state.lemma_inv();
        }
    }

    /// The number of saved states on the stack, below the current one.
    pub fn saved_count(&self) -> (r: usize)
        ensures
            r + 1 == self.model().frames.len(),
    {
        self.state.saved_count()
    }

    /// The current state.
    pub fn current_state(&self) -> (r: &State)
        ensures
            *r == self.model().frames.last(),
    {
        self.state.current()
    }

    /// The current state, for changing its attributes. Nothing is sent.
    pub fn current_state_mut(&mut self) -> (r: &mut State)
        ensures
            *r == old(self).model().frames.last(),
            final(self).model().frames == old(self).model().frames.update(
                old(self).model().frames.len() - 1,
                *final(r),
            ),
            final(self).model().sent == old(self).model().sent,
            final(self).model().closed == old(self).model().closed,
            final(self).surface() == old(self).surface(),
            final(self).sender() == old(self).sender(),
    {
        self.state.current_mut()
    }

    /// The surface the context draws on.
    pub fn canvas(&self) -> (r: &S)
        ensures
            *r == self.surface(),
    {
        &self.canvas
    }
}

/// Access to the renderer's channel for code that draws outside the context.
pub trait LayoutCanvasRenderingContext2DHelpers {
    /// Another sending end of the channel this context sends on.
    fn get_renderer(&self) -> Sender<CanvasMsg>;
}

impl<S> LayoutCanvasRenderingContext2DHelpers for CanvasRenderingContext2D<S> {
    fn get_renderer(&self) -> Sender<CanvasMsg> {
        self.renderer.clone_sender()
    }
}

impl<S> Drop for CanvasRenderingContext2D<S> {
    /// Teardown sends `Close`, unless it was sent already; it is the `Close`
    /// step of the model, on every path that releases the context.
    fn drop(&mut self)
        ensures
            final(self).model() == step(old(self).model(), Op::Close, true),
            final(self).surface() == old(self).surface(),
            final(self).sender() == old(self).sender(),
        opens_invariants none
        no_unwind
    {
        let _ = self.close();
    }
}

} // verus!
