//! The sending end of a renderer's channel, with a record of every message
//! handed to it.

use vstd::prelude::*;
use std::sync::mpsc::Sender;
use crate::protocol::CanvasMsg;

verus! {

#[verifier::external_type_specification]
#[verifier::external_body]
#[verifier::reject_recursive_types(T)]
pub struct ExSender<T>(Sender<T>);

/// Relies on `Sender::clone`: a new sending end of the same channel. Nothing
/// is claimed of it.
pub assume_specification<T>[ <Sender<T> as Clone>::clone ](s: &Sender<T>) -> Sender<T>;

/// A channel endpoint to a renderer. Only `send` adds to the record of
/// messages handed to the channel.
pub struct Renderer {
    tx: Sender<CanvasMsg>,
    handed: Ghost<Seq<CanvasMsg>>,
}

impl Renderer {
    /// The messages handed to `Sender::send` so far, oldest first.
    pub closed spec fn handed(&self) -> Seq<CanvasMsg> {
        self.handed@
    }

    /// The channel endpoint kept.
    pub closed spec fn sender(&self) -> Sender<CanvasMsg> {
        self.tx
    }

    /// An endpoint that has handed nothing yet.
    pub fn new(tx: Sender<CanvasMsg>) -> (r: Renderer)
        ensures
            r.handed() == Seq::<CanvasMsg>::empty(),
            r.sender() == tx,
    {
        Renderer { tx, handed: Ghost(Seq::empty()) }
    }

    /// Relies on `Sender::send`: `msg` is handed to this endpoint's channel
    /// and recorded; the answer is whether the channel took it.
    #[verifier::external_body]
    pub fn send(&mut self, msg: CanvasMsg) -> (delivered: bool)
        ensures
            final(self).handed() == old(self).handed().push(msg),
            final(self).sender() == old(self).sender(),
        opens_invariants none
        no_unwind
    {
        self.tx.send(msg).is_ok()
    }

    /// Another sending end of the same channel.
    pub fn clone_sender(&self) -> Sender<CanvasMsg> {
        self.tx.clone()
    }
}

} // verus!
