use vstd::prelude::*;

use std::sync::mpsc::Sender;

pub mod updater;

pub use updater::{UpdaterConfig, Updater, WriteUpdater, XRootUpdater};

verus! {

/// A producer's position in the slot vector.
pub type BlockID = usize;

#[verifier::external_type_specification]
#[verifier::external_body]
#[verifier::reject_recursive_types(T)]
pub struct ExSender<T>(Sender<T>);

/// Relies on std's `Sender::send`: queues the pair for the receiver without
/// blocking, and fails only when the receiving end is gone, handing the pair
/// back. Which of the two happens depends on the other thread.
#[verifier::external_body]
fn send_pair(sender: &Sender<(BlockID, String)>, pair: (BlockID, String)) -> (r: Result<
    (),
    (BlockID, String),
>)
    ensures
        r matches Err(back) ==> back == pair,
{
    sender.send(pair).map_err(|e| e.0)
}

/// A producer's send-end of the channel, bound to its ID.
pub struct MessagePasser {
    id: BlockID,
    sender: Sender<(BlockID, String)>,
}

impl MessagePasser {
    pub closed spec fn spec_id(&self) -> BlockID {
        self.id
    }

    pub fn new(id: BlockID, sender: Sender<(BlockID, String)>) -> (r: Self)
        ensures
            r.spec_id() == id,
    {
        MessagePasser { id, sender }
    }

    /// The ID that every message of this producer carries.
    pub fn id(&self) -> (r: BlockID)
        ensures
            r == self.spec_id(),
    {
        self.id
    }

    /// The pair that carries `value` as this producer's new value.
    pub fn message(&self, value: String) -> (r: (BlockID, String))
        ensures
            r.0 == self.spec_id(),
            r.1@ == value@,
    {
        (self.id, value)
    }

    /// Sends `message` as this producer's new value. When the aggregator has
    /// gone away, nobody will read it: the pair comes back as the error.
    pub fn send(&self, message: String) -> (r: Result<(), (BlockID, String)>)
        ensures
            r matches Err(back) ==> back.0 == self.spec_id() && back.1@ == message@,
    {
        send_pair(&self.sender, self.message(message))
    }
}

} // verus!
