//! The bounded FIFO command queue between the messaging listener and the
//! dispatcher's consumer: commands are kept in receipt order, and a full
//! queue admits nothing more, so a slow consumer stalls the producer rather
//! than losing a decoded command.

use vstd::prelude::*;

use crate::mqtt::MqttCommand;

verus! {

/// The capacity the process wires the queue with.
pub const QUEUE_CAPACITY: usize = 10;

/// A bounded FIFO queue of commands.
pub struct CommandQueue {
    items: Vec<MqttCommand>,
    capacity: usize,
}

/// What enqueueing does: a command is appended only while the queue is below
/// its capacity; a full queue is left as it stands and the producer must
/// wait.
pub open spec fn enqueue_model(q: Seq<MqttCommand>, capacity: nat, c: MqttCommand) -> (
    Seq<MqttCommand>,
    bool,
) {
    if q.len() < capacity {
        (q.push(c), true)
    } else {
        (q, false)
    }
}

/// What dequeueing does: the oldest command leaves first.
pub open spec fn dequeue_model(q: Seq<MqttCommand>) -> (Seq<MqttCommand>, Option<MqttCommand>) {
    if q.len() == 0 {
        (q, None)
    } else {
        (q.drop_first(), Some(q[0]))
    }
}

impl View for CommandQueue {
    type V = Seq<MqttCommand>;

    closed spec fn view(&self) -> Seq<MqttCommand> {
        self.items@
    }
}

impl CommandQueue {
    /// How many commands the queue can hold at once.
    pub closed spec fn capacity(&self) -> nat {
        self.capacity as nat
    }

    /// The queue never holds more than its capacity.
    pub open spec fn wf(&self) -> bool {
        self@.len() <= self.capacity()
    }

    /// An empty queue of the given capacity.
    pub fn new(capacity: usize) -> (q: Self)
        ensures
            q.wf(),
            q@ == Seq::<MqttCommand>::empty(),
            q.capacity() == capacity,
    {
        let q = CommandQueue { items: Vec::new(), capacity };
        proof {
            assert(q@ =~= Seq::<MqttCommand>::empty());
        }
        q
    }

    /// How many commands wait right now.
    pub fn len(&self) -> (n: usize)
        ensures
            n == self@.len(),
    {
        self.items.len()
    }

    /// Append a command if there is room; report whether it was taken. On a
    /// full queue nothing changes and the producer has to drain one first.
    pub fn try_enqueue(&mut self, command: MqttCommand) -> (accepted: bool)
        requires
            old(self).wf(),
        ensures
            final(self).wf(),
            final(self).capacity() == old(self).capacity(),
            (final(self)@, accepted) == enqueue_model(old(self)@, old(self).capacity(), command),
    {
        if self.items.len() < self.capacity {
            self.items.push(command);
            true
        } else {
            false
        }
    }

    /// Take the oldest command, if any.
    pub fn dequeue(&mut self) -> (r: Option<MqttCommand>)
        requires
            old(self).wf(),
        ensures
            final(self).wf(),
            final(self).capacity() == old(self).capacity(),
            (final(self)@, r) == dequeue_model(old(self)@),
    {
        if self.items.len() == 0 {
            None
        } else {
            let command: MqttCommand = self.items.remove(0);
            proof {
                assert(self@ =~= old(self)@.drop_first());
            }
            Some(command)
        }
    }
}

/// Backpressure: a queue holding as many commands as its capacity admits no
/// further one — the queue stands unchanged and the send is refused — and as
/// soon as one command is drained, the next is admitted again.
pub proof fn lemma_backpressure(q: Seq<MqttCommand>, capacity: nat, c: MqttCommand)
    requires
        q.len() == capacity,
        capacity > 0,
    ensures
        enqueue_model(q, capacity, c) == (q, false),
        enqueue_model(dequeue_model(q).0, capacity, c).1,
{
}

} // verus!
