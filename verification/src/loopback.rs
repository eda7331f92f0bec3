//! A virtual in-process bus: frames sent to it are received back in order.
//! It gives the frame model a transport to round-trip through without any
//! foreign backend.

use vstd::prelude::*;

use crate::message::PyCanMessage;
use crate::message::is_tx_frame;

verus! {

/// A loopback transport holding the frames in flight, oldest first.
pub struct LoopbackBus {
    queue: Vec<PyCanMessage>,
}

impl LoopbackBus {
    /// The frames in flight, oldest first.
    pub closed spec fn frames(&self) -> Seq<PyCanMessage> {
        self.queue@
    }

    pub fn new() -> (bus: LoopbackBus)
        ensures
            bus.frames() == Seq::<PyCanMessage>::empty(),
    {
        LoopbackBus { queue: Vec::new() }
    }

    /// Queues the frame that a send with this identifier and payload
    /// transmits; earlier frames are untouched.
    pub fn send(&mut self, id: u32, data: &[u8])
        requires
            data@.len() <= 8,
        ensures
            final(self).frames().len() == old(self).frames().len() + 1,
            final(self).frames().drop_last() == old(self).frames(),
            is_tx_frame(final(self).frames().last(), id, data@),
            final(self).frames().last().well_formed(),
    {
        let frame = PyCanMessage::new_tx(id, data);
        self.queue.push(frame);
        proof {
            assert(self.queue@.drop_last() =~= old(self).queue@);
        }
    }

    /// Takes the oldest frame in flight, if any.  Unlike a real transport's
    /// blocking receive, an empty loopback reports that it has nothing.
    pub fn recv(&mut self) -> (m: Option<PyCanMessage>)
        ensures
            old(self).frames().len() == 0 ==> m is None && *final(self) == *old(self),
            old(self).frames().len() > 0 ==> (m matches Some(f) && f == old(self).frames().first()
                && final(self).frames() == old(self).frames().drop_first()),
    {
        if self.queue.len() == 0 {
            Option::None
        } else {
            let frame = self.queue.remove(0);
            proof {
                assert(self.queue@ =~= old(self).queue@.drop_first());
            }
            Option::Some(frame)
        }
    }
}

} // verus!
