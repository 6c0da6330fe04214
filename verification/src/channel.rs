//! The progress channel: a one-directional, ordered conduit of stage
//! events from the running pipeline to an observer that polls it.

use vstd::prelude::*;

use crate::pipeline::StageEvent;

verus! {

/// Carries stage events from producer to consumer.  Sending appends and
/// never blocks or drops; receiving takes the oldest pending event.  What
/// has been delivered is always a prefix of what was sent, so no event is
/// ever reordered, duplicated or lost.
pub struct ProgressChannel {
    /// Events sent and not yet received, oldest first.
    pub pending: Vec<StageEvent>,
    /// Every event ever sent, in order.
    pub sent: Ghost<Seq<StageEvent>>,
    /// Every event ever received, in order.
    pub delivered: Ghost<Seq<StageEvent>>,
}

impl ProgressChannel {
    /// What was sent is what was delivered followed by what is pending.
    pub open spec fn wf(&self) -> bool {
        self.sent@ == self.delivered@ + self.pending@
    }

    /// An empty channel.
    pub fn new() -> (r: ProgressChannel)
        ensures
            r.wf(),
            r.sent@ == Seq::<StageEvent>::empty(),
            r.delivered@ == Seq::<StageEvent>::empty(),
    {
        let r = ProgressChannel {
            pending: Vec::new(),
            sent: Ghost(Seq::empty()),
            delivered: Ghost(Seq::empty()),
        };
        proof {
            assert(r.sent@ =~= r.delivered@ + r.pending@);
        }
        r
    }

    /// Publishes one event; the producer is never blocked.
    pub fn send(&mut self, ev: StageEvent)
        requires
            old(self).wf(),
        ensures
            final(self).wf(),
            final(self).sent@ == old(self).sent@.push(ev),
            final(self).delivered@ == old(self).delivered@,
    {
        self.pending.push(ev);
        self.sent = Ghost(self.sent@.push(ev));
        proof {
            assert(self.sent@ =~= self.delivered@ + self.pending@);
        }
    }

    /// Takes the oldest event not yet received, if any is pending: the
    /// events come out in exactly the order they were sent.
    pub fn try_recv(&mut self) -> (r: Option<StageEvent>)
        requires
            old(self).wf(),
        ensures
            final(self).wf(),
            final(self).sent@ == old(self).sent@,
            match r {
                Some(ev) => {
                    &&& old(self).delivered@.len() < old(self).sent@.len()
                    &&& ev == old(self).sent@[old(self).delivered@.len() as int]
                    &&& final(self).delivered@ == old(self).delivered@.push(ev)
                },
                None => {
                    &&& old(self).delivered@ == old(self).sent@
                    &&& final(self).delivered@ == old(self).delivered@
                },
            },
    {
        if self.pending.len() == 0 {
            proof {
                assert(self.delivered@ =~= self.sent@);
            }
            None
        } else {
            let ev = self.pending.remove(0);
            self.delivered = Ghost(self.delivered@.push(ev));
            proof {
                assert(self.sent@ =~= self.delivered@ + self.pending@);
            }
            Some(ev)
        }
    }
}

/// Delivery order matches emission order: what an observer has received
/// is always a prefix of what the pipeline has sent.
pub proof fn lemma_delivery_is_prefix_of_emission(ch: ProgressChannel)
    requires
        ch.wf(),
    ensures
        ch.delivered@.is_prefix_of(ch.sent@),
{
    assert(ch.delivered@ =~= ch.sent@.take(ch.delivered@.len() as int));
}

} // verus!
