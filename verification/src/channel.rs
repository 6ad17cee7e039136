use vstd::prelude::*;

verus! {

/// What a publication attempt did. A refused send hands the URL back to the
/// producer unchanged, so nothing is lost when the channel is full or closed.
pub enum SendResult {
    /// The URL was buffered at the tail of the channel.
    Sent,
    /// The channel already holds `capacity` unconsumed events: the producer
    /// must pause until the consumer drains one.
    Full(String),
    /// The channel was closed (the consumer unsubscribed, or the run ended):
    /// nothing may be written to it any more.
    Closed(String),
}

/// What a receive attempt found.
pub enum RecvResult {
    /// The oldest buffered URL, removed from the head of the channel.
    Received(String),
    /// Nothing buffered yet, but the producer may still publish.
    Empty,
    /// Nothing buffered and the channel is closed: the stream has ended and
    /// the consumer loop exits.
    Disconnected,
}

/// A bounded FIFO channel of discovered URLs between the discovery producer
/// and the render-convert consumer. The bound provides backpressure: once
/// `capacity` events are buffered, further sends are refused until the
/// consumer drains one. Closing the channel stops publication while letting
/// the consumer drain what is already buffered.
pub struct BoundedChannel {
    queue: Vec<String>,
    capacity: usize,
    closed: bool,
}

impl BoundedChannel {
    /// The buffered URLs, oldest first.
    pub closed spec fn spec_queue(&self) -> Seq<String> {
        self.queue@
    }

    pub closed spec fn spec_capacity(&self) -> usize {
        self.capacity
    }

    pub closed spec fn spec_closed(&self) -> bool {
        self.closed
    }

    /// The channel never buffers more than its capacity, and the capacity
    /// admits at least one event.
    pub closed spec fn wf(&self) -> bool {
        1 <= self.capacity && self.queue@.len() <= self.capacity
    }

    /// A send is accepted exactly when the channel is open and below
    /// capacity.
    pub open spec fn can_send(&self) -> bool {
        !self.spec_closed() && self.spec_queue().len() < self.spec_capacity()
    }

    pub fn new(capacity: usize) -> (r: BoundedChannel)
        requires
            1 <= capacity,
        ensures
            r.wf(),
            r.spec_queue() == Seq::<String>::empty(),
            r.spec_capacity() == capacity,
            !r.spec_closed(),
    {
        BoundedChannel { queue: Vec::new(), capacity, closed: false }
    }

    /// The producer publishes one discovered URL. A full channel refuses the
    /// send and buffers nothing, which is what makes a slow consumer throttle
    /// discovery; a closed channel refuses it likewise. Either refusal hands
    /// the URL back and leaves the channel exactly as it was.
    pub fn try_send(&mut self, url: String) -> (r: SendResult)
        requires
            old(self).wf(),
        ensures
            final(self).wf(),
            final(self).spec_capacity() == old(self).spec_capacity(),
            final(self).spec_closed() == old(self).spec_closed(),
            old(self).spec_closed() ==> r == SendResult::Closed(url)
                && final(self).spec_queue() == old(self).spec_queue(),
            !old(self).spec_closed() && old(self).spec_queue().len() == old(self).spec_capacity()
                ==> r == SendResult::Full(url)
                && final(self).spec_queue() == old(self).spec_queue(),
            old(self).can_send() ==> r == SendResult::Sent
                && final(self).spec_queue() == old(self).spec_queue().push(url),
    {
        if self.closed {
            SendResult::Closed(url)
        } else if self.queue.len() == self.capacity {
            SendResult::Full(url)
        } else {
            self.queue.push(url);
            SendResult::Sent
        }
    }

    /// The consumer takes the oldest buffered URL, in the order the producer
    /// published them. A closed channel still hands out its backlog; only
    /// once the backlog is drained does the consumer see the stream end.
    pub fn try_recv(&mut self) -> (r: RecvResult)
        requires
            old(self).wf(),
        ensures
            final(self).wf(),
            final(self).spec_capacity() == old(self).spec_capacity(),
            final(self).spec_closed() == old(self).spec_closed(),
            old(self).spec_queue().len() > 0 ==> r == RecvResult::Received(old(self).spec_queue()[0])
                && final(self).spec_queue() == old(self).spec_queue().drop_first(),
            old(self).spec_queue().len() == 0 && old(self).spec_closed()
                ==> r == RecvResult::Disconnected
                && final(self).spec_queue() == old(self).spec_queue(),
            old(self).spec_queue().len() == 0 && !old(self).spec_closed()
                ==> r == RecvResult::Empty
                && final(self).spec_queue() == old(self).spec_queue(),
    {
        if self.queue.len() > 0 {
            let url = self.queue.remove(0);
            proof {
                assert(self.queue@ =~= old(self).queue@.drop_first());
            }
            RecvResult::Received(url)
        } else if self.closed {
            RecvResult::Disconnected
        } else {
            RecvResult::Empty
        }
    }

    /// Close the channel: the unsubscribe signal. No further send is
    /// accepted; the backlog stays for the consumer to drain.
    pub fn close(&mut self)
        requires
            old(self).wf(),
        ensures
            final(self).wf(),
            final(self).spec_closed(),
            final(self).spec_queue() == old(self).spec_queue(),
            final(self).spec_capacity() == old(self).spec_capacity(),
    {
        self.closed = true;
    }
}

/// Backpressure: with the channel at capacity the producer's send is
/// refused, and after the consumer drains a single event a send is accepted
/// again. `full` is any channel at capacity; `drained` is that channel after
/// one receive.
pub proof fn lemma_backpressure(full: BoundedChannel, drained: BoundedChannel)
    requires
        full.wf(),
        !full.spec_closed(),
        full.spec_queue().len() == full.spec_capacity(),
        drained.wf(),
        !drained.spec_closed(),
        drained.spec_capacity() == full.spec_capacity(),
        drained.spec_queue() == full.spec_queue().drop_first(),
    ensures
        !full.can_send(),
        drained.can_send(),
{
}

} // verus!
