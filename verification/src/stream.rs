use vstd::prelude::*;

use crate::channel::BoundedChannel;
use crate::channel::RecvResult;
use crate::channel::SendResult;
use crate::counter::ThroughputCounter;
use crate::errors::RenderError;
use crate::pipeline::page_result_matches;
use crate::pipeline::process_page;
use crate::pipeline::PageResult;

verus! {

/// Where the streaming run stands. The producer (discovery) and the
/// consumer (render-convert-emit) run concurrently and race to completion:
/// whichever side finishes first moves the run out of `Running`, and the
/// coordinator then terminates without waiting for the slower side, after
/// signalling it to stop.
#[derive(Clone, Copy, PartialEq, Eq, Structural, Debug)]
pub enum StreamPhase {
    /// Both producer and consumer are active.
    Running,
    /// Discovery finished first; the consumer is draining the backlog.
    DiscoveryDone,
    /// The consumer exited first; discovery has been unsubscribed.
    ConsumerDone,
    /// The race has resolved and the run's report can be read.
    Terminated,
}

/// The streaming coordinator's state: the phase of the producer-consumer
/// race, the bounded channel between the two, and the throughput
/// accounting. Outside work — discovery, rendering, emitting — happens
/// elsewhere; each step of it hands this machine a plain value and the
/// machine decides what follows.
pub struct StreamCoordinator {
    phase: StreamPhase,
    channel: BoundedChannel,
    counter: ThroughputCounter,
    documents: u64,
    failures: u64,
}

impl StreamCoordinator {
    pub closed spec fn spec_phase(&self) -> StreamPhase {
        self.phase
    }

    /// The URLs buffered between producer and consumer, oldest first.
    pub closed spec fn spec_backlog(&self) -> Seq<String> {
        self.channel.spec_queue()
    }

    pub closed spec fn spec_capacity(&self) -> usize {
        self.channel.spec_capacity()
    }

    /// Whether the channel is closed, i.e. whether the unsubscribe signal
    /// has been raised.
    pub closed spec fn spec_unsubscribed(&self) -> bool {
        self.channel.spec_closed()
    }

    /// The throughput counter's value.
    pub closed spec fn spec_count(&self) -> u64 {
        self.counter.spec_count()
    }

    /// Consumer iterations that emitted a markdown document.
    pub closed spec fn spec_documents(&self) -> u64 {
        self.documents
    }

    /// Consumer iterations that logged a render failure.
    pub closed spec fn spec_failures(&self) -> u64 {
        self.failures
    }

    /// The coordinator's invariant: the channel is well formed; the channel
    /// is closed exactly when the run has left `Running` (whichever side
    /// finishes first raises the unsubscribe signal on its way out); and the
    /// counter holds one increment per consumer iteration, document or
    /// failure alike.
    pub closed spec fn wf(&self) -> bool {
        &&& self.channel.wf()
        &&& (self.phase != StreamPhase::Running <==> self.channel.spec_closed())
        &&& self.counter.spec_count() == self.documents + self.failures
    }

    /// Where the race stands, for the loops driving the two sides.
    pub fn phase(&self) -> (r: StreamPhase)
        ensures
            r == self.spec_phase(),
    {
        self.phase
    }

    /// Start a streaming run: both sides active, nothing buffered, nothing
    /// counted.
    pub fn new(capacity: usize) -> (r: StreamCoordinator)
        requires
            1 <= capacity,
        ensures
            r.wf(),
            r.spec_phase() == StreamPhase::Running,
            r.spec_backlog() == Seq::<String>::empty(),
            r.spec_capacity() == capacity,
            r.spec_count() == 0,
            r.spec_documents() == 0,
            r.spec_failures() == 0,
    {
        StreamCoordinator {
            phase: StreamPhase::Running,
            channel: BoundedChannel::new(capacity),
            counter: ThroughputCounter::new(),
            documents: 0,
            failures: 0,
        }
    }

    /// The producer publishes one discovered URL. While the run is
    /// `Running` and the channel has room the URL is buffered; a full
    /// channel refuses it (backpressure: discovery pauses and retries after
    /// the consumer drains one); once the run has left `Running` the channel
    /// is closed and the send is refused without buffering anything.
    pub fn producer_publish(&mut self, url: String) -> (r: SendResult)
        requires
            old(self).wf(),
        ensures
            final(self).wf(),
            final(self).spec_phase() == old(self).spec_phase(),
            final(self).spec_capacity() == old(self).spec_capacity(),
            final(self).spec_count() == old(self).spec_count(),
            final(self).spec_documents() == old(self).spec_documents(),
            final(self).spec_failures() == old(self).spec_failures(),
            old(self).spec_phase() != StreamPhase::Running ==> r == SendResult::Closed(url)
                && final(self).spec_backlog() == old(self).spec_backlog(),
            old(self).spec_phase() == StreamPhase::Running
                && old(self).spec_backlog().len() == old(self).spec_capacity()
                ==> r == SendResult::Full(url)
                && final(self).spec_backlog() == old(self).spec_backlog(),
            old(self).spec_phase() == StreamPhase::Running
                && old(self).spec_backlog().len() < old(self).spec_capacity()
                ==> r == SendResult::Sent
                && final(self).spec_backlog() == old(self).spec_backlog().push(url),
    {
        self.channel.try_send(url)
    }

    /// The consumer asks for the next event. Buffered URLs come out oldest
    /// first, even after discovery has finished; `Disconnected` comes only
    /// once the run has left `Running` and the backlog is drained, and ends
    /// the consumer loop.
    pub fn consumer_receive(&mut self) -> (r: RecvResult)
        requires
            old(self).wf(),
        ensures
            final(self).wf(),
            final(self).spec_phase() == old(self).spec_phase(),
            final(self).spec_capacity() == old(self).spec_capacity(),
            final(self).spec_count() == old(self).spec_count(),
            final(self).spec_documents() == old(self).spec_documents(),
            final(self).spec_failures() == old(self).spec_failures(),
            old(self).spec_backlog().len() > 0
                ==> r == RecvResult::Received(old(self).spec_backlog()[0])
                && final(self).spec_backlog() == old(self).spec_backlog().drop_first(),
            old(self).spec_backlog().len() == 0 && old(self).spec_phase() != StreamPhase::Running
                ==> r == RecvResult::Disconnected
                && final(self).spec_backlog() == old(self).spec_backlog(),
            old(self).spec_backlog().len() == 0 && old(self).spec_phase() == StreamPhase::Running
                ==> r == RecvResult::Empty
                && final(self).spec_backlog() == old(self).spec_backlog(),
    {
        self.channel.try_recv()
    }

    /// One consumer-loop iteration's compute step, after the received URL
    /// was rendered outside: convert a rendered page to markdown, or turn
    /// the failure into its diagnostic line — and either way increment the
    /// throughput counter exactly once.
    pub fn consumer_process(&mut self, outcome: &Result<String, RenderError>) -> (r: PageResult)
        requires
            old(self).wf(),
            old(self).spec_count() < u64::MAX,
        ensures
            final(self).wf(),
            final(self).spec_phase() == old(self).spec_phase(),
            final(self).spec_capacity() == old(self).spec_capacity(),
            final(self).spec_backlog() == old(self).spec_backlog(),
            page_result_matches(*outcome, r),
            final(self).spec_count() == old(self).spec_count() + 1,
            outcome is Ok ==> final(self).spec_documents() == old(self).spec_documents() + 1
                && final(self).spec_failures() == old(self).spec_failures(),
            outcome is Err ==> final(self).spec_failures() == old(self).spec_failures() + 1
                && final(self).spec_documents() == old(self).spec_documents(),
    {
        let r = process_page(outcome);
        match &r {
            PageResult::Document(_) => {
                self.documents = self.documents + 1;
            },
            PageResult::Failure(_) => {
                self.failures = self.failures + 1;
            },
        }
        self.counter.increment();
        r
    }

    /// Discovery finished first: close the channel so the consumer sees the
    /// stream end once it has drained the backlog.
    pub fn producer_finished(&mut self)
        requires
            old(self).wf(),
            old(self).spec_phase() == StreamPhase::Running,
        ensures
            final(self).wf(),
            final(self).spec_phase() == StreamPhase::DiscoveryDone,
            final(self).spec_unsubscribed(),
            final(self).spec_backlog() == old(self).spec_backlog(),
            final(self).spec_capacity() == old(self).spec_capacity(),
            final(self).spec_count() == old(self).spec_count(),
            final(self).spec_documents() == old(self).spec_documents(),
            final(self).spec_failures() == old(self).spec_failures(),
    {
        self.phase = StreamPhase::DiscoveryDone;
        self.channel.close();
    }

    /// The consumer loop exited. If discovery was still running this exit
    /// wins the race and unsubscribes it — the channel closes, so discovery
    /// cannot write to it any more; if discovery had already finished, both
    /// sides are now done and the run is terminated.
    pub fn consumer_exited(&mut self)
        requires
            old(self).wf(),
            old(self).spec_phase() == StreamPhase::Running
                || old(self).spec_phase() == StreamPhase::DiscoveryDone,
        ensures
            final(self).wf(),
            final(self).spec_unsubscribed(),
            old(self).spec_phase() == StreamPhase::Running
                ==> final(self).spec_phase() == StreamPhase::ConsumerDone,
            old(self).spec_phase() == StreamPhase::DiscoveryDone
                ==> final(self).spec_phase() == StreamPhase::Terminated,
            final(self).spec_backlog() == old(self).spec_backlog(),
            final(self).spec_capacity() == old(self).spec_capacity(),
            final(self).spec_count() == old(self).spec_count(),
            final(self).spec_documents() == old(self).spec_documents(),
            final(self).spec_failures() == old(self).spec_failures(),
    {
        match self.phase {
            StreamPhase::Running => {
                self.phase = StreamPhase::ConsumerDone;
                self.channel.close();
            },
            _ => {
                self.phase = StreamPhase::Terminated;
                self.channel.close();
            },
        }
    }

    /// Resolve the race: whichever side finished first, the coordinator
    /// stops waiting for the slower one, leaves the unsubscribe signal
    /// raised, and moves to `Terminated` with the accounting intact so the
    /// report can be read.
    pub fn terminate(&mut self)
        requires
            old(self).wf(),
        ensures
            final(self).wf(),
            final(self).spec_phase() == StreamPhase::Terminated,
            final(self).spec_unsubscribed(),
            final(self).spec_backlog() == old(self).spec_backlog(),
            final(self).spec_capacity() == old(self).spec_capacity(),
            final(self).spec_count() == old(self).spec_count(),
            final(self).spec_documents() == old(self).spec_documents(),
            final(self).spec_failures() == old(self).spec_failures(),
    {
        self.phase = StreamPhase::Terminated;
        self.channel.close();
    }

    /// The shutdown report's processed-URL count: read once after the race
    /// resolves.
    pub fn report(&self) -> (r: u64)
        requires
            self.wf(),
        ensures
            r == self.spec_count(),
            r == self.spec_documents() + self.spec_failures(),
    {
        self.counter.get()
    }
}

/// After a streaming run the throughput counter equals the number of
/// consumer-loop iterations — those that emitted a document plus those that
/// logged a failure — regardless of how many iterations failed.
pub proof fn lemma_counter_counts_iterations(c: StreamCoordinator)
    requires
        c.wf(),
    ensures
        c.spec_count() == c.spec_documents() + c.spec_failures(),
{
}

/// Whichever side of the race finishes first, leaving `Running` raises the
/// unsubscribe signal: from then on discovery cannot write into the
/// channel, while the consumer may still drain the backlog.
pub proof fn lemma_race_unsubscribes(c: StreamCoordinator)
    requires
        c.wf(),
        c.spec_phase() != StreamPhase::Running,
    ensures
        c.spec_unsubscribed(),
{
}

} // verus!
