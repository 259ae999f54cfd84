//! The channel through which other code and other threads inject events into
//! the loop: a buffer while the loop is not running, a forwarder to the
//! windowing system's proxy once it runs.
use vstd::prelude::*;

use crate::loop_proxy::LoopProxy;

verus! {

/// Why an event could not be injected.
#[derive(Clone, Copy, Debug, PartialEq, Eq, Structural)]
pub enum EventLoopError {
    /// The loop has shut down.
    EventLoopTerminated,
}

/// The abstract state of a channel: whether it is bound to a running loop,
/// what it buffers, and what its proxy has handed to the loop so far, in
/// order (nothing while unbound).
pub struct ChannelState<T> {
    pub live: bool,
    pub queued: Seq<T>,
    pub forwarded: Seq<T>,
}

/// The state after `event` was buffered.
pub open spec fn queued_send<T>(c: ChannelState<T>, event: T) -> ChannelState<T> {
    ChannelState { queued: c.queued.push(event), ..c }
}

/// The state after `event` was handed to the loop.
pub open spec fn forwarded_send<T>(c: ChannelState<T>, event: T) -> ChannelState<T> {
    ChannelState { forwarded: c.forwarded.push(event), ..c }
}

/// The state after binding to a proxy that had already handed `sent` to its
/// loop: the proxy took every buffered event, in order.
pub open spec fn bound<T>(c: ChannelState<T>, sent: Seq<T>) -> ChannelState<T> {
    ChannelState { live: true, queued: Seq::empty(), forwarded: sent + c.queued }
}

/// Either a proxy of the running loop or the events waiting for it.
#[verifier::reject_recursive_types(T)]
pub struct GlobalEventLoopProxyOrEventQueue<T: 'static> {
    proxy: Option<LoopProxy<T>>,
    queue: Vec<T>,
}

impl<T: 'static> View for GlobalEventLoopProxyOrEventQueue<T> {
    type V = ChannelState<T>;

    closed spec fn view(&self) -> ChannelState<T> {
        ChannelState {
            live: self.proxy is Some,
            queued: self.queue@,
            forwarded: match self.proxy {
                Some(p) => p.sent(),
                None => Seq::empty(),
            },
        }
    }
}

impl<T: 'static> GlobalEventLoopProxyOrEventQueue<T> {
    pub closed spec fn wf(&self) -> bool {
        self.proxy is Some ==> self.queue@.len() == 0
    }

    /// A channel that buffers, with nothing buffered or forwarded.
    pub fn new() -> (r: Self)
        ensures
            r.wf(),
            r@.live == false,
            r@.queued == Seq::<T>::empty(),
            r@.forwarded == Seq::<T>::empty(),
    {
        GlobalEventLoopProxyOrEventQueue { proxy: None, queue: Vec::new() }
    }

    /// Injects `event`: buffered while no loop runs, which always succeeds;
    /// handed to the loop's proxy once bound, which fails when the loop is
    /// gone.
    pub fn send_event(&mut self, event: T) -> (r: Result<(), EventLoopError>)
        requires
            old(self).wf(),
        ensures
            final(self).wf(),
            !old(self)@.live ==> r is Ok && final(self)@ == queued_send(old(self)@, event),
            old(self)@.live ==> match r {
                Ok(()) => final(self)@ == forwarded_send(old(self)@, event),
                Err(e) => e == EventLoopError::EventLoopTerminated && final(self)@ == old(self)@,
            },
    {
        match &mut self.proxy {
            Some(proxy) => match proxy.send(event) {
                Ok(()) => Ok(()),
                Err(_) => Err(EventLoopError::EventLoopTerminated),
            },
            None => {
                self.queue.push(event);
                Ok(())
            },
        }
    }

    /// Binds the channel to a running loop: the buffered events go through
    /// `proxy` first, in the order they came. Binding a bound channel changes
    /// nothing. If the loop refuses an event, the channel stays unbound and
    /// keeps that event and the ones after it.
    pub fn set_proxy(&mut self, proxy: LoopProxy<T>) -> (r: Result<(), EventLoopError>)
        requires
            old(self).wf(),
        ensures
            final(self).wf(),
            old(self)@.live ==> r is Ok && final(self)@ == old(self)@,
            !old(self)@.live ==> match r {
                Ok(()) => final(self)@ == bound(old(self)@, proxy.sent()),
                Err(e) => e == EventLoopError::EventLoopTerminated && !final(self)@.live
                    && exists|k: int|
                    0 <= k < old(self)@.queued.len() && final(self)@.queued == old(
                        self,
                    )@.queued.skip(k),
            },
    {
        if self.proxy.is_some() {
            return Ok(());
        }
        let mut proxy = proxy;
        let mut pending: Vec<T> = Vec::new();
        std::mem::swap(&mut pending, &mut self.queue);
        let ghost queued = pending@;
        let ghost start = proxy.sent();
        let ghost mut sent: int = 0;
        while pending.len() > 0
            invariant
                self.proxy is None,
                self.queue@.len() == 0,
                0 <= sent <= queued.len(),
                queued == old(self)@.queued,
                !old(self)@.live,
                pending@ == queued.skip(sent),
                proxy.sent() == start + queued.take(sent),
            decreases pending@.len(),
        {
            let event = pending.remove(0);
            proof {
                assert(sent < queued.len());
                assert(event == queued[sent]);
            }
            match proxy.send(event) {
                Ok(()) => {
                    proof {
                        assert(queued.take(sent + 1) =~= queued.take(sent).push(queued[sent]));
                        assert(pending@ =~= queued.skip(sent + 1));
                        sent = sent + 1;
                    }
                },
                Err(event) => {
                    pending.insert(0, event);
                    proof {
                        assert(pending@ =~= queued.skip(sent));
                    }
                    self.queue = pending;
                    return Err(EventLoopError::EventLoopTerminated);
                },
            }
        }
        proof {
            assert(queued.take(sent) =~= queued);
            assert(self.queue@ =~= Seq::<T>::empty());
        }
        self.proxy = Some(proxy);
        Ok(())
    }

    /// How many events wait for the loop.
    pub fn queued_len(&self) -> (r: usize)
        ensures
            r == self@.queued.len(),
    {
        self.queue.len()
    }

    /// Whether the channel is bound to a running loop.
    pub fn is_live(&self) -> (r: bool)
        ensures
            r == self@.live,
    {
        self.proxy.is_some()
    }
}

impl<T: 'static> Default for GlobalEventLoopProxyOrEventQueue<T> {
    /// A channel that buffers, with nothing buffered or forwarded.
    fn default() -> (r: Self)
        ensures
            r.wf(),
            r@.live == false,
            r@.queued == Seq::<T>::empty(),
            r@.forwarded == Seq::<T>::empty(),
    {
        Self::new()
    }
}

/// The state after each of `events` was buffered, in order.
pub open spec fn queued_all<T>(c: ChannelState<T>, events: Seq<T>) -> ChannelState<T>
    decreases events.len(),
{
    if events.len() == 0 {
        c
    } else {
        queued_send(queued_all(c, events.drop_last()), events.last())
    }
}

/// The state after each of `events` was handed to the loop, in order.
pub open spec fn forwarded_all<T>(c: ChannelState<T>, events: Seq<T>) -> ChannelState<T>
    decreases events.len(),
{
    if events.len() == 0 {
        c
    } else {
        forwarded_send(forwarded_all(c, events.drop_last()), events.last())
    }
}

proof fn lemma_queued_all<T>(c: ChannelState<T>, events: Seq<T>)
    ensures
        queued_all(c, events).live == c.live,
        queued_all(c, events).queued == c.queued + events,
        queued_all(c, events).forwarded == c.forwarded,
    decreases events.len(),
{
    if events.len() > 0 {
        lemma_queued_all(c, events.drop_last());
        assert(c.queued + events =~= (c.queued + events.drop_last()).push(events.last()));
    } else {
        assert(c.queued + events =~= c.queued);
    }
}

proof fn lemma_forwarded_all<T>(c: ChannelState<T>, events: Seq<T>)
    ensures
        forwarded_all(c, events).live == c.live,
        forwarded_all(c, events).queued == c.queued,
        forwarded_all(c, events).forwarded == c.forwarded + events,
    decreases events.len(),
{
    if events.len() > 0 {
        lemma_forwarded_all(c, events.drop_last());
        assert(c.forwarded + events =~= (c.forwarded + events.drop_last()).push(events.last()));
    } else {
        assert(c.forwarded + events =~= c.forwarded);
    }
}

/// Events injected before the loop runs reach it through the proxy that the
/// channel is bound to, after what that proxy had sent before, in the order
/// they were injected and ahead of every event injected after the binding;
/// none is lost or repeated.
pub proof fn lemma_buffered_events_come_first<T>(
    c: ChannelState<T>,
    early: Seq<T>,
    sent_before: Seq<T>,
    late: Seq<T>,
)
    requires
        !c.live,
    ensures
        forwarded_all(bound(queued_all(c, early), sent_before), late).forwarded == sent_before
            + c.queued + early + late,
        forwarded_all(bound(queued_all(c, early), sent_before), late).queued.len() == 0,
{
    lemma_queued_all(c, early);
    let b = bound(queued_all(c, early), sent_before);
    lemma_forwarded_all(b, late);
    assert(sent_before + (c.queued + early) + late =~= sent_before + c.queued + early + late);
}

} // verus!
