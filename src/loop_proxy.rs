//! A proxy of a running loop that keeps account of the events it has handed
//! to that loop. Only a successful send adds to that account.
use vstd::prelude::*;

use winit::event_loop::EventLoopProxy;

verus! {

/// winit's `EventLoopProxy`, carried through without looking inside.
#[verifier::external_type_specification]
#[verifier::external_body]
#[verifier::reject_recursive_types(T)]
pub struct ExEventLoopProxy<T: 'static>(EventLoopProxy<T>);

/// A proxy of a loop, with the events it has handed to that loop so far.
#[verifier::reject_recursive_types(T)]
pub struct LoopProxy<T: 'static> {
    proxy: EventLoopProxy<T>,
    sent: Ghost<Seq<T>>,
}

impl<T: 'static> LoopProxy<T> {
    /// The events handed to the loop through this proxy, in order.
    pub closed spec fn sent(&self) -> Seq<T> {
        self.sent@
    }

    /// A proxy that has handed nothing to its loop yet.
    pub fn new(proxy: EventLoopProxy<T>) -> (r: Self)
        ensures
            r.sent() == Seq::<T>::empty(),
    {
        LoopProxy { proxy, sent: Ghost(Seq::empty()) }
    }

    /// Relies on winit's `EventLoopProxy::send_event`: on success the event
    /// is emitted to the loop as a user event; when the loop no longer
    /// exists, the event is handed back inside the error.
    #[verifier::external_body]
    pub(crate) fn send(&mut self, event: T) -> (r: Result<(), T>)
        ensures
            r is Ok ==> final(self).sent() == old(self).sent().push(event),
            r matches Err(e) ==> e == event && final(self).sent() == old(self).sent(),
    {
        match self.proxy.send_event(event) {
            Ok(()) => Ok(()),
            Err(closed) => Err(closed.0),
        }
    }
}

} // verus!
