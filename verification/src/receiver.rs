//! The handler abstraction: a strategy the server invokes with each chunk of
//! bytes read from one client, and the sources that hand one such strategy
//! to every accepted client.

use vstd::prelude::*;

verus! {

/// Error a receiver returns to abort delivery for its own client. It never
/// affects other clients or the server itself.
#[derive(Clone, Copy, PartialEq, Eq, Structural, Debug)]
pub struct ReceiveError;

/// Caller-supplied strategy invoked with each chunk of bytes from one
/// client's stream. One receiver may serve many clients at once, so an
/// implementation must tolerate concurrent invocation.
pub trait Receiver: Sized {
    /// When the receiver may be handed `data`.
    spec fn req(&self, data: Seq<u8>) -> bool;

    /// What one completed delivery promises of its outcome.
    spec fn ens(&self, data: Seq<u8>, outcome: Result<(), ReceiveError>) -> bool;

    /// `Ok` asks for further chunks from the same client; `Err` aborts
    /// delivery for that client alone.
    fn receive(&self, data: &[u8]) -> (outcome: Result<(), ReceiveError>)
        requires
            self.req(data@),
        ensures
            self.ens(data@, outcome),
    ;
}

/// Strategy that yields one receiver per accepted client.
pub trait ReceiverSource: Sized {
    type Receiver: Receiver;

    /// Which receivers this source can hand out.
    spec fn can_produce(&self, r: Self::Receiver) -> bool;

    /// Called by the dispatch loop once for every client that connects.
    /// Producing a receiver does not change which receivers the source can
    /// hand out later.
    fn new_receiver(&mut self) -> (r: Self::Receiver)
        ensures
            old(self).can_produce(r),
            forall|x: Self::Receiver|
                #[trigger] final(self).can_produce(x) <==> old(self).can_produce(x),
    ;
}

/// A receiver source that shares one prototypical receiver with every
/// client: each client is handed a handle to the same receiver.
pub struct PrototypeReceiverSource<R> {
    prototype: std::sync::Arc<R>,
}

impl<R> PrototypeReceiverSource<R> {
    /// The receiver every client shares.
    pub closed spec fn prototype(&self) -> R {
        *self.prototype
    }

    pub fn new(r: R) -> (s: Self)
        ensures
            s.prototype() == r,
    {
        PrototypeReceiverSource { prototype: std::sync::Arc::new(r) }
    }
}

/// Relies on `Arc::clone`: the clone is a handle to the same shared value.
#[verifier::external_body]
fn share<R>(p: &std::sync::Arc<R>) -> (r: std::sync::Arc<R>)
    ensures
        *r == **p,
{
    p.clone()
}

impl<R: Receiver> Receiver for std::sync::Arc<R> {
    open spec fn req(&self, data: Seq<u8>) -> bool {
        (**self).req(data)
    }

    open spec fn ens(&self, data: Seq<u8>, outcome: Result<(), ReceiveError>) -> bool {
        (**self).ens(data, outcome)
    }

    fn receive(&self, data: &[u8]) -> (outcome: Result<(), ReceiveError>) {
        (**self).receive(data)
    }
}

impl<R: Receiver> ReceiverSource for PrototypeReceiverSource<R> {
    type Receiver = std::sync::Arc<R>;

    open spec fn can_produce(&self, r: std::sync::Arc<R>) -> bool {
        *r == self.prototype()
    }

    fn new_receiver(&mut self) -> (r: std::sync::Arc<R>) {
        share(&self.prototype)
    }
}

/// A receiver that calls one closure on every delivered chunk and never
/// refuses a delivery.
pub struct ClosureReceiver<F> where F: Fn(&[u8]) {
    receive: F,
}

impl<F: Fn(&[u8])> ClosureReceiver<F> {
    #[verifier::type_invariant]
    spec fn wf(self) -> bool {
        forall|data: &[u8]| call_requires(self.receive, (data,))
    }

    /// The closure invoked on each chunk.
    pub closed spec fn callback(&self) -> F {
        self.receive
    }

    pub fn new(receive: F) -> (r: Self)
        requires
            forall|data: &[u8]| call_requires(receive, (data,)),
        ensures
            r.callback() == receive,
            forall|data: Seq<u8>| #[trigger] r.req(data),
            forall|data: Seq<u8>, outcome: Result<(), ReceiveError>|
                #[trigger] r.ens(data, outcome) ==> outcome is Ok,
    {
        ClosureReceiver { receive }
    }
}

impl<F: Fn(&[u8])> Receiver for ClosureReceiver<F> {
    open spec fn req(&self, data: Seq<u8>) -> bool {
        true
    }

    /// A delivery completes a call of the stored closure on the delivered
    /// bytes, and never refuses.
    open spec fn ens(&self, data: Seq<u8>, outcome: Result<(), ReceiveError>) -> bool {
        outcome is Ok && exists|s: &[u8]|
            s@ == data && #[trigger] call_ensures(self.callback(), (s,), ())
    }

    fn receive(&self, data: &[u8]) -> (outcome: Result<(), ReceiveError>) {
        proof {
            use_type_invariant(self);
        }
        (self.receive)(data);
        proof {
            assert(call_ensures(self.callback(), (data,), ()));
        }
        Ok(())
    }
}

} // verus!
