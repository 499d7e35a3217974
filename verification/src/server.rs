//! The server handle. It owns one side of the cancellation signal: a
//! shared, cloneable token any holder may raise, all holders observe, and
//! whose raising is idempotent and irreversible for the lifetime of one
//! server. The runtime spawns the dispatch loop with a clone of the
//! signal and races it against the accept stream; `stop` asks the loop to
//! leave at its next race point.

use vstd::prelude::*;

verus! {

#[verifier::external_type_specification]
#[verifier::external_body]
pub struct ExCancellationToken(tokio_util::sync::CancellationToken);

/// Relies on `CancellationToken::new`: a fresh signal, not yet raised.
#[verifier::external_body]
fn signal_new() -> tokio_util::sync::CancellationToken {
    tokio_util::sync::CancellationToken::new()
}

/// Relies on `CancellationToken::clone`: the clone and the original are
/// one logical signal — each is cancelled exactly when the other is — so
/// the clone is modelled as the same value.
#[verifier::external_body]
fn signal_share(t: &tokio_util::sync::CancellationToken) -> (r:
    tokio_util::sync::CancellationToken)
    ensures
        r == *t,
{
    t.clone()
}

/// Relies on `CancellationToken::cancel`: raises the signal for every
/// holder; raising an already-raised signal changes nothing.
#[verifier::external_body]
fn signal_raise(t: &tokio_util::sync::CancellationToken) {
    t.cancel()
}

/// Handle to a running server. Dropping it does not stop the server;
/// only raising the signal does.
pub struct AsyncServer {
    cancel: tokio_util::sync::CancellationToken,
}

impl AsyncServer {
    /// The cancellation signal this handle owns: the one `stop` raises.
    pub closed spec fn token(&self) -> tokio_util::sync::CancellationToken {
        self.cancel
    }

    /// A handle holding a fresh cancellation signal. The runtime that
    /// starts the server keeps the handle and gives the dispatch loop a
    /// clone of the signal.
    pub fn new() -> AsyncServer {
        AsyncServer { cancel: signal_new() }
    }

    /// The signal the dispatch loop races on: the very one `stop` raises.
    pub fn signal(&self) -> (r: tokio_util::sync::CancellationToken)
        ensures
            r == self.token(),
    {
        signal_share(&self.cancel)
    }

    /// Ask the dispatch loop to stop at its next race point. A second
    /// call is a no-op: the signal stays raised.
    pub fn stop(&self) {
        signal_raise(&self.cancel)
    }
}

} // verus!
