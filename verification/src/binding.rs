//! Holder for the outcome of the most recently requested background
//! operation.
//!
//! An [`AsyncBinding`] owns the observable state of at most one in-flight,
//! cancellable, replaceable operation. Requesting a new operation
//! ([`AsyncBinding::refresh`]) atomically supersedes the previous one: each
//! request is stamped with a fresh epoch, and a completion
//! ([`AsyncBinding::resolve`]) commits only when it carries the epoch of
//! the current request and the binding is still waiting for it. A stale
//! completion, however late it arrives, is observably a no-op, so the
//! state a poll sees always reflects the newest request only.
//!
//! The host that actually runs the deferred operations polls them outside
//! this crate; it tags each started operation with the ticket `refresh`
//! returned and hands the outcome back through `resolve`.

use vstd::prelude::*;

verus! {

/// The observable state of a binding: nothing requested yet, a request in
/// flight, or the outcome of the newest request.
pub enum BindState<T, E> {
    Idle,
    Pending,
    Finished(T),
    Failed(E),
}

/// The outcome holder for the most recently requested operation.
pub struct AsyncBinding<T, E> {
    pub state: BindState<T, E>,
    pub epoch: u64,
}

impl<T, E> AsyncBinding<T, E> {
    /// The state after requesting a new operation: waiting, under the next
    /// epoch.
    pub open spec fn spec_refresh(self) -> AsyncBinding<T, E>
        recommends
            self.epoch < u64::MAX,
    {
        AsyncBinding { state: BindState::Pending, epoch: (self.epoch + 1) as u64 }
    }

    /// The state after an operation completes with `outcome`: the outcome
    /// is committed when the binding still waits for the request the
    /// ticket names, and discarded otherwise.
    pub open spec fn spec_resolve(self, ticket: u64, outcome: Result<T, E>) -> AsyncBinding<T, E> {
        if ticket == self.epoch && self.state is Pending {
            AsyncBinding {
                state: match outcome {
                    Ok(v) => BindState::Finished(v),
                    Err(e) => BindState::Failed(e),
                },
                epoch: self.epoch,
            }
        } else {
            self
        }
    }

    /// A binding with nothing requested yet.
    pub fn new() -> (b: AsyncBinding<T, E>)
        ensures
            b.state is Idle,
            b.epoch == 0,
    {
        AsyncBinding { state: BindState::Idle, epoch: 0 }
    }

    /// Requests a new operation: the binding turns `Pending` and the
    /// previous request, whatever its state, is superseded. The returned
    /// ticket stamps the new operation; only a completion carrying it can
    /// ever commit an outcome.
    pub fn refresh(&mut self) -> (ticket: u64)
        requires
            old(self).epoch < u64::MAX,
        ensures
            *final(self) == old(self).spec_refresh(),
            final(self).state is Pending,
            final(self).epoch == old(self).epoch + 1,
            ticket == final(self).epoch,
    {
        self.epoch = self.epoch + 1;
        self.state = BindState::Pending;
        self.epoch
    }

    /// Delivers the outcome of the operation stamped with `ticket`. The
    /// outcome commits — `Ok` to `Finished`, `Err` to `Failed` — only if
    /// that operation is still the current one and the binding still
    /// waits for it; a stale completion leaves the binding untouched.
    pub fn resolve(&mut self, ticket: u64, outcome: Result<T, E>)
        ensures
            *final(self) == old(self).spec_resolve(ticket, outcome),
            final(self).epoch == old(self).epoch,
    {
        if ticket == self.epoch {
            match self.state {
                BindState::Pending => {
                    self.state = match outcome {
                        Ok(v) => BindState::Finished(v),
                        Err(e) => BindState::Failed(e),
                    };
                },
                _ => {},
            }
        }
    }

    /// Non-blocking read of the current state; always exactly one of the
    /// four variants, with the outcome data borrowed where there is any.
    pub fn state(&self) -> (r: &BindState<T, E>)
        ensures
            *r == self.state,
    {
        &self.state
    }

    /// The resolved value, exactly when the newest request finished
    /// successfully.
    pub fn ok_ref(&self) -> (r: Option<&T>)
        ensures
            r is Some <==> self.state is Finished,
            r matches Some(v) ==> self.state matches BindState::Finished(w) && *v == w,
    {
        match &self.state {
            BindState::Finished(v) => Some(v),
            _ => None,
        }
    }

    /// The resolved error, exactly when the newest request failed.
    pub fn err_ref(&self) -> (r: Option<&E>)
        ensures
            r is Some <==> self.state is Failed,
            r matches Some(e) ==> self.state matches BindState::Failed(w) && *e == w,
    {
        match &self.state {
            BindState::Failed(e) => Some(e),
            _ => None,
        }
    }

    /// Whether nothing has been requested (or the binding was reset).
    pub fn is_idle(&self) -> (r: bool)
        ensures
            r <==> self.state is Idle,
    {
        match &self.state {
            BindState::Idle => true,
            _ => false,
        }
    }

    /// Whether the newest request is still in flight.
    pub fn is_pending(&self) -> (r: bool)
        ensures
            r <==> self.state is Pending,
    {
        match &self.state {
            BindState::Pending => true,
            _ => false,
        }
    }
}

impl<T, E> Default for AsyncBinding<T, E> {
    /// A binding with nothing requested yet.
    fn default() -> (b: AsyncBinding<T, E>)
        ensures
            b.state is Idle,
            b.epoch == 0,
    {
        AsyncBinding::new()
    }
}

/// The newest request wins: after requesting A and then B, B's outcome
/// commits, and A's outcome — arriving only afterwards — is discarded,
/// whatever it was. The final state reflects B's outcome only.
pub proof fn lemma_latest_wins<T, E>(
    b0: AsyncBinding<T, E>,
    out_a: Result<T, E>,
    out_b: Result<T, E>,
)
    requires
        b0.epoch + 2 <= u64::MAX,
    ensures
        ({
            let b1 = b0.spec_refresh();
            let ticket_a = b1.epoch;
            let b2 = b1.spec_refresh();
            let ticket_b = b2.epoch;
            let b3 = b2.spec_resolve(ticket_b, out_b);
            let b4 = b3.spec_resolve(ticket_a, out_a);
            &&& b4 == b3
            &&& (out_b matches Ok(v) ==> b4.state == BindState::<T, E>::Finished(v))
            &&& (out_b matches Err(e) ==> b4.state == BindState::<T, E>::Failed(e))
        }),
{
}

} // verus!
