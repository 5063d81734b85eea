//! Typed publish/subscribe: synchronous fan-out in registration order, with
//! the canonical state update applied before any subscriber is notified.

use crate::events::{AppEvent, AuthEvent, CustomEvent};
use crate::state::{after_event, AppState, AuthModel};
use vstd::prelude::*;

verus! {

/// One registration: the subscriber's handle and the kind it listens to.
#[derive(Debug, Clone, Copy, PartialEq, Eq, Structural)]
pub struct Subscription {
    pub id: u64,
    pub kind: CustomEvent,
}

/// The handles registered for `kind`, in registration order.
pub open spec fn handles_for(subs: Seq<Subscription>, kind: CustomEvent) -> Seq<u64>
    decreases subs.len(),
{
    if subs.len() == 0 {
        Seq::empty()
    } else {
        let rest = handles_for(subs.drop_last(), kind);
        if subs.last().kind == kind {
            rest.push(subs.last().id)
        } else {
            rest
        }
    }
}

/// Handles that increase along the registrations stay increasing among
/// those of one kind, and stay below any bound of them all.
proof fn lemma_handles_for_increasing(subs: Seq<Subscription>, kind: CustomEvent, bound: u64)
    requires
        forall|i: int, j: int| 0 <= i < j < subs.len() ==> #[trigger] subs[i].id < #[trigger] subs[j].id,
        forall|i: int| 0 <= i < subs.len() ==> #[trigger] subs[i].id < bound,
    ensures
        forall|i: int, j: int|
            0 <= i < j < handles_for(subs, kind).len() ==> #[trigger] handles_for(subs, kind)[i]
                < #[trigger] handles_for(subs, kind)[j],
        forall|i: int|
            0 <= i < handles_for(subs, kind).len() ==> #[trigger] handles_for(subs, kind)[i] < bound,
    decreases subs.len(),
{
    if subs.len() > 0 {
        let rest = subs.drop_last();
        assert forall|i: int| 0 <= i < rest.len() implies #[trigger] rest[i].id < subs.last().id by {
            assert(rest[i] == subs[i]);
        }
        lemma_handles_for_increasing(rest, kind, subs.last().id);
        let h = handles_for(rest, kind);
        assert(subs.last().id < bound) by {
            assert(subs.last() == subs[subs.len() - 1]);
        }
        if subs.last().kind == kind {
            assert(handles_for(subs, kind) == h.push(subs.last().id));
            assert forall|i: int| 0 <= i < h.len() implies #[trigger] h.push(subs.last().id)[i]
                < subs.last().id by {
                assert(h.push(subs.last().id)[i] == h[i]);
            }
        } else {
            assert(handles_for(subs, kind) == h);
        }
    }
}

/// The registry of subscribers. Handles are handed out in increasing order,
/// so the order of the registrations is the order of their handles.
pub struct EventBus {
    subscriptions: Vec<Subscription>,
    next_id: u64,
}

impl EventBus {
    /// The registrations, oldest first.
    pub closed spec fn spec_subscriptions(&self) -> Seq<Subscription> {
        self.subscriptions@
    }

    /// The handle that the next registration gets.
    pub closed spec fn spec_next_id(&self) -> u64 {
        self.next_id
    }

    /// Handles increase with registration order and stay below the next one.
    pub closed spec fn wf(&self) -> bool {
        &&& forall|i: int, j: int|
            0 <= i < j < self.subscriptions@.len() ==> #[trigger] self.subscriptions@[i].id
                < #[trigger] self.subscriptions@[j].id
        &&& forall|i: int|
            0 <= i < self.subscriptions@.len() ==> #[trigger] self.subscriptions@[i].id
                < self.next_id
    }

    /// A bus with no subscriber.
    pub fn new() -> (r: EventBus)
        ensures
            r.wf(),
            r.spec_subscriptions() == Seq::<Subscription>::empty(),
            r.spec_next_id() == 0,
    {
        EventBus { subscriptions: Vec::new(), next_id: 0 }
    }

    /// Registers a subscriber for `kind` after all earlier ones and returns
    /// its handle; `None` once every handle has been handed out.
    pub fn subscribe(&mut self, kind: CustomEvent) -> (r: Option<u64>)
        requires
            old(self).wf(),
        ensures
            final(self).wf(),
            old(self).spec_next_id() == u64::MAX ==> r is None && *final(self) == *old(self),
            old(self).spec_next_id() < u64::MAX ==> {
                &&& r == Some(old(self).spec_next_id())
                &&& final(self).spec_subscriptions() == old(self).spec_subscriptions().push(
                    Subscription { id: old(self).spec_next_id(), kind },
                )
                &&& final(self).spec_next_id() == old(self).spec_next_id() + 1
            },
    {
        if self.next_id == u64::MAX {
            return None;
        }
        let id = self.next_id;
        self.subscriptions.push(Subscription { id, kind });
        self.next_id = id + 1;
        Some(id)
    }

    /// Publishes `event`. The canonical subscriber runs first: an
    /// authentication event sets `state`'s flag and clears its nonce. Then
    /// the handles of the subscribers to notify come back, in registration
    /// order; each of them is notified on its own, and a failure of one
    /// concerns no other.
    pub fn publish(&self, state: &mut AppState, event: &AppEvent) -> (r: Vec<u64>)
        requires
            self.wf(),
        ensures
            final(state)@ == after_event(old(state)@, *event),
            r@ == handles_for(self.spec_subscriptions(), event.spec_kind()),
            forall|i: int, j: int| 0 <= i < j < r@.len() ==> #[trigger] r@[i] < #[trigger] r@[j],
    {
        proof {
            lemma_handles_for_increasing(self.subscriptions@, event.spec_kind(), self.next_id);
        }
        match event {
            AppEvent::Authentication(a) => state.apply_auth_event(*a),
            _ => {},
        }
        let kind = event.kind();
        let mut handles: Vec<u64> = Vec::new();
        let mut i: usize = 0;
        while i < self.subscriptions.len()
            invariant
                i <= self.subscriptions@.len(),
                kind == event.spec_kind(),
                handles@ == handles_for(self.subscriptions@.subrange(0, i as int), kind),
            decreases self.subscriptions@.len() - i,
        {
            let s = self.subscriptions[i];
            assert(self.subscriptions@.subrange(0, i + 1).drop_last()
                =~= self.subscriptions@.subrange(0, i as int));
            if s.kind == kind {
                handles.push(s.id);
            }
            i = i + 1;
        }
        assert(self.subscriptions@.subrange(0, i as int) =~= self.subscriptions@);
        handles
    }
}

/// Publishing the same authentication event twice leaves the state as
/// publishing it once: redundant events are harmless.
pub proof fn lemma_auth_event_idempotent(s: AuthModel, e: AuthEvent)
    ensures
        after_event(after_event(s, AppEvent::Authentication(e)), AppEvent::Authentication(e))
            == after_event(s, AppEvent::Authentication(e)),
{
}

/// Publishing a login and then a logout leaves the user logged out with no
/// pending nonce, from any state. `publish` changes the state by
/// `after_event` alone, so this holds whatever subscribers are registered.
pub proof fn lemma_login_then_logout(s: AuthModel)
    ensures
        after_event(
            after_event(s, AppEvent::Authentication(AuthEvent { authenticated: true })),
            AppEvent::Authentication(AuthEvent { authenticated: false }),
        ) == (AuthModel { authenticated: false, pending: None }),
{
}

} // verus!
