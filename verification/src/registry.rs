//! The registry of live completion bridges, addressed by opaque identities.
//!
//! The identity of a bridge is what travels through the native subsystem and
//! comes back as the callback's first argument. Identities are handed out in
//! increasing order and never reused, so a callback that arrives late, twice,
//! or with an identity that was never issued finds no bridge and is discarded
//! instead of reaching another evaluation. Zero is never an identity: at the
//! native boundary it would read as a null pointer.
//!
//! No operation here drops a continuation: each one that leaves the registry
//! is returned to the caller.

use vstd::prelude::*;
use std::collections::HashMap;
use crate::bridge::{
    CompletionBridge, Delivery, Polled, is_callback_outcome, native_flag, native_truth,
    outcome_of, resolve_outcome,
};
use crate::error::LAError;
use crate::protocol::{BridgeEvent, Reaction, run_from, step};

verus! {

/// The live bridges of a registry, by identity.
pub type Bridges<W> = Map<usize, CompletionBridge<W>>;

/// `bridges` with the bridge under `identity` replaced by its successor, or
/// removed where it has none.
pub open spec fn with_successor<W>(
    bridges: Bridges<W>,
    identity: usize,
    successor: Option<CompletionBridge<W>>,
) -> Bridges<W> {
    match successor {
        Some(bridge) => bridges.insert(identity, bridge),
        None => bridges.remove(identity),
    }
}

/// The live bridges after a poll of `identity` with continuation `w`. A poll
/// releases no bridge.
pub open spec fn bridges_after_poll<W>(bridges: Bridges<W>, identity: usize, w: W) -> Bridges<W> {
    if bridges.contains_key(identity) {
        bridges.insert(identity, bridges[identity].after_poll(w).0)
    } else {
        bridges
    }
}

/// The continuation that a poll of `identity` with continuation `w` hands
/// back: the one that the bridge does not keep, and `w` itself where the
/// identity names no live bridge.
pub open spec fn handed_back<W>(bridges: Bridges<W>, identity: usize, w: W) -> Option<W> {
    if bridges.contains_key(identity) {
        bridges[identity].after_poll(w).2
    } else {
        Some(w)
    }
}

/// What a poll of `identity` with continuation `w` answers.
pub open spec fn poll_answer<W>(bridges: Bridges<W>, identity: usize, w: W) -> Polled {
    if bridges.contains_key(identity) {
        bridges[identity].after_poll(w).1
    } else {
        Polled::Gone
    }
}

/// The live bridges after `outcome` is delivered to `identity`.
pub open spec fn bridges_after_deliver<W>(
    bridges: Bridges<W>,
    identity: usize,
    outcome: Result<(), LAError>,
) -> Bridges<W> {
    if bridges.contains_key(identity) {
        with_successor(bridges, identity, bridges[identity].after_deliver(outcome).0)
    } else {
        bridges
    }
}

/// What a delivery of `outcome` to `identity` reports.
pub open spec fn delivery_report<W>(
    bridges: Bridges<W>,
    identity: usize,
    outcome: Result<(), LAError>,
) -> Delivery<W> {
    if bridges.contains_key(identity) {
        bridges[identity].after_deliver(outcome).1
    } else {
        Delivery::Discarded
    }
}

/// The live bridges after the caller of `identity` lets go of its
/// evaluation.
pub open spec fn bridges_after_abandon<W>(bridges: Bridges<W>, identity: usize) -> Bridges<W> {
    if bridges.contains_key(identity) {
        with_successor(bridges, identity, bridges[identity].after_abandon().0)
    } else {
        bridges
    }
}

/// The continuation that was registered for `identity`, which a caller who
/// lets go gets back.
pub open spec fn abandoned_continuation<W>(bridges: Bridges<W>, identity: usize) -> Option<W> {
    if bridges.contains_key(identity) {
        bridges[identity].after_abandon().1
    } else {
        None
    }
}

/// Whether the native subsystem still owes `identity` its callback.
pub open spec fn callback_outstanding<W>(bridges: Bridges<W>, identity: usize) -> bool {
    bridges.contains_key(identity) && bridges[identity].native_share()
}

/// The bridges of all evaluations that still hold a share, and the source of
/// fresh identities.
pub struct BridgeRegistry<W> {
    bridges: HashMap<usize, CompletionBridge<W>>,
    next: usize,
}

impl<W> View for BridgeRegistry<W> {
    type V = Map<usize, CompletionBridge<W>>;

    closed spec fn view(&self) -> Map<usize, CompletionBridge<W>> {
        self.bridges@
    }
}

impl<W> BridgeRegistry<W> {
    /// Every identity issued so far is below the next one to be issued,
    /// zero is not among them, and every outcome in a result slot was put
    /// there by the callback.
    #[verifier::type_invariant]
    spec fn valid(self) -> bool {
        &&& 1 <= self.next
        &&& forall|identity: usize| #[trigger]
            self.bridges@.contains_key(identity) ==> 1 <= identity < self.next && (
            self.bridges@[identity] matches CompletionBridge::Resolved(outcome)
                ==> is_callback_outcome(outcome))
    }

    /// The identity that the next registration will get.
    pub closed spec fn next_identity(&self) -> usize {
        self.next
    }

    /// Creates a registry with no bridge. Its first identity is one.
    pub fn new() -> (registry: Self)
        ensures
            registry@ == Map::<usize, CompletionBridge<W>>::empty(),
            registry.next_identity() == 1,
    {
        BridgeRegistry { bridges: HashMap::new(), next: 1 }
    }

    /// Creates a registry with no bridge whose identities start at `first`,
    /// for an embedding that reserves the identities below it. Zero is
    /// always reserved: asked to start there, the registry starts at one.
    pub fn starting_at(first: usize) -> (registry: Self)
        ensures
            registry@ == Map::<usize, CompletionBridge<W>>::empty(),
            registry.next_identity() == if first == 0 {
                1usize
            } else {
                first
            },
    {
        let next: usize = if first == 0 {
            1
        } else {
            first
        };
        BridgeRegistry { bridges: HashMap::new(), next }
    }

    /// Creates the bridge of a new evaluation, issues its identity, and
    /// returns the identity.
    ///
    /// The bridge is created with the caller's share and gets the native
    /// share with the identity, so it is registered holding both. The
    /// identity is the next of the sequence, is not zero, was never issued
    /// before and names no live bridge. `None`, with the registry unchanged,
    /// when the sequence is used up.
    pub fn register(&mut self) -> (issued: Option<usize>)
        ensures
            issued is Some <==> old(self).next_identity() < usize::MAX,
            issued matches Some(identity) ==> {
                &&& identity == old(self).next_identity()
                &&& identity != 0
                &&& !old(self)@.contains_key(identity)
                &&& final(self)@ == old(self)@.insert(identity, CompletionBridge::Issued(None))
                &&& final(self)@[identity].shares() == 2
                &&& final(self).next_identity() == identity + 1
            },
            issued is None ==> {
                &&& final(self)@ == old(self)@
                &&& final(self).next_identity() == old(self).next_identity()
            },
    {
        proof {
            use_type_invariant(&*self);
        }
        if self.next == usize::MAX {
            return None;
        }
        let identity = self.next;
        let (bridge, _) = CompletionBridge::new().issue();
        let mut bridges = self.take_bridges();
        bridges.insert(identity, bridge);
        self.next = identity + 1;
        self.bridges = bridges;
        Some(identity)
    }

    /// Whether `identity` names a live bridge. Zero never does.
    pub fn is_live(&self, identity: usize) -> (b: bool)
        ensures
            b == self@.contains_key(identity),
            identity == 0 ==> !b,
    {
        proof {
            use_type_invariant(self);
        }
        self.bridges.contains_key(&identity)
    }

    /// Whether the native subsystem still owes `identity` its callback: the
    /// bridge is live and the callback has not delivered to it.
    pub fn awaits_callback(&self, identity: usize) -> (b: bool)
        ensures
            b == callback_outstanding(self@, identity),
            identity == 0 ==> !b,
    {
        proof {
            use_type_invariant(self);
        }
        match self.bridges.get(&identity) {
            Some(bridge) => bridge.awaits_callback(),
            None => false,
        }
    }

    /// Whether no bridge is live.
    pub fn is_empty(&self) -> (b: bool)
        ensures
            b == self@.is_empty(),
    {
        self.bridges.is_empty()
    }

    /// Polls the evaluation `identity` on behalf of its waiting caller.
    ///
    /// Answers as [`CompletionBridge::poll`] does for the bridge under that
    /// identity, and `Gone` where there is none, as is always so for the
    /// identity zero. The bridge stays in the
    /// registry with the shares it had, also when its outcome is taken. The
    /// second component is the continuation that is not kept, for the caller
    /// to dispose of. No other bridge is touched.
    pub fn poll(&mut self, identity: usize, continuation: W) -> (r: (Polled, Option<W>))
        ensures
            r.0 == poll_answer(old(self)@, identity, continuation),
            r.1 == handed_back(old(self)@, identity, continuation),
            final(self)@ == bridges_after_poll(old(self)@, identity, continuation),
            final(self)@.dom() == old(self)@.dom(),
            final(self).next_identity() == old(self).next_identity(),
            r.0 matches Polled::Ready(outcome) ==> is_callback_outcome(outcome),
            !(r.0 is Pending) ==> r.1 == Some(continuation),
            identity == 0 ==> r.0 == Polled::Gone && final(self)@ == old(self)@,
    {
        proof {
            use_type_invariant(&*self);
        }
        let mut bridges = self.take_bridges();
        let r = match bridges.remove(&identity) {
            Some(bridge) => {
                let (successor, answer, unkept) = bridge.poll(continuation);
                bridges.insert(identity, successor);
                (answer, unkept)
            },
            None => (Polled::Gone, Some(continuation)),
        };
        assert(bridges@ == bridges_after_poll(old(self)@, identity, continuation));
        assert(bridges@.dom() == old(self)@.dom());
        self.bridges = bridges;
        r
    }

    /// Writes `outcome`, which the callback's arguments stand for, to the
    /// bridge under `identity`.
    fn deliver(&mut self, identity: usize, outcome: Result<(), LAError>) -> (report: Delivery<W>)
        requires
            is_callback_outcome(outcome),
        ensures
            report == delivery_report(old(self)@, identity, outcome),
            final(self)@ == bridges_after_deliver(old(self)@, identity, outcome),
            final(self).next_identity() == old(self).next_identity(),
            identity == 0 ==> report == Delivery::<W>::Discarded && final(self)@ == old(self)@,
    {
        proof {
            use_type_invariant(&*self);
        }
        let mut bridges = self.take_bridges();
        let report = match bridges.remove(&identity) {
            Some(bridge) => {
                let (successor, report) = bridge.deliver(outcome);
                match successor {
                    Some(next) => {
                        bridges.insert(identity, next);
                    },
                    None => {},
                }
                report
            },
            None => Delivery::Discarded,
        };
        assert(bridges@ == bridges_after_deliver(old(self)@, identity, outcome));
        self.bridges = bridges;
        report
    }

    /// The callback's work, on the arguments as the native subsystem passes
    /// them: the identity, the success flag as an integer, and the error
    /// integer.
    ///
    /// Resolves the evaluation `identity` to success where the flag is one,
    /// and otherwise to the failure reason bound to `code`, and reports as
    /// [`CompletionBridge::deliver`] does for the bridge under that identity.
    /// An identity that names no live bridge (never issued, or already
    /// released) has the invocation discarded; zero, which is what a null
    /// pointer reads as, is never an identity, so an invocation with it is
    /// discarded whatever the registry holds. No other bridge is touched.
    /// The continuation in the report is for the caller of this function to
    /// resume.
    pub fn evaluate_callback(&mut self, identity: usize, success: i32, code: i32) -> (report: Delivery<W>)
        ensures
            report == delivery_report(old(self)@, identity, outcome_of(native_truth(success), code)),
            final(self)@ == bridges_after_deliver(
                old(self)@,
                identity,
                outcome_of(native_truth(success), code),
            ),
            final(self).next_identity() == old(self).next_identity(),
            identity == 0 ==> report == Delivery::<W>::Discarded && final(self)@ == old(self)@,
    {
        let outcome = resolve_outcome(native_flag(success), code);
        self.deliver(identity, outcome)
    }

    /// Lets go of the evaluation `identity` on behalf of its caller, before
    /// or after the outcome was taken.
    ///
    /// Gives the caller's share back as [`CompletionBridge::abandon`] does,
    /// which releases the bridge unless the callback is still to come, and
    /// returns the continuation that was registered. An identity that names
    /// no live bridge, as zero never does, changes nothing and gives no
    /// continuation back. No other bridge is touched.
    pub fn abandon(&mut self, identity: usize) -> (continuation: Option<W>)
        ensures
            continuation == abandoned_continuation(old(self)@, identity),
            final(self)@ == bridges_after_abandon(old(self)@, identity),
            final(self).next_identity() == old(self).next_identity(),
            identity == 0 ==> continuation is None && final(self)@ == old(self)@,
    {
        proof {
            use_type_invariant(&*self);
        }
        let mut bridges = self.take_bridges();
        let continuation = match bridges.remove(&identity) {
            Some(bridge) => {
                let (successor, continuation) = bridge.abandon();
                match successor {
                    Some(next) => {
                        bridges.insert(identity, next);
                    },
                    None => {},
                }
                continuation
            },
            None => None,
        };
        assert(bridges@ == bridges_after_abandon(old(self)@, identity));
        self.bridges = bridges;
        continuation
    }

    /// Moves the table out, leaving an empty one, so that it can be changed
    /// while the registry itself stays valid at every step.
    fn take_bridges(&mut self) -> (bridges: HashMap<usize, CompletionBridge<W>>)
        ensures
            bridges@ == old(self)@,
            final(self)@ == Map::<usize, CompletionBridge<W>>::empty(),
            final(self).next_identity() == old(self).next_identity(),
    {
        proof {
            use_type_invariant(&*self);
        }
        let mut bridges = HashMap::new();
        std::mem::swap(&mut bridges, &mut self.bridges);
        bridges
    }
}

/// An operation on a registry: an event, addressed to an identity.
pub struct RegistryEvent<W> {
    /// The identity that the event is addressed to.
    pub identity: usize,
    /// What happens to the evaluation under that identity.
    pub event: BridgeEvent<W>,
}

/// The live bridges after `op` is applied to a registry with live bridges
/// `bridges`.
pub open spec fn bridges_after_event<W>(bridges: Bridges<W>, op: RegistryEvent<W>) -> Bridges<W> {
    match op.event {
        BridgeEvent::Poll(w) => bridges_after_poll(bridges, op.identity, w),
        BridgeEvent::Callback(success, code) => bridges_after_deliver(
            bridges,
            op.identity,
            outcome_of(success, code),
        ),
        BridgeEvent::Abandon => bridges_after_abandon(bridges, op.identity),
    }
}

/// What `op` brings about in a registry with live bridges `bridges`.
pub open spec fn reaction_to_event<W>(bridges: Bridges<W>, op: RegistryEvent<W>) -> Reaction<W> {
    match op.event {
        BridgeEvent::Poll(w) => Reaction::Polled(
            poll_answer(bridges, op.identity, w),
            handed_back(bridges, op.identity, w),
        ),
        BridgeEvent::Callback(success, code) => Reaction::Delivered(
            delivery_report(bridges, op.identity, outcome_of(success, code)),
        ),
        BridgeEvent::Abandon => Reaction::Abandoned(abandoned_continuation(bridges, op.identity)),
    }
}

/// The live bridges after `ops` are applied in order.
pub open spec fn bridges_after_events<W>(bridges: Bridges<W>, ops: Seq<RegistryEvent<W>>) -> Bridges<W>
    decreases ops.len(),
{
    if ops.len() == 0 {
        bridges
    } else {
        bridges_after_event(bridges_after_events(bridges, ops.drop_last()), ops.last())
    }
}

/// The events among `ops` that are addressed to `identity`, in their order.
pub open spec fn events_for<W>(ops: Seq<RegistryEvent<W>>, identity: usize) -> Seq<BridgeEvent<W>>
    decreases ops.len(),
{
    if ops.len() == 0 {
        Seq::empty()
    } else if ops.last().identity == identity {
        events_for(ops.drop_last(), identity).push(ops.last().event)
    } else {
        events_for(ops.drop_last(), identity)
    }
}

/// An operation on the registry is the event's step on the bridge it is
/// addressed to: that bridge gets the successor that the step gives, and the
/// reaction is the step's reaction. An identity without a live bridge counts
/// as a released bridge.
pub proof fn event_steps_its_bridge<W>(bridges: Bridges<W>, op: RegistryEvent<W>)
    ensures
        bridges_after_event(bridges, op).get(op.identity) == step(
            bridges.get(op.identity),
            op.event,
        ).0,
        reaction_to_event(bridges, op) == step(bridges.get(op.identity), op.event).1,
{
}

/// Bridge identities are isolated: an operation addressed to one identity
/// neither changes nor creates nor releases the bridge of any other.
pub proof fn event_leaves_other_bridges<W>(bridges: Bridges<W>, op: RegistryEvent<W>, other: usize)
    requires
        other != op.identity,
    ensures
        bridges_after_event(bridges, op).get(other) == bridges.get(other),
{
}

/// However the operations on different evaluations interleave, each
/// evaluation sees only its own: the bridge under an identity after a
/// sequence of operations is the one that results from applying, to the
/// bridge it had before, just the events addressed to that identity.
pub proof fn interleaving_is_invisible<W>(
    bridges: Bridges<W>,
    ops: Seq<RegistryEvent<W>>,
    identity: usize,
)
    ensures
        bridges_after_events(bridges, ops).get(identity) == run_from(
            bridges.get(identity),
            events_for(ops, identity),
        ),
    decreases ops.len(),
{
    if ops.len() > 0 {
        let front = ops.drop_last();
        interleaving_is_invisible(bridges, front, identity);
        let before = bridges_after_events(bridges, front);
        if ops.last().identity == identity {
            event_steps_its_bridge(before, ops.last());
            let mine = events_for(ops, identity);
            assert(mine.drop_last() == events_for(front, identity));
            assert(mine.last() == ops.last().event);
        } else {
            event_leaves_other_bridges(before, ops.last(), identity);
        }
    }
}

/// Outcomes are never cross-delivered. With two evaluations issued under
/// different identities and both callers attached, the callbacks may arrive
/// in either order: the registry ends up the same, and each caller's next
/// poll takes the outcome that was delivered under its own identity.
pub proof fn outcomes_reach_their_own_caller<W>(
    bridges: Bridges<W>,
    a: usize,
    b: usize,
    to_a: Result<(), LAError>,
    to_b: Result<(), LAError>,
    w: W,
)
    requires
        a != b,
        bridges.contains_key(a),
        bridges[a] is Issued,
        bridges.contains_key(b),
        bridges[b] is Issued,
    ensures
        bridges_after_deliver(bridges_after_deliver(bridges, a, to_a), b, to_b)
            == bridges_after_deliver(bridges_after_deliver(bridges, b, to_b), a, to_a),
        poll_answer(
            bridges_after_deliver(bridges_after_deliver(bridges, a, to_a), b, to_b),
            a,
            w,
        ) == Polled::Ready(to_a),
        poll_answer(
            bridges_after_deliver(bridges_after_deliver(bridges, a, to_a), b, to_b),
            b,
            w,
        ) == Polled::Ready(to_b),
{
    let first_a = bridges_after_deliver(bridges_after_deliver(bridges, a, to_a), b, to_b);
    let first_b = bridges_after_deliver(bridges_after_deliver(bridges, b, to_b), a, to_a);
    assert(first_a =~= first_b);
}

/// A second invocation of the callback for one evaluation is detected and
/// discarded: it reports `Discarded` and leaves the registry, and with it
/// the outcome of the first invocation, as it was. The same holds of an
/// invocation with an identity that names no live bridge.
pub proof fn repeated_delivery_is_discarded<W>(
    bridges: Bridges<W>,
    identity: usize,
    first: Result<(), LAError>,
    second: Result<(), LAError>,
)
    ensures
        delivery_report(bridges_after_deliver(bridges, identity, first), identity, second)
            == Delivery::<W>::Discarded,
        bridges_after_deliver(bridges_after_deliver(bridges, identity, first), identity, second)
            == bridges_after_deliver(bridges, identity, first),
        !bridges.contains_key(identity) ==> delivery_report(bridges, identity, first)
            == Delivery::<W>::Discarded && bridges_after_deliver(bridges, identity, first)
            == bridges,
{
    let once = bridges_after_deliver(bridges, identity, first);
    assert(bridges_after_deliver(once, identity, second) =~= once);
}

/// An operation on a registry, registrations included.
pub enum RegistryOp<W> {
    /// A new evaluation is registered.
    Register,
    /// An event reaches the evaluation under some identity.
    Event(RegistryEvent<W>),
}

/// The live bridges and the next identity after `op` is applied to a
/// registry with live bridges `bridges` and next identity `next`.
pub open spec fn registry_after_op<W>(bridges: Bridges<W>, next: usize, op: RegistryOp<W>) -> (
    Bridges<W>,
    usize,
) {
    match op {
        RegistryOp::Register => if next < usize::MAX {
            (bridges.insert(next, CompletionBridge::Issued(None)), (next + 1) as usize)
        } else {
            (bridges, next)
        },
        RegistryOp::Event(event) => (bridges_after_event(bridges, event), next),
    }
}

/// The live bridges and the next identity after `ops` are applied in order.
pub open spec fn registry_after_ops<W>(bridges: Bridges<W>, next: usize, ops: Seq<RegistryOp<W>>) -> (
    Bridges<W>,
    usize,
)
    decreases ops.len(),
{
    if ops.len() == 0 {
        (bridges, next)
    } else {
        let before = registry_after_ops(bridges, next, ops.drop_last());
        registry_after_op(before.0, before.1, ops.last())
    }
}

/// One bridge serves one evaluation: an identity that was issued and whose
/// bridge has been released names no bridge ever again, whatever is
/// registered or delivered afterwards, so a callback that arrives late for
/// it is discarded instead of reaching a later evaluation. Identities are
/// issued in increasing order.
pub proof fn released_identity_is_never_reused<W>(
    bridges: Bridges<W>,
    next: usize,
    ops: Seq<RegistryOp<W>>,
    identity: usize,
    outcome: Result<(), LAError>,
)
    requires
        identity < next,
        !bridges.contains_key(identity),
    ensures
        next <= registry_after_ops(bridges, next, ops).1,
        !registry_after_ops(bridges, next, ops).0.contains_key(identity),
        delivery_report(registry_after_ops(bridges, next, ops).0, identity, outcome)
            == Delivery::<W>::Discarded,
    decreases ops.len(),
{
    if ops.len() > 0 {
        released_identity_is_never_reused(bridges, next, ops.drop_last(), identity, outcome);
    }
}

} // verus!
