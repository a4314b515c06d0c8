//! What holds of one evaluation over its whole life, whatever the order in
//! which polls, callback invocations and the caller's letting go arrive.
//!
//! The life of an evaluation is taken as a sequence of events applied, one
//! after the other, to the bridge that was created when the evaluation was
//! issued. The proofs here are about every such sequence, including those
//! that a well-behaved native subsystem never produces, such as a callback
//! that is invoked twice.

use vstd::prelude::*;
use crate::bridge::{CompletionBridge, Delivery, Polled, outcome_of};
use crate::error::LAError;

verus! {

/// Something that happens to an evaluation after it was issued.
pub enum BridgeEvent<W> {
    /// The waiting caller is polled and offers this continuation.
    Poll(W),
    /// The native subsystem invokes the callback with this success flag and
    /// this error integer.
    Callback(bool, i32),
    /// The caller lets go of the evaluation and gives its share back,
    /// whether or not it has taken the outcome.
    Abandon,
}

/// What an event brought about.
pub enum Reaction<W> {
    /// The answer to a poll, and the continuation that the poll handed back.
    Polled(Polled, Option<W>),
    /// The report of a callback invocation.
    Delivered(Delivery<W>),
    /// The continuation handed back to a caller who gave up.
    Abandoned(Option<W>),
}

/// The outcome that `event` delivers, if it is a callback invocation.
pub open spec fn delivered_by<W>(event: BridgeEvent<W>) -> Option<Result<(), LAError>> {
    match event {
        BridgeEvent::Callback(success, code) => Some(outcome_of(success, code)),
        _ => None,
    }
}

/// The bridge and the reaction after `event` reaches an evaluation whose
/// bridge is `state`, where no bridge means that it has been released.
pub open spec fn step<W>(state: Option<CompletionBridge<W>>, event: BridgeEvent<W>) -> (
    Option<CompletionBridge<W>>,
    Reaction<W>,
) {
    match state {
        Some(bridge) => match event {
            BridgeEvent::Poll(w) => (
                Some(bridge.after_poll(w).0),
                Reaction::Polled(bridge.after_poll(w).1, bridge.after_poll(w).2),
            ),
            BridgeEvent::Callback(success, code) => (
                bridge.after_deliver(outcome_of(success, code)).0,
                Reaction::Delivered(bridge.after_deliver(outcome_of(success, code)).1),
            ),
            BridgeEvent::Abandon => (
                bridge.after_abandon().0,
                Reaction::Abandoned(bridge.after_abandon().1),
            ),
        },
        None => match event {
            BridgeEvent::Poll(w) => (None, Reaction::Polled(Polled::Gone, Some(w))),
            BridgeEvent::Callback(_, _) => (None, Reaction::Delivered(Delivery::Discarded)),
            BridgeEvent::Abandon => (None, Reaction::Abandoned(None)),
        },
    }
}

/// The bridge of an evaluation after `events` have reached it in order,
/// starting from `start`.
pub open spec fn run_from<W>(
    start: Option<CompletionBridge<W>>,
    events: Seq<BridgeEvent<W>>,
) -> Option<CompletionBridge<W>>
    decreases events.len(),
{
    if events.len() == 0 {
        start
    } else {
        step(run_from(start, events.drop_last()), events.last()).0
    }
}

/// The bridge of an evaluation after `events` have reached it in order,
/// starting from the bridge of a newly issued evaluation: created, and its
/// identity handed to the native subsystem.
pub open spec fn state_after<W>(events: Seq<BridgeEvent<W>>) -> Option<CompletionBridge<W>> {
    run_from(Some(CompletionBridge::Issued(None)), events)
}

/// What the event at index `i` of `events` brought about.
pub open spec fn reaction_at<W>(events: Seq<BridgeEvent<W>>, i: int) -> Reaction<W> {
    step(state_after(events.take(i)), events[i]).1
}

/// The outcome that the event at index `i` of `events` hands to the caller:
/// the one that a poll answers `Ready` with.
pub open spec fn taken_at<W>(events: Seq<BridgeEvent<W>>, i: int) -> Option<Result<(), LAError>> {
    match reaction_at(events, i) {
        Reaction::Polled(Polled::Ready(outcome), _) => Some(outcome),
        _ => None,
    }
}

/// Whether the event at index `i` of `events` is the first invocation of the
/// callback.
pub open spec fn is_first_callback<W>(events: Seq<BridgeEvent<W>>, i: int) -> bool {
    &&& 0 <= i < events.len()
    &&& events[i] is Callback
    &&& forall|j: int| 0 <= j < i ==> !(#[trigger] events[j] is Callback)
}

/// The outcome that the first callback invocation among `events` carries,
/// if the callback is invoked at all.
pub open spec fn first_delivery<W>(events: Seq<BridgeEvent<W>>) -> Option<Result<(), LAError>>
    decreases events.len(),
{
    if events.len() == 0 {
        None
    } else {
        match first_delivery(events.drop_last()) {
            Some(outcome) => Some(outcome),
            None => delivered_by(events.last()),
        }
    }
}

/// The continuation that the latest poll among `events` offered, if any
/// poll was made.
pub open spec fn latest_continuation<W>(events: Seq<BridgeEvent<W>>) -> Option<W>
    decreases events.len(),
{
    if events.len() == 0 {
        None
    } else {
        match events.last() {
            BridgeEvent::Poll(w) => Some(w),
            _ => latest_continuation(events.drop_last()),
        }
    }
}

/// `first_delivery` is the outcome of the callback invocation that comes
/// first, and is absent exactly when the callback is never invoked.
pub proof fn first_delivery_is_of_first_callback<W>(events: Seq<BridgeEvent<W>>)
    ensures
        first_delivery(events) is None <==> forall|j: int|
            0 <= j < events.len() ==> !(#[trigger] events[j] is Callback),
        first_delivery(events) matches Some(outcome) ==> exists|j: int|
            #![trigger events[j]]
            is_first_callback(events, j) && delivered_by(events[j]) == Some(outcome),
    decreases events.len(),
{
    if events.len() > 0 {
        let front = events.drop_last();
        first_delivery_is_of_first_callback(front);
        assert forall|j: int| 0 <= j < front.len() implies front[j] == events[j] by {}
        match first_delivery(front) {
            Some(outcome) => {
                let j = choose|j: int|
                    #![trigger front[j]]
                    is_first_callback(front, j) && delivered_by(front[j]) == Some(outcome);
                assert(front[j] == events[j]);
                assert(is_first_callback(events, j)) by {
                    assert forall|k: int| 0 <= k < j implies !(#[trigger] events[k] is Callback) by {
                        assert(front[k] == events[k]);
                    }
                }
            },
            None => {
                assert forall|j: int| 0 <= j < front.len() implies !(#[trigger] events[j]
                    is Callback) by {
                    assert(front[j] == events[j]);
                }
                let last = events.len() - 1;
                if events.last() is Callback {
                    assert(is_first_callback(events, last));
                    assert(events[last] is Callback);
                } else {
                    assert forall|j: int| 0 <= j < events.len() implies !(#[trigger] events[j]
                        is Callback) by {
                        if j < front.len() {
                            assert(front[j] == events[j]);
                        }
                    }
                }
            },
        }
    }
}

/// The bridge after any sequence of events follows the first callback
/// invocation and nothing else the native side does.
///
/// While the callback has not been invoked the bridge is live, pending, and
/// holds the native share. Once it has, the bridge is resolved for good: the
/// result slot holds the outcome of the first invocation until the caller
/// takes it, and is empty from then on, or the bridge is released.
pub proof fn bridge_tracks_first_delivery<W>(events: Seq<BridgeEvent<W>>)
    ensures
        first_delivery(events) is None ==> state_after(events) is Some,
        first_delivery(events) is None ==> state_after(events)->0.native_share()
            && state_after(events)->0.is_pending(),
        first_delivery(events) is Some ==> state_after(events) is None || state_after(events)
            == Some(CompletionBridge::<W>::Resolved(first_delivery(events)->0))
            || state_after(events) == Some(CompletionBridge::<W>::Taken),
        state_after(events) matches Some(CompletionBridge::Issued(w)) ==> w
            == latest_continuation(events),
        !(state_after(events) matches Some(CompletionBridge::Created(_))),
    decreases events.len(),
{
    if events.len() > 0 {
        bridge_tracks_first_delivery(events.drop_last());
    }
}

/// An evaluation never resolves before the callback fires, and it resolves
/// to exactly what the callback was invoked with: when a poll answers
/// `Ready`, the callback was invoked earlier, and the outcome handed to the
/// caller is the one that the success flag and error integer of the first
/// invocation stand for.
pub proof fn ready_outcome_is_first_delivery<W>(
    events: Seq<BridgeEvent<W>>,
    i: int,
    outcome: Result<(), LAError>,
)
    requires
        0 <= i < events.len(),
        taken_at(events, i) == Some(outcome),
    ensures
        exists|j: int|
            #![trigger events[j]]
            j < i && is_first_callback(events, j) && delivered_by(events[j]) == Some(outcome),
{
    let before = events.take(i);
    bridge_tracks_first_delivery(before);
    first_delivery_is_of_first_callback(before);
    assert(state_after(before) == Some(CompletionBridge::<W>::Resolved(outcome)));
    let j = choose|j: int|
        #![trigger before[j]]
        is_first_callback(before, j) && delivered_by(before[j]) == Some(outcome);
    assert(before[j] == events[j]);
    assert(is_first_callback(events, j)) by {
        assert forall|k: int| 0 <= k < j implies !(#[trigger] events[k] is Callback) by {
            assert(before[k] == events[k]);
        }
    }
}

/// A released bridge stays released: once both shares are gone, no event
/// brings the evaluation back.
pub proof fn release_is_final<W>(events: Seq<BridgeEvent<W>>, n: int)
    requires
        0 <= n <= events.len(),
        state_after(events.take(n)) is None,
    ensures
        state_after(events) is None,
    decreases events.len() - n,
{
    if n < events.len() {
        let longer = events.take(n + 1);
        assert(longer.drop_last() == events.take(n));
        release_is_final(events, n + 1);
    } else {
        assert(events.take(n) == events);
    }
}

/// The callback's work is done once: the first invocation is the only one
/// that is accepted, and every later invocation for the same evaluation is
/// discarded.
pub proof fn only_first_callback_is_accepted<W>(events: Seq<BridgeEvent<W>>, i: int)
    requires
        0 <= i < events.len(),
        events[i] is Callback,
    ensures
        is_first_callback(events, i) ==> !(reaction_at(events, i) == Reaction::<W>::Delivered(
            Delivery::Discarded,
        )),
        !is_first_callback(events, i) ==> reaction_at(events, i) == Reaction::<W>::Delivered(
            Delivery::Discarded,
        ),
{
    let before = events.take(i);
    bridge_tracks_first_delivery(before);
    first_delivery_is_of_first_callback(before);
    if is_first_callback(events, i) {
        assert forall|j: int| 0 <= j < before.len() implies !(#[trigger] before[j]
            is Callback) by {
            assert(before[j] == events[j]);
        }
    } else {
        let j = choose|j: int| 0 <= j < i && #[trigger] events[j] is Callback;
        assert(before[j] == events[j]);
    }
}

/// Once the caller has taken the outcome, the slot stays empty: whatever
/// comes afterwards, the bridge is in its last state or released.
pub proof fn taken_is_final<W>(events: Seq<BridgeEvent<W>>, n: int)
    requires
        0 <= n <= events.len(),
        state_after(events.take(n)) is None || state_after(events.take(n)) == Some(
            CompletionBridge::<W>::Taken,
        ),
    ensures
        state_after(events) is None || state_after(events) == Some(CompletionBridge::<W>::Taken),
    decreases events.len() - n,
{
    if n < events.len() {
        let longer = events.take(n + 1);
        assert(longer.drop_last() == events.take(n));
        taken_is_final(events, n + 1);
    } else {
        assert(events.take(n) == events);
    }
}

/// The outcome is handed to the caller at most once: two polls of one
/// evaluation that both answer `Ready` are the same poll.
pub proof fn outcome_is_taken_once<W>(events: Seq<BridgeEvent<W>>, i: int, k: int)
    requires
        0 <= i < events.len(),
        0 <= k < events.len(),
        taken_at(events, i) is Some,
        taken_at(events, k) is Some,
    ensures
        i == k,
{
    if i < k {
        slot_is_empty_after_taking(events, i, k);
    } else if k < i {
        slot_is_empty_after_taking(events, k, i);
    }
}

proof fn slot_is_empty_after_taking<W>(events: Seq<BridgeEvent<W>>, i: int, k: int)
    requires
        0 <= i < k < events.len(),
        taken_at(events, i) is Some,
    ensures
        taken_at(events, k) is None,
{
    let upto = events.take(k);
    assert(upto.take(i + 1).drop_last() == events.take(i));
    assert(upto.take(i + 1).last() == events[i]);
    taken_is_final(upto, i + 1);
}

/// The caller's share lasts until the caller lets go: as long as no event
/// is the caller's letting go, the bridge is live and the caller's share is
/// held, whether or not the callback has fired and whether or not the
/// outcome has been taken.
pub proof fn caller_share_lasts_until_abandon<W>(events: Seq<BridgeEvent<W>>)
    requires
        forall|j: int| 0 <= j < events.len() ==> !(#[trigger] events[j] is Abandon),
    ensures
        state_after(events) is Some,
        state_after(events)->0.caller_share(),
    decreases events.len(),
{
    if events.len() > 0 {
        let front = events.drop_last();
        assert forall|j: int| 0 <= j < front.len() implies !(#[trigger] front[j] is Abandon) by {
            assert(front[j] == events[j]);
        }
        caller_share_lasts_until_abandon(front);
        assert(events.last() == events[events.len() - 1]);
    }
}

/// The continuation is resumed at most once, and it is the right one: the
/// only callback invocation that hands out a continuation is the first, and
/// what it hands out is the continuation that the latest poll before it
/// offered.
pub proof fn continuation_is_resumed_once<W>(events: Seq<BridgeEvent<W>>, i: int, w: W)
    requires
        0 <= i < events.len(),
        reaction_at(events, i) == Reaction::Delivered(Delivery::Resolved(Some(w))),
    ensures
        is_first_callback(events, i),
        latest_continuation(events.take(i)) == Some(w),
{
    let before = events.take(i);
    bridge_tracks_first_delivery(before);
    first_delivery_is_of_first_callback(before);
    assert(events[i] is Callback);
    assert forall|j: int| 0 <= j < i implies !(#[trigger] events[j] is Callback) by {
        assert(before[j] == events[j]);
    }
}

/// While the callback has not fired and the caller has not let go, the
/// bridge holds both shares and the continuation of the latest poll.
pub proof fn waiting_caller_keeps_bridge_pending<W>(events: Seq<BridgeEvent<W>>)
    requires
        forall|j: int| 0 <= j < events.len() ==> #[trigger] events[j] is Poll,
    ensures
        state_after(events) == Some(CompletionBridge::Issued(latest_continuation(events))),
    decreases events.len(),
{
    if events.len() > 0 {
        let front = events.drop_last();
        assert forall|j: int| 0 <= j < front.len() implies #[trigger] front[j] is Poll by {
            assert(front[j] == events[j]);
        }
        waiting_caller_keeps_bridge_pending(front);
        assert(events.last() == events[events.len() - 1]);
    }
}

/// A caller that is waiting when the callback first fires is resumed by it:
/// where only polls came before, the first callback invocation writes the
/// outcome and hands out the continuation of the latest poll, or none if the
/// caller was not polled yet, in which case its first poll finds the outcome.
pub proof fn first_callback_resumes_waiting_caller<W>(events: Seq<BridgeEvent<W>>, i: int)
    requires
        0 <= i < events.len(),
        events[i] is Callback,
        forall|j: int| 0 <= j < i ==> #[trigger] events[j] is Poll,
    ensures
        reaction_at(events, i) == Reaction::Delivered(
            Delivery::Resolved(latest_continuation(events.take(i))),
        ),
        state_after(events.take(i + 1)) == Some(
            CompletionBridge::<W>::Resolved(delivered_by(events[i])->0),
        ),
{
    let before = events.take(i);
    assert forall|j: int| 0 <= j < before.len() implies #[trigger] before[j] is Poll by {
        assert(before[j] == events[j]);
    }
    waiting_caller_keeps_bridge_pending(before);
    let upto = events.take(i + 1);
    assert(upto.drop_last() == before);
    assert(upto.last() == events[i]);
}

} // verus!
