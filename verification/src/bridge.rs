//! The completion bridge: the state shared between one evaluation's waiting
//! caller and the callback by which the native subsystem ends it.
//!
//! A bridge serves one evaluation. It is created with one share, the waiting
//! caller's. A second share is added when the bridge's identity is issued
//! for the native subsystem, and is given back by the callback. The caller's
//! share is given back when the caller lets go of the evaluation, whether or
//! not it has taken the outcome. The bridge is released when the last share
//! is given back, which [`CompletionBridge::deliver`] and
//! [`CompletionBridge::abandon`] report by returning no successor state. A
//! poll gives no share back and writes no outcome.
//!
//! The type parameter `W` is the continuation: whatever the embedding program
//! uses to resume a suspended caller. The bridge only stores it and hands it
//! back; it never drops one.

use vstd::prelude::*;
use crate::error::{LAError, error_for_code};

verus! {

/// What the callback's arguments say about how the evaluation ended: success
/// carries nothing, failure carries the reason that the error integer is bound
/// to. The error integer of a successful evaluation is ignored.
pub open spec fn outcome_of(success: bool, code: i32) -> Result<(), LAError> {
    if success {
        Ok(())
    } else {
        Err(error_for_code(code))
    }
}

/// Whether `outcome` is one that a callback invocation can stand for:
/// success, or a failure whose reason is one that the error table produces.
pub open spec fn is_callback_outcome(outcome: Result<(), LAError>) -> bool {
    outcome matches Err(reason) ==> reason.is_canonical()
}

/// Whether an integer that the native subsystem returns where it means a
/// boolean stands for "yes". Only the integer one does.
pub open spec fn native_truth(raw: i32) -> bool {
    raw == 1
}

/// Reads an integer that the native subsystem returns as a boolean.
pub fn native_flag(raw: i32) -> (b: bool)
    ensures
        b == native_truth(raw),
{
    raw == 1
}

/// Computes the outcome that a callback invocation with these arguments
/// delivers. Never fails: an error integer that the table does not know gives
/// the reserved unknown reason.
pub fn resolve_outcome(success: bool, code: i32) -> (outcome: Result<(), LAError>)
    ensures
        outcome == outcome_of(success, code),
        is_callback_outcome(outcome),
{
    if success {
        Ok(())
    } else {
        Err(LAError::from_code(code))
    }
}

/// The state of one evaluation's bridge while at least one share is held.
///
/// The first three states are pending: the callback has not written an
/// outcome. The last two are resolved.
#[derive(Debug, PartialEq, Eq)]
pub enum CompletionBridge<W> {
    /// Pending, with the caller's share alone: the identity for the native
    /// subsystem has not been issued yet. The field is the continuation that
    /// the caller registered when it was last polled, if it has been polled.
    Created(Option<W>),
    /// Pending, with both shares: the native subsystem has the identity and
    /// has not called back yet, and the caller is attached. The field is the
    /// continuation that the caller registered when it was last polled, if
    /// it has been polled.
    Issued(Option<W>),
    /// Pending, with the native share alone: the native subsystem has not
    /// called back yet and the caller has let go.
    Abandoned,
    /// Resolved, with the caller's share alone: the callback has written the
    /// outcome into the result slot, and the caller has not taken it yet.
    Resolved(Result<(), LAError>),
    /// Resolved, with the caller's share alone: the caller has taken the
    /// outcome and the result slot is empty again.
    Taken,
}

/// What a poll of the waiting side finds.
#[derive(Debug, PartialEq, Eq)]
pub enum Polled {
    /// The evaluation has ended with this outcome, which the caller now owns.
    Ready(Result<(), LAError>),
    /// The callback has not fired yet; the continuation was stored.
    Pending,
    /// There is nothing to wait for: the caller had let go of this
    /// evaluation, or had already taken its outcome.
    Gone,
}

/// What a callback invocation did to the bridge.
#[derive(Debug, PartialEq, Eq)]
pub enum Delivery<W> {
    /// The outcome was written to the result slot. The field is the
    /// continuation to resume, if the caller had registered one.
    Resolved(Option<W>),
    /// The caller had let go of the evaluation: the outcome was dropped and
    /// the bridge released.
    Orphaned,
    /// The invocation was ignored: the bridge holds no native share, because
    /// the callback delivered before or no identity was ever issued, or the
    /// identity names no live bridge.
    Discarded,
}

impl<W> CompletionBridge<W> {
    /// Whether the callback has not written an outcome yet.
    pub open spec fn is_pending(self) -> bool {
        self is Created || self is Issued || self is Abandoned
    }

    /// The content of the result slot.
    pub open spec fn result_slot(self) -> Option<Result<(), LAError>> {
        match self {
            CompletionBridge::Resolved(outcome) => Some(outcome),
            _ => None,
        }
    }

    /// The continuation that is registered for resumption.
    pub open spec fn continuation(self) -> Option<W> {
        match self {
            CompletionBridge::Created(w) => w,
            CompletionBridge::Issued(w) => w,
            _ => None,
        }
    }

    /// Whether the share handed to the native subsystem is out, that is,
    /// whether an identity has been issued and the callback is still to come.
    pub open spec fn native_share(self) -> bool {
        self is Issued || self is Abandoned
    }

    /// Whether the waiting caller holds its share.
    pub open spec fn caller_share(self) -> bool {
        !(self is Abandoned)
    }

    /// The number of shares that keep this bridge alive.
    pub open spec fn shares(self) -> nat {
        (if self.native_share() {
            1nat
        } else {
            0nat
        }) + (if self.caller_share() {
            1nat
        } else {
            0nat
        })
    }

    /// The bridge after its identity is issued for the native subsystem, and
    /// whether the native share was added. It is added once, to a bridge
    /// that was just created; any other bridge stays as it is.
    pub open spec fn after_issue(self) -> (Self, bool) {
        match self {
            CompletionBridge::Created(w) => (CompletionBridge::Issued(w), true),
            _ => (self, false),
        }
    }

    /// The bridge, the answer, and the continuation that is handed back
    /// after the waiting side is polled with continuation `w`.
    ///
    /// A pending bridge with the caller attached keeps `w` and hands back the
    /// continuation that `w` displaces. Any other bridge hands `w` itself
    /// back. A bridge whose slot holds an outcome has it taken.
    pub open spec fn after_poll(self, w: W) -> (Self, Polled, Option<W>) {
        match self {
            CompletionBridge::Created(displaced) => (
                CompletionBridge::Created(Some(w)),
                Polled::Pending,
                displaced,
            ),
            CompletionBridge::Issued(displaced) => (
                CompletionBridge::Issued(Some(w)),
                Polled::Pending,
                displaced,
            ),
            CompletionBridge::Abandoned => (CompletionBridge::Abandoned, Polled::Gone, Some(w)),
            CompletionBridge::Resolved(outcome) => (
                CompletionBridge::Taken,
                Polled::Ready(outcome),
                Some(w),
            ),
            CompletionBridge::Taken => (CompletionBridge::Taken, Polled::Gone, Some(w)),
        }
    }

    /// The bridge and the report after the callback delivers `outcome`. No
    /// successor means that the bridge is released.
    pub open spec fn after_deliver(self, outcome: Result<(), LAError>) -> (
        Option<Self>,
        Delivery<W>,
    ) {
        match self {
            CompletionBridge::Issued(w) => (
                Some(CompletionBridge::Resolved(outcome)),
                Delivery::Resolved(w),
            ),
            CompletionBridge::Abandoned => (None, Delivery::Orphaned),
            _ => (Some(self), Delivery::Discarded),
        }
    }

    /// The bridge after the caller lets go, and the continuation that was
    /// registered until then. No successor means that the bridge is
    /// released.
    pub open spec fn after_abandon(self) -> (Option<Self>, Option<W>) {
        match self {
            CompletionBridge::Created(w) => (None, w),
            CompletionBridge::Issued(w) => (Some(CompletionBridge::Abandoned), w),
            CompletionBridge::Abandoned => (Some(CompletionBridge::Abandoned), None),
            CompletionBridge::Resolved(_) => (None, None),
            CompletionBridge::Taken => (None, None),
        }
    }

    /// Creates the bridge of a new evaluation: pending, the result slot
    /// empty, no continuation registered, and one share, the caller's.
    pub fn new() -> (bridge: Self)
        ensures
            bridge == CompletionBridge::<W>::Created(None),
            bridge.is_pending(),
            bridge.result_slot() is None,
            bridge.continuation() is None,
            bridge.caller_share(),
            !bridge.native_share(),
            bridge.shares() == 1,
    {
        CompletionBridge::Created(None)
    }

    /// Adds the native share, for the identity that is about to travel to
    /// the native subsystem.
    ///
    /// A bridge that was just created gets its second share and keeps what
    /// it holds; the flag is then `true`. A bridge whose identity has been
    /// issued before is returned as it is, with `false`: one bridge serves
    /// one evaluation.
    pub fn issue(self) -> (r: (Self, bool))
        ensures
            r == self.after_issue(),
            r.1 <==> self is Created,
            r.1 ==> r.0.shares() == 2 && r.0.native_share() && r.0.caller_share()
                && r.0.continuation() == self.continuation() && r.0.is_pending(),
    {
        match self {
            CompletionBridge::Created(w) => (CompletionBridge::Issued(w), true),
            other => (other, false),
        }
    }

    /// Whether the callback is still to come: an identity has been issued
    /// and the native subsystem has not called back.
    pub fn awaits_callback(&self) -> (b: bool)
        ensures
            b == self.native_share(),
    {
        match self {
            CompletionBridge::Issued(_) => true,
            CompletionBridge::Abandoned => true,
            _ => false,
        }
    }

    /// Polls on behalf of the waiting caller.
    ///
    /// While the bridge is pending and the caller attached, `continuation`
    /// replaces whatever was registered and the answer is `Pending`. Once
    /// the outcome is in the slot, the poll takes it and leaves the slot
    /// empty. A caller that had let go, or had taken the outcome before,
    /// gets `Gone`.
    ///
    /// A poll writes no outcome and gives no share back: the bridge lives on
    /// with the shares it had. The third component is the continuation that
    /// the bridge does not keep, for the caller to dispose of: the one that
    /// `continuation` displaced, or `continuation` itself where the answer
    /// is not `Pending`.
    pub fn poll(self, continuation: W) -> (r: (Self, Polled, Option<W>))
        ensures
            r == self.after_poll(continuation),
            r.0.shares() == self.shares(),
            r.0.native_share() == self.native_share(),
            r.0.caller_share() == self.caller_share(),
            r.0.is_pending() == self.is_pending(),
            r.0.result_slot() is None,
            r.1 matches Polled::Ready(outcome) ==> self.result_slot() == Some(outcome),
            r.1 is Ready <==> self.result_slot() is Some,
            r.1 is Pending ==> r.0.continuation() == Some(continuation) && r.2
                == self.continuation(),
            !(r.1 is Pending) ==> r.2 == Some(continuation),
    {
        match self {
            CompletionBridge::Created(displaced) => (
                CompletionBridge::Created(Some(continuation)),
                Polled::Pending,
                displaced,
            ),
            CompletionBridge::Issued(displaced) => (
                CompletionBridge::Issued(Some(continuation)),
                Polled::Pending,
                displaced,
            ),
            CompletionBridge::Abandoned => (
                CompletionBridge::Abandoned,
                Polled::Gone,
                Some(continuation),
            ),
            CompletionBridge::Resolved(outcome) => (
                CompletionBridge::Taken,
                Polled::Ready(outcome),
                Some(continuation),
            ),
            CompletionBridge::Taken => (CompletionBridge::Taken, Polled::Gone, Some(continuation)),
        }
    }

    /// Delivers `outcome` on behalf of the callback.
    ///
    /// A bridge that holds the native share gives it back: with the caller
    /// attached the outcome is written to the slot and the registered
    /// continuation handed out for resumption, with the caller gone the
    /// outcome is dropped and the bridge released. A bridge without the
    /// native share has the delivery discarded and stays as it is, so the
    /// outcome of the first delivery is never overwritten.
    pub fn deliver(self, outcome: Result<(), LAError>) -> (r: (Option<Self>, Delivery<W>))
        ensures
            r == self.after_deliver(outcome),
            r.1 is Discarded <==> !self.native_share(),
            r.0 is None <==> self is Abandoned,
            r.0 matches Some(next) ==> !next.native_share() && next.caller_share()
                && next.shares() == 1,
    {
        match self {
            CompletionBridge::Issued(w) => (
                Some(CompletionBridge::Resolved(outcome)),
                Delivery::Resolved(w),
            ),
            CompletionBridge::Abandoned => (None, Delivery::Orphaned),
            other => (Some(other), Delivery::Discarded),
        }
    }

    /// Gives the caller's share back.
    ///
    /// A bridge that still holds the native share stays alive for the
    /// callback that is to come. Any other bridge is released, and an
    /// outcome that was not taken is dropped with it. The continuation that
    /// was registered is returned, for the caller to dispose of.
    pub fn abandon(self) -> (r: (Option<Self>, Option<W>))
        ensures
            r == self.after_abandon(),
            r.0 is None <==> !self.native_share(),
            r.0 matches Some(next) ==> next == CompletionBridge::<W>::Abandoned,
            r.1 == self.continuation(),
    {
        match self {
            CompletionBridge::Created(w) => (None, w),
            CompletionBridge::Issued(w) => (Some(CompletionBridge::Abandoned), w),
            CompletionBridge::Abandoned => (Some(CompletionBridge::Abandoned), None),
            CompletionBridge::Resolved(_) => (None, None),
            CompletionBridge::Taken => (None, None),
        }
    }
}

/// The outcomes that callback invocations stand for are success and the
/// failures with a reason of the error table, and no others.
pub proof fn callback_outcomes_are_those_of_the_table(outcome: Result<(), LAError>)
    ensures
        is_callback_outcome(outcome) <==> exists|success: bool, code: i32|
            outcome == #[trigger] outcome_of(success, code),
{
    if is_callback_outcome(outcome) {
        match outcome {
            Ok(unit) => {
                assert(unit == ());
                assert(outcome == outcome_of(true, 0));
            },
            Err(reason) => {
                crate::error::error_lookup_inverts_code(reason, reason);
                assert(outcome == outcome_of(false, reason.abi_code() as i32));
            },
        }
    }
    if exists|success: bool, code: i32| outcome == #[trigger] outcome_of(success, code) {
        let (success, code) = choose|success: bool, code: i32|
            outcome == #[trigger] outcome_of(success, code);
        crate::error::error_code_round_trips(code);
    }
}

/// The shares account for the bridge's life. A live bridge holds one or two
/// shares. Issuing the identity adds the native share to a new bridge, and
/// only to a new one. The callback gives the native share back, the caller's
/// letting go gives the caller's share back, and each does so only if the
/// share is held. The bridge is released exactly when the share given back
/// was the last one.
pub proof fn bridge_lives_while_shared<W>(bridge: CompletionBridge<W>, outcome: Result<(), LAError>)
    ensures
        1 <= bridge.shares() <= 2,
        CompletionBridge::<W>::Created(None).shares() == 1,
        bridge.after_issue().0.shares() == bridge.shares() + (if bridge is Created {
            1nat
        } else {
            0nat
        }),
        bridge.after_issue().0.caller_share() == bridge.caller_share(),
        bridge.after_deliver(outcome).0 matches Some(next) ==> next.shares() == bridge.shares() - (
        if bridge.native_share() {
            1nat
        } else {
            0nat
        }) && next.caller_share() && !next.native_share(),
        bridge.after_deliver(outcome).0 is None <==> bridge.shares() == 1 && bridge.native_share(),
        bridge.after_abandon().0 matches Some(next) ==> next.shares() == 1 && next.native_share()
            && !next.caller_share() && bridge.native_share(),
        bridge.after_abandon().0 is None <==> bridge.shares() == 1 && bridge.caller_share(),
{
}

/// A poll, in any state, writes no outcome and leaves the shares as they
/// were: the bridge stays pending if it was pending and resolved if it was
/// resolved, each share is held after the poll exactly if it was held
/// before, and the slot is empty afterwards, having held the outcome that
/// the poll answers with, if it answers with one.
pub proof fn poll_keeps_shares_and_writes_nothing<W>(bridge: CompletionBridge<W>, w: W)
    ensures
        bridge.after_poll(w).0.shares() == bridge.shares(),
        bridge.after_poll(w).0.caller_share() == bridge.caller_share(),
        bridge.after_poll(w).0.native_share() == bridge.native_share(),
        bridge.after_poll(w).0.is_pending() == bridge.is_pending(),
        bridge.after_poll(w).0.result_slot() is None,
        bridge.result_slot() matches Some(outcome) ==> bridge.after_poll(w).1 == Polled::Ready(
            outcome,
        ),
        bridge.result_slot() is None ==> !(bridge.after_poll(w).1 is Ready),
{
}

/// The result slot is written at most once, and by the callback alone: it
/// is empty on a new bridge, a delivery fills it only on a bridge that holds
/// both shares, and once a delivery has been accepted every further one is
/// discarded and leaves the bridge as it is.
pub proof fn result_slot_is_written_once<W>(
    bridge: CompletionBridge<W>,
    first: Result<(), LAError>,
    second: Result<(), LAError>,
)
    ensures
        CompletionBridge::<W>::Created(None).result_slot() is None,
        bridge.after_issue().0.result_slot() == bridge.result_slot(),
        bridge.after_deliver(first).0 matches Some(next) ==> {
            &&& next.result_slot() == if bridge is Issued {
                Some(first)
            } else {
                bridge.result_slot()
            }
            &&& next.after_deliver(second) == (Some(next), Delivery::<W>::Discarded)
        },
{
}

/// No continuation is lost or dropped by the bridge: what a poll offers is
/// either kept or handed back at once, and what is kept comes out again,
/// through the poll that displaces it, through the delivery that resumes it,
/// or through the caller's letting go.
pub proof fn continuations_are_handed_back<W>(
    bridge: CompletionBridge<W>,
    w: W,
    outcome: Result<(), LAError>,
)
    ensures
        bridge.after_poll(w).1 is Pending ==> bridge.after_poll(w).0.continuation() == Some(w)
            && bridge.after_poll(w).2 == bridge.continuation(),
        !(bridge.after_poll(w).1 is Pending) ==> bridge.after_poll(w).2 == Some(w)
            && bridge.after_poll(w).0.continuation() == bridge.continuation(),
        bridge.after_deliver(outcome).1 matches Delivery::Resolved(resumed) ==> resumed
            == bridge.continuation(),
        bridge.after_deliver(outcome).1 is Discarded ==> bridge.after_deliver(outcome).0 == Some(
            bridge,
        ),
        bridge.after_abandon().1 == bridge.continuation(),
        bridge.after_issue().0.continuation() == bridge.continuation(),
{
}

} // verus!
