//! The authentication context: one handle of the native subsystem, and what
//! may be asked of it when.
//!
//! The functions here decide and prepare; they make no native call. Each one
//! that stands for a native call returns what the embedding program has to
//! hand to the native entry point, or takes as an argument what that entry
//! point gave back.

use vstd::prelude::*;
use vstd::string::StringSliceAdditionalSpecFns;
use crate::bridge::{CompletionBridge, native_flag, native_truth};
use crate::encoding::{
    EncodingError, encode_native_string, first_nul, has_nul, is_first_nul, native_form,
};
use crate::error::LAError;
use crate::policy::LAPolicy;
use crate::registry::{
    BridgeRegistry, Bridges, bridges_after_abandon, bridges_after_deliver, bridges_after_poll,
    callback_outstanding,
};

verus! {

/// Why no context was constructed.
#[derive(Copy, Clone, Debug, PartialEq, Eq, Structural)]
pub enum ContextError {
    /// The native initializer returned no handle.
    InitializationFailed,
}

/// Why no evaluation was issued.
#[derive(Copy, Clone, Debug, PartialEq, Eq, Structural)]
pub enum EvaluateError {
    /// The context's previous evaluation is still running in the native
    /// subsystem.
    Busy,
    /// The reason text cannot be put in the native string form.
    Encoding(EncodingError),
    /// The registry has no identity left to give.
    IdentitiesExhausted,
}

/// The arguments of the native evaluation request.
#[derive(Debug, PartialEq, Eq)]
pub struct EvaluateRequest {
    /// The handle of the context to evaluate against.
    pub context: usize,
    /// The policy, as the integer the native subsystem knows it by.
    pub policy: i32,
    /// The reason shown to the user, in the native string form.
    pub reason: Vec<u8>,
    /// The identity of the bridge, which the native subsystem passes back to
    /// the callback. It is never zero.
    pub identity: usize,
}

/// Binding to `LAContext` of `LocalAuthentication`.
///
/// A mechanism for evaluating authentication policies and access controls.
/// The context owns one handle of the native subsystem from construction to
/// teardown, and remembers the evaluation it issued last, so that it can
/// refuse what must not happen while that evaluation is running.
#[derive(Debug, PartialEq, Eq)]
pub struct LAContext {
    handle: usize,
    last_evaluation: Option<usize>,
}

impl LAContext {
    /// A context always holds a handle that the native initializer produced.
    #[verifier::type_invariant]
    spec fn holds_a_handle(self) -> bool {
        self.handle != 0
    }

    /// The native handle that this context owns.
    pub closed spec fn native_handle(&self) -> usize {
        self.handle
    }

    /// The identity of the evaluation that this context issued last.
    pub closed spec fn last_issued(&self) -> Option<usize> {
        self.last_evaluation
    }

    /// Whether the evaluation that this context issued last is still running
    /// in the native subsystem, going by the bridges in `bridges`.
    pub open spec fn is_busy<W>(&self, bridges: Map<usize, CompletionBridge<W>>) -> bool {
        self.last_issued() matches Some(identity) && callback_outstanding(bridges, identity)
    }

    /// Why an evaluation with reason bytes `reason` cannot be issued now, if
    /// anything stands against it. The checks are made in this order: the
    /// context is busy, the reason holds a zero byte, the identities are used
    /// up.
    pub open spec fn refusal<W>(
        &self,
        bridges: Map<usize, CompletionBridge<W>>,
        next_identity: usize,
        reason: Seq<u8>,
    ) -> Option<EvaluateError> {
        if self.is_busy(bridges) {
            Some(EvaluateError::Busy)
        } else if has_nul(reason) {
            Some(EvaluateError::Encoding(EncodingError { nul_position: first_nul(reason) as usize }))
        } else if next_identity == usize::MAX {
            Some(EvaluateError::IdentitiesExhausted)
        } else {
            None
        }
    }

    /// Takes ownership of the handle that the native initializer returned.
    ///
    /// A zero handle means that the initializer failed, and gives an error
    /// instead of a context.
    pub fn new(handle: usize) -> (r: Result<LAContext, ContextError>)
        ensures
            r is Ok <==> handle != 0,
            r matches Ok(context) ==> context.native_handle() == handle
                && context.last_issued() is None,
            r matches Err(e) ==> e == ContextError::InitializationFailed,
    {
        if handle == 0 {
            Err(ContextError::InitializationFailed)
        } else {
            Ok(LAContext { handle, last_evaluation: None })
        }
    }

    /// Returns the native handle, to pass to the native entry points. It is
    /// never zero.
    pub fn handle(&self) -> (h: usize)
        ensures
            h == self.native_handle(),
            h != 0,
    {
        proof {
            use_type_invariant(self);
        }
        self.handle
    }

    /// Returns the identity of the evaluation issued last, if any was.
    pub fn last_evaluation(&self) -> (identity: Option<usize>)
        ensures
            identity == self.last_issued(),
    {
        self.last_evaluation
    }

    /// Prepares the title of the cancel button for the native setter.
    ///
    /// Returns the title in the native string form, to be set on this
    /// context's handle. Fails, with nothing to set, exactly when the title
    /// holds a zero byte. The context itself does not change.
    pub fn set_localized_cancel_title(&mut self, title: &str) -> (r: Result<Vec<u8>, EncodingError>)
        ensures
            *final(self) == *old(self),
            r is Err <==> has_nul(title.spec_bytes()),
            r matches Ok(encoded) ==> encoded@ == native_form(title.spec_bytes()),
            r matches Err(e) ==> e.nul_position == first_nul(title.spec_bytes()) && is_first_nul(
                title.spec_bytes(),
                e.nul_position as int,
            ),
    {
        encode_native_string(title)
    }

    /// Prepares the native probe for `policy`: returns the arguments to
    /// call it with, this context's handle and the integer that the native
    /// subsystem knows the policy by.
    pub fn probe_arguments(&self, policy: LAPolicy) -> (r: (usize, i32))
        ensures
            r.0 == self.native_handle(),
            r.0 != 0,
            r.1 == policy.abi_code(),
    {
        proof {
            use_type_invariant(self);
        }
        (self.handle, policy.code())
    }

    /// Assesses whether authentication can proceed, from what the native
    /// probe answered when it was called with the arguments that
    /// [`LAContext::probe_arguments`] gave for the policy in question.
    ///
    /// The answer means yes exactly when it is one. Nothing is remembered:
    /// the same answer is read the same way every time, and a later probe may
    /// answer differently.
    pub fn can_evaluate_policy(&self, answer: i32) -> (can: bool)
        ensures
            can == native_truth(answer),
    {
        native_flag(answer)
    }

    /// Issues an evaluation of `policy` on this context.
    ///
    /// On success a bridge for the evaluation is registered in `registry`
    /// under a fresh identity, holding the caller's share and the native
    /// one; the context remembers that identity, and the arguments for the
    /// native evaluation request are returned. The
    /// evaluation is refused, with the context and the registry unchanged,
    /// when the context's previous evaluation still awaits its callback, when
    /// `localized_reason` holds a zero byte, or when the registry has run out
    /// of identities.
    pub fn evaluate_policy<W>(
        &mut self,
        registry: &mut BridgeRegistry<W>,
        policy: LAPolicy,
        localized_reason: &str,
    ) -> (r: Result<EvaluateRequest, EvaluateError>)
        ensures
            r is Err <==> old(self).refusal(
                old(registry)@,
                old(registry).next_identity(),
                localized_reason.spec_bytes(),
            ) is Some,
            r matches Err(e) ==> {
                &&& Some(e) == old(self).refusal(
                    old(registry)@,
                    old(registry).next_identity(),
                    localized_reason.spec_bytes(),
                )
                &&& e matches EvaluateError::Encoding(at) ==> is_first_nul(
                    localized_reason.spec_bytes(),
                    at.nul_position as int,
                )
                &&& *final(self) == *old(self)
                &&& final(registry)@ == old(registry)@
                &&& final(registry).next_identity() == old(registry).next_identity()
            },
            r matches Ok(request) ==> {
                &&& request.context == old(self).native_handle()
                &&& request.policy == policy.abi_code()
                &&& request.reason@ == native_form(localized_reason.spec_bytes())
                &&& request.identity == old(registry).next_identity()
                &&& request.identity != 0
                &&& !old(registry)@.contains_key(request.identity)
                &&& final(registry)@ == old(registry)@.insert(
                    request.identity,
                    CompletionBridge::Issued(None),
                )
                &&& final(registry).next_identity() == request.identity + 1
                &&& final(self).native_handle() == old(self).native_handle()
                &&& final(self).last_issued() == Some(request.identity)
            },
    {
        proof {
            use_type_invariant(&*self);
        }
        let busy = match self.last_evaluation {
            Some(identity) => registry.awaits_callback(identity),
            None => false,
        };
        if busy {
            return Err(EvaluateError::Busy);
        }
        let reason = match encode_native_string(localized_reason) {
            Ok(encoded) => encoded,
            Err(e) => {
                return Err(EvaluateError::Encoding(e));
            },
        };
        match registry.register() {
            Some(identity) => {
                self.last_evaluation = Some(identity);
                Ok(EvaluateRequest { context: self.handle, policy: policy.code(), reason, identity })
            },
            None => Err(EvaluateError::IdentitiesExhausted),
        }
    }

    /// Ends the context's life.
    ///
    /// Returns the handle, for the native release call, unless the
    /// evaluation issued last still awaits its callback: the native side may
    /// then still use the handle, and the context is handed back unchanged.
    pub fn teardown<W>(self, registry: &BridgeRegistry<W>) -> (r: Result<usize, LAContext>)
        ensures
            r is Err <==> self.is_busy(registry@),
            r matches Ok(handle) ==> handle == self.native_handle() && handle != 0,
            r matches Err(context) ==> context == self,
    {
        proof {
            use_type_invariant(&self);
        }
        let busy = match self.last_evaluation {
            Some(identity) => registry.awaits_callback(identity),
            None => false,
        };
        if busy {
            Err(self)
        } else {
            Ok(self.handle)
        }
    }
}

/// A context that has issued no evaluation is never busy: its first
/// evaluation is refused only for its reason text or for want of identities,
/// and it can be torn down at any time.
pub proof fn fresh_context_is_free<W>(
    context: LAContext,
    bridges: Bridges<W>,
    next_identity: usize,
    reason: Seq<u8>,
)
    requires
        context.last_issued() is None,
    ensures
        !context.is_busy(bridges),
        context.refusal(bridges, next_identity, reason) != Some(EvaluateError::Busy),
        !has_nul(reason) && next_identity < usize::MAX ==> context.refusal(
            bridges,
            next_identity,
            reason,
        ) is None,
{
}

/// Once the callback of a context's latest evaluation has fired, the
/// context is free again, whatever the outcome, whether or not the caller
/// has taken it yet, and whether or not the caller has let go: a teardown
/// then releases the handle, and a further evaluation is not refused as
/// busy.
pub proof fn resolved_evaluation_frees_context<W>(
    context: LAContext,
    bridges: Bridges<W>,
    identity: usize,
    outcome: Result<(), LAError>,
    w: W,
)
    requires
        context.last_issued() == Some(identity),
    ensures
        !context.is_busy(bridges_after_deliver(bridges, identity, outcome)),
        !context.is_busy(
            bridges_after_poll(bridges_after_deliver(bridges, identity, outcome), identity, w),
        ),
        !context.is_busy(
            bridges_after_abandon(
                bridges_after_poll(bridges_after_deliver(bridges, identity, outcome), identity, w),
                identity,
            ),
        ),
{
}

/// Until the callback of a context's latest evaluation fires, the context
/// stays busy: polls by the waiting caller change nothing about that.
pub proof fn pending_evaluation_keeps_context_busy<W>(
    context: LAContext,
    bridges: Bridges<W>,
    identity: usize,
    w: W,
)
    requires
        context.last_issued() == Some(identity),
        context.is_busy(bridges),
    ensures
        context.is_busy(bridges_after_poll(bridges, identity, w)),
{
}

} // verus!
