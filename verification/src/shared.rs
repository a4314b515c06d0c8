//! The registry behind a lock, so that the callback, which the native
//! subsystem invokes on a thread of its choosing, and the waiting callers
//! can all reach it.
//!
//! Every function here takes the lock once, does its work through the
//! verified functions of [`BridgeRegistry`] and [`LAContext`], and releases
//! the lock before it returns. Between two calls another thread may have
//! changed the registry, so the contracts here speak only of what holds
//! whatever the registry held; what each operation does to a given registry
//! is stated, and proved, on the functions that are called under the lock.

use vstd::prelude::*;
use vstd::string::StringSliceAdditionalSpecFns;
use parking_lot::{Mutex, MutexGuard};
use crate::bridge::{Delivery, Polled, is_callback_outcome};
use crate::context::{EvaluateError, EvaluateRequest, LAContext};
use crate::encoding::{EncodingError, first_nul, has_nul, is_first_nul, native_form};
use crate::policy::LAPolicy;
use crate::registry::BridgeRegistry;

verus! {

/// The mutex of `lock_api`, which `parking_lot::Mutex` is an instance of.
/// Nothing is claimed of it; it is carried as an opaque value.
#[verifier::external_type_specification]
#[verifier::external_body]
#[verifier::reject_recursive_types(R)]
#[verifier::reject_recursive_types(T)]
pub struct ExMutex<R, T: ?Sized>(parking_lot::lock_api::Mutex<R, T>);

/// The raw lock of `parking_lot`, the first type argument of its mutex.
/// Nothing is claimed of it.
#[verifier::external_type_specification]
#[verifier::external_body]
pub struct ExRawMutex(parking_lot::RawMutex);

/// The lock guard of `parking_lot::Mutex`, held in a field because the guard
/// type itself is bound by a trait of `lock_api`. While a value of this type
/// lives, its thread holds the lock; dropping it releases the lock.
#[verifier::external_body]
#[verifier::reject_recursive_types(T)]
struct Locked<'a, T> {
    guard: MutexGuard<'a, T>,
}

/// `parking_lot::Mutex::new`: a new, unlocked mutex that protects `value`.
/// Nothing is claimed of the result.
#[verifier::external_body]
fn new_mutex<T>(value: T) -> Mutex<T> {
    Mutex::new(value)
}

/// `parking_lot::Mutex::lock`: blocks until the lock is acquired and returns
/// the guard. Nothing is claimed of the value that the mutex protects. A
/// thread that already holds the lock would block forever; the functions of
/// this module never call this while they hold a guard.
#[verifier::external_body]
fn lock<'a, T>(mutex: &'a Mutex<T>) -> Locked<'a, T> {
    Locked { guard: mutex.lock() }
}

/// `DerefMut::deref_mut` of the guard: exclusive access to the protected
/// value for as long as the guard is borrowed. Nothing is claimed of the
/// value found there: it is whatever the holders of the lock before this one
/// left, and they are the functions of this module and no others.
#[verifier::external_body]
fn protected<'a, 'b, T>(held: &'a mut Locked<'b, T>) -> &'a mut T {
    &mut *held.guard
}

/// A [`BridgeRegistry`] that can be shared between threads.
///
/// No value of `W` is dropped while the lock is held: every continuation
/// that leaves the registry is returned to the caller, who disposes of it
/// after the lock has been released.
#[verifier::reject_recursive_types(W)]
pub struct SharedRegistry<W> {
    registry: Mutex<BridgeRegistry<W>>,
}

impl<W> SharedRegistry<W> {
    /// Creates a shared registry with no bridge, as [`BridgeRegistry::new`]
    /// does: its first identity is one.
    pub fn new() -> Self {
        SharedRegistry { registry: new_mutex(BridgeRegistry::new()) }
    }

    /// Issues an evaluation of `policy` on `context`, under the lock; see
    /// [`LAContext::evaluate_policy`].
    ///
    /// Whatever the registry held: a request that is returned carries the
    /// context's handle, the policy's integer, the reason in the native form
    /// and an identity that is not zero, and the context remembers that
    /// identity; a refusal leaves the context as it was. A reason with a
    /// zero byte is never accepted, and is what the refusal reports unless
    /// the context is busy. A context that has issued no evaluation is never
    /// busy: it is refused for a zero byte in the reason, and otherwise only
    /// when the identities are used up.
    pub fn evaluate_policy(
        &self,
        context: &mut LAContext,
        policy: LAPolicy,
        localized_reason: &str,
    ) -> (r: Result<EvaluateRequest, EvaluateError>)
        ensures
            r matches Ok(request) ==> {
                &&& !has_nul(localized_reason.spec_bytes())
                &&& request.context == old(context).native_handle()
                &&& request.policy == policy.abi_code()
                &&& request.reason@ == native_form(localized_reason.spec_bytes())
                &&& request.identity != 0
                &&& final(context).native_handle() == old(context).native_handle()
                &&& final(context).last_issued() == Some(request.identity)
            },
            r matches Err(e) ==> {
                &&& *final(context) == *old(context)
                &&& e is Busy ==> old(context).last_issued() is Some
                &&& e matches EvaluateError::Encoding(at) ==> at.nul_position == first_nul(
                    localized_reason.spec_bytes(),
                ) && is_first_nul(localized_reason.spec_bytes(), at.nul_position as int)
                &&& e is Encoding ==> has_nul(localized_reason.spec_bytes())
                &&& e is IdentitiesExhausted ==> !has_nul(localized_reason.spec_bytes())
            },
            has_nul(localized_reason.spec_bytes()) ==> r is Err,
            has_nul(localized_reason.spec_bytes()) ==> r == Err::<EvaluateRequest, EvaluateError>(
                EvaluateError::Busy,
            ) || r == Err::<EvaluateRequest, EvaluateError>(
                EvaluateError::Encoding(
                    EncodingError {
                        nul_position: first_nul(localized_reason.spec_bytes()) as usize,
                    },
                ),
            ),
            has_nul(localized_reason.spec_bytes()) && old(context).last_issued() is None ==> r
                == Err::<EvaluateRequest, EvaluateError>(
                EvaluateError::Encoding(
                    EncodingError {
                        nul_position: first_nul(localized_reason.spec_bytes()) as usize,
                    },
                ),
            ),
            !has_nul(localized_reason.spec_bytes()) && old(context).last_issued() is None ==> r is Ok
                || r == Err::<EvaluateRequest, EvaluateError>(EvaluateError::IdentitiesExhausted),
    {
        let mut held = lock(&self.registry);
        let registry = protected(&mut held);
        context.evaluate_policy(registry, policy, localized_reason)
    }

    /// Polls the evaluation `identity` on behalf of its waiting caller,
    /// under the lock; see [`BridgeRegistry::poll`].
    ///
    /// The second component is the continuation that the registry does not
    /// keep. It is returned rather than dropped here, so that it is disposed
    /// of after the lock has been released.
    ///
    /// Whatever the registry held: an outcome that is handed out is one that
    /// a callback invocation stands for, unless the answer is `Pending` the
    /// continuation that comes back is the one that was offered, and the
    /// identity zero, which is never issued, finds nothing to wait for.
    pub fn poll(&self, identity: usize, continuation: W) -> (r: (Polled, Option<W>))
        ensures
            r.0 matches Polled::Ready(outcome) ==> is_callback_outcome(outcome),
            !(r.0 is Pending) ==> r.1 == Some(continuation),
            identity == 0 ==> r.0 == Polled::Gone,
    {
        let mut held = lock(&self.registry);
        let registry = protected(&mut held);
        registry.poll(identity, continuation)
    }

    /// The callback's work, under the lock; see
    /// [`BridgeRegistry::evaluate_callback`]. The continuation in the report
    /// is to be resumed by the caller of this function, after it returns.
    ///
    /// Whatever the registry held: an invocation with the identity zero,
    /// which is what a null pointer reads as and is never issued, is
    /// discarded.
    pub fn evaluate_callback(&self, identity: usize, success: i32, code: i32) -> (report: Delivery<W>)
        ensures
            identity == 0 ==> report == Delivery::<W>::Discarded,
    {
        let mut held = lock(&self.registry);
        let registry = protected(&mut held);
        registry.evaluate_callback(identity, success, code)
    }

    /// Lets go of the evaluation `identity` on behalf of its caller, under
    /// the lock; see [`BridgeRegistry::abandon`]. The continuation that was
    /// registered is returned, to be disposed of after the lock has been
    /// released.
    ///
    /// Whatever the registry held: the identity zero, which is never issued,
    /// has no continuation to give back.
    pub fn abandon(&self, identity: usize) -> (continuation: Option<W>)
        ensures
            identity == 0 ==> continuation is None,
    {
        let mut held = lock(&self.registry);
        let registry = protected(&mut held);
        registry.abandon(identity)
    }

    /// Ends the life of `context`, under the lock; see
    /// [`LAContext::teardown`].
    ///
    /// Whatever the registry held: the handle that is returned is the
    /// context's, a context that is handed back is unchanged, and a context
    /// that has issued no evaluation is never handed back.
    pub fn teardown(&self, context: LAContext) -> (r: Result<usize, LAContext>)
        ensures
            r matches Ok(handle) ==> handle == context.native_handle() && handle != 0,
            r matches Err(back) ==> back == context && context.last_issued() is Some,
    {
        let mut held = lock(&self.registry);
        let registry = protected(&mut held);
        context.teardown(registry)
    }
}

} // verus!
