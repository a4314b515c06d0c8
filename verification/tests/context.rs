use tid::{
    BridgeRegistry, ContextError, Delivery, EncodingError, EvaluateError, EvaluateRequest,
    LAContext, LAError, LAPolicy, Polled,
};

/// Stands in for the native subsystem: it knows which policies the device
/// supports and keeps the evaluation requests it was handed.
struct FakeDevice {
    supported: Vec<i32>,
    requests: Vec<EvaluateRequest>,
}

impl FakeDevice {
    fn supporting(policies: &[LAPolicy]) -> FakeDevice {
        FakeDevice { supported: policies.iter().map(|p| p.code()).collect(), requests: Vec::new() }
    }

    fn can_evaluate_policy(&self, _context: usize, policy: i32) -> i32 {
        if self.supported.contains(&policy) { 1 } else { 0 }
    }

    fn evaluate_policy(&mut self, request: EvaluateRequest) {
        self.requests.push(request);
    }
}

#[test]
fn construction_fails_without_a_handle() {
    assert_eq!(LAContext::new(0), Err(ContextError::InitializationFailed));
}

#[test]
fn construction_keeps_the_handle() {
    let context = LAContext::new(0x7f00_1000).unwrap();
    assert_eq!(context.handle(), 0x7f00_1000);
    assert_eq!(context.last_evaluation(), None);
}

#[test]
fn cancel_title_is_prepared_in_native_form() {
    let mut context = LAContext::new(1).unwrap();
    assert_eq!(
        context.set_localized_cancel_title("Use Another Method"),
        Ok(b"Use Another Method\0".to_vec())
    );
    assert_eq!(context.handle(), 1);
}

#[test]
fn cancel_title_with_zero_byte_is_an_encoding_error() {
    let mut context = LAContext::new(1).unwrap();
    assert_eq!(
        context.set_localized_cancel_title("Use\0Another"),
        Err(EncodingError { nul_position: 3 })
    );
}

#[test]
fn repeated_probes_of_an_unchanged_device_agree() {
    let device = FakeDevice::supporting(&[LAPolicy::DeviceOwnerAuthentication]);
    let context = LAContext::new(9).unwrap();
    let all = [
        LAPolicy::DeviceOwnerAuthenticationWithBiometrics,
        LAPolicy::DeviceOwnerAuthentication,
        LAPolicy::DeviceOwnerAuthenticationWithWatch,
        LAPolicy::DeviceOwnerAuthenticationWithBiometricsOrWatch,
        LAPolicy::DeviceOwnerAuthenticationWithWristDetection,
    ];
    for policy in all {
        let (handle, code) = context.probe_arguments(policy);
        let first = context.can_evaluate_policy(device.can_evaluate_policy(handle, code));
        for _ in 0..5 {
            let (handle, code) = context.probe_arguments(policy);
            let again = context.can_evaluate_policy(device.can_evaluate_policy(handle, code));
            assert_eq!(first, again);
        }
        assert_eq!(first, policy == LAPolicy::DeviceOwnerAuthentication);
    }
}

#[test]
fn probe_is_called_with_the_handle_and_the_policy_integer() {
    let context = LAContext::new(0x51).unwrap();
    assert_eq!(
        context.probe_arguments(LAPolicy::DeviceOwnerAuthenticationWithBiometrics),
        (0x51, 1)
    );
    assert_eq!(context.probe_arguments(LAPolicy::DeviceOwnerAuthentication), (0x51, 2));
    assert_eq!(context.probe_arguments(LAPolicy::DeviceOwnerAuthenticationWithWatch), (0x51, 3));
    assert_eq!(
        context.probe_arguments(LAPolicy::DeviceOwnerAuthenticationWithBiometricsOrWatch),
        (0x51, 4)
    );
    assert_eq!(
        context.probe_arguments(LAPolicy::DeviceOwnerAuthenticationWithWristDetection),
        (0x51, 5)
    );
}

#[test]
fn probe_answer_other_than_one_means_no() {
    let context = LAContext::new(9).unwrap();
    assert!(context.can_evaluate_policy(1));
    assert!(!context.can_evaluate_policy(0));
    assert!(!context.can_evaluate_policy(-1));
    assert!(!context.can_evaluate_policy(2));
}

#[test]
fn unsupported_policy_is_not_evaluated() {
    let mut device = FakeDevice::supporting(&[LAPolicy::DeviceOwnerAuthentication]);
    let mut registry: BridgeRegistry<u32> = BridgeRegistry::new();
    let mut context = LAContext::new(9).unwrap();
    let policy = LAPolicy::DeviceOwnerAuthenticationWithWristDetection;
    let (handle, code) = context.probe_arguments(policy);
    let answer = device.can_evaluate_policy(handle, code);
    if context.can_evaluate_policy(answer) {
        let request = context.evaluate_policy(&mut registry, policy, "Unlock").unwrap();
        device.evaluate_policy(request);
    }
    assert!(!context.can_evaluate_policy(answer));
    assert!(device.requests.is_empty());
    assert!(registry.is_empty());
    assert_eq!(context.last_evaluation(), None);
}

#[test]
fn supported_policy_evaluates_to_success() {
    let mut device = FakeDevice::supporting(&[LAPolicy::DeviceOwnerAuthenticationWithBiometrics]);
    let mut registry: BridgeRegistry<u32> = BridgeRegistry::new();
    let mut context = LAContext::new(9).unwrap();
    let policy = LAPolicy::DeviceOwnerAuthenticationWithBiometrics;
    let (handle, code) = context.probe_arguments(policy);
    let answer = device.can_evaluate_policy(handle, code);
    assert!(context.can_evaluate_policy(answer));

    let request = context.evaluate_policy(&mut registry, policy, "Unlock").unwrap();
    assert_eq!(
        request,
        EvaluateRequest { context: 9, policy: 1, reason: b"Unlock\0".to_vec(), identity: 1 }
    );
    let identity = request.identity;
    device.evaluate_policy(request);
    assert_eq!(registry.poll(identity, 77).0, Polled::Pending);

    assert_eq!(registry.evaluate_callback(identity, 1, 0), Delivery::Resolved(Some(77)));
    assert_eq!(registry.poll(identity, 78).0, Polled::Ready(Ok(())));
    assert_eq!(device.requests.len(), 1);
}

#[test]
fn failed_evaluation_resolves_to_authentication_failed() {
    let mut registry: BridgeRegistry<u32> = BridgeRegistry::new();
    let mut context = LAContext::new(9).unwrap();
    let request = context
        .evaluate_policy(&mut registry, LAPolicy::DeviceOwnerAuthentication, "Unlock")
        .unwrap();
    assert_eq!(registry.poll(request.identity, 1).0, Polled::Pending);
    registry.evaluate_callback(request.identity, 0, -1);
    assert_eq!(
        registry.poll(request.identity, 2).0,
        Polled::Ready(Err(LAError::LAErrorAuthenticationFailed))
    );
}

#[test]
fn unknown_error_code_resolves_to_the_unknown_reason() {
    let mut registry: BridgeRegistry<u32> = BridgeRegistry::new();
    let mut context = LAContext::new(9).unwrap();
    let request = context
        .evaluate_policy(&mut registry, LAPolicy::DeviceOwnerAuthentication, "Unlock")
        .unwrap();
    assert_eq!(registry.poll(request.identity, 1).0, Polled::Pending);
    registry.evaluate_callback(request.identity, 0, -999);
    assert_eq!(
        registry.poll(request.identity, 2).0,
        Polled::Ready(Err(LAError::LAErrorUnknown(-999)))
    );
}

#[test]
fn teardown_after_a_resolved_evaluation_releases_the_handle() {
    let mut registry: BridgeRegistry<u32> = BridgeRegistry::new();
    let mut context = LAContext::new(0xbeef).unwrap();
    let request = context
        .evaluate_policy(&mut registry, LAPolicy::DeviceOwnerAuthentication, "Unlock")
        .unwrap();
    registry.evaluate_callback(request.identity, 1, 0);
    assert_eq!(registry.poll(request.identity, 1).0, Polled::Ready(Ok(())));
    assert_eq!(context.teardown(&registry), Ok(0xbeef));
}

#[test]
fn teardown_of_an_unused_context_releases_the_handle() {
    let registry: BridgeRegistry<u32> = BridgeRegistry::new();
    let context = LAContext::new(3).unwrap();
    assert_eq!(context.teardown(&registry), Ok(3));
}

#[test]
fn teardown_is_refused_while_the_callback_is_outstanding() {
    let mut registry: BridgeRegistry<u32> = BridgeRegistry::new();
    let mut context = LAContext::new(3).unwrap();
    let request = context
        .evaluate_policy(&mut registry, LAPolicy::DeviceOwnerAuthentication, "Unlock")
        .unwrap();
    let context = context.teardown(&registry).unwrap_err();
    assert_eq!(context.handle(), 3);
    assert_eq!(context.last_evaluation(), Some(request.identity));

    registry.abandon(request.identity);
    let context = context.teardown(&registry).unwrap_err();

    registry.evaluate_callback(request.identity, 0, -4);
    assert_eq!(context.teardown(&registry), Ok(3));
}

#[test]
fn teardown_does_not_wait_for_the_caller_to_take_the_outcome() {
    let mut registry: BridgeRegistry<u32> = BridgeRegistry::new();
    let mut context = LAContext::new(3).unwrap();
    let request = context
        .evaluate_policy(&mut registry, LAPolicy::DeviceOwnerAuthentication, "Unlock")
        .unwrap();
    registry.evaluate_callback(request.identity, 1, 0);
    assert_eq!(context.teardown(&registry), Ok(3));
    assert_eq!(registry.poll(request.identity, 1).0, Polled::Ready(Ok(())));
}

#[test]
fn second_evaluation_is_refused_while_the_first_is_running() {
    let mut registry: BridgeRegistry<u32> = BridgeRegistry::new();
    let mut context = LAContext::new(3).unwrap();
    let first = context
        .evaluate_policy(&mut registry, LAPolicy::DeviceOwnerAuthentication, "Unlock")
        .unwrap();
    assert_eq!(
        context.evaluate_policy(&mut registry, LAPolicy::DeviceOwnerAuthentication, "Again"),
        Err(EvaluateError::Busy)
    );
    assert_eq!(context.last_evaluation(), Some(first.identity));
    assert!(!registry.is_live(first.identity + 1));

    registry.evaluate_callback(first.identity, 1, 0);
    let second = context
        .evaluate_policy(&mut registry, LAPolicy::DeviceOwnerAuthenticationWithWatch, "Again")
        .unwrap();
    assert_eq!(
        second,
        EvaluateRequest { context: 3, policy: 3, reason: b"Again\0".to_vec(), identity: 2 }
    );
    assert_eq!(registry.poll(first.identity, 1).0, Polled::Ready(Ok(())));
    assert_eq!(registry.poll(second.identity, 1).0, Polled::Pending);
}

#[test]
fn busy_is_reported_before_a_bad_reason() {
    let mut registry: BridgeRegistry<u32> = BridgeRegistry::new();
    let mut context = LAContext::new(3).unwrap();
    context.evaluate_policy(&mut registry, LAPolicy::DeviceOwnerAuthentication, "Unlock").unwrap();
    assert_eq!(
        context.evaluate_policy(&mut registry, LAPolicy::DeviceOwnerAuthentication, "\0"),
        Err(EvaluateError::Busy)
    );
}

#[test]
fn reason_with_zero_byte_issues_nothing() {
    let mut registry: BridgeRegistry<u32> = BridgeRegistry::new();
    let mut context = LAContext::new(3).unwrap();
    assert_eq!(
        context.evaluate_policy(&mut registry, LAPolicy::DeviceOwnerAuthentication, "Un\0lock"),
        Err(EvaluateError::Encoding(EncodingError { nul_position: 2 }))
    );
    assert!(registry.is_empty());
    assert_eq!(context.last_evaluation(), None);
    assert_eq!(registry.register(), Some(1));
}

#[test]
fn two_contexts_share_a_registry_without_mixing_outcomes() {
    let mut registry: BridgeRegistry<u32> = BridgeRegistry::new();
    let mut one = LAContext::new(1).unwrap();
    let mut two = LAContext::new(2).unwrap();
    let first = one
        .evaluate_policy(&mut registry, LAPolicy::DeviceOwnerAuthentication, "One")
        .unwrap();
    let second = two
        .evaluate_policy(&mut registry, LAPolicy::DeviceOwnerAuthenticationWithBiometrics, "Two")
        .unwrap();
    assert_eq!((first.context, second.context), (1, 2));
    assert_ne!(first.identity, second.identity);
    registry.poll(first.identity, 10);
    registry.poll(second.identity, 20);
    assert_eq!(registry.evaluate_callback(second.identity, 1, 0), Delivery::Resolved(Some(20)));
    assert_eq!(registry.evaluate_callback(first.identity, 0, -8), Delivery::Resolved(Some(10)));
    assert_eq!(
        registry.poll(first.identity, 10).0,
        Polled::Ready(Err(LAError::LAErrorBiometryLockout))
    );
    assert_eq!(registry.poll(second.identity, 20).0, Polled::Ready(Ok(())));
    assert_eq!(one.teardown(&registry), Ok(1));
    assert_eq!(two.teardown(&registry), Ok(2));
}

#[test]
fn evaluation_is_refused_when_identities_are_used_up() {
    let mut registry: BridgeRegistry<u32> = BridgeRegistry::starting_at(usize::MAX);
    let mut context = LAContext::new(3).unwrap();
    assert_eq!(
        context.evaluate_policy(&mut registry, LAPolicy::DeviceOwnerAuthentication, "Unlock"),
        Err(EvaluateError::IdentitiesExhausted)
    );
    assert_eq!(context.last_evaluation(), None);
    assert!(registry.is_empty());
    assert_eq!(context.teardown(&registry), Ok(3));
}

#[test]
fn issued_identity_is_never_zero() {
    let mut registry: BridgeRegistry<u32> = BridgeRegistry::starting_at(0);
    let mut context = LAContext::new(3).unwrap();
    let request = context
        .evaluate_policy(&mut registry, LAPolicy::DeviceOwnerAuthentication, "Unlock")
        .unwrap();
    assert_eq!(request.identity, 1);
    assert!(registry.awaits_callback(request.identity));
}

#[test]
fn teardown_after_the_caller_let_go_of_a_resolved_evaluation() {
    let mut registry: BridgeRegistry<u32> = BridgeRegistry::new();
    let mut context = LAContext::new(3).unwrap();
    let request = context
        .evaluate_policy(&mut registry, LAPolicy::DeviceOwnerAuthentication, "Unlock")
        .unwrap();
    assert_eq!(registry.poll(request.identity, 1), (Polled::Pending, None));
    assert_eq!(registry.evaluate_callback(request.identity, 1, 0), Delivery::Resolved(Some(1)));
    assert_eq!(registry.poll(request.identity, 2), (Polled::Ready(Ok(())), Some(2)));
    assert_eq!(registry.abandon(request.identity), None);
    assert!(registry.is_empty());
    assert_eq!(context.teardown(&registry), Ok(3));
}
