use tid::{LAError, LAPolicy};

const DOCUMENTED: [(LAError, i32); 15] = [
    (LAError::LAErrorAppCancel, -9),
    (LAError::LAErrorSystemCancel, -4),
    (LAError::LAErrorUserCancel, -2),
    (LAError::LAErrorBiometryDisconnected, -13),
    (LAError::LAErrorBiometryLockout, -8),
    (LAError::LAErrorBiometryNotAvailable, -6),
    (LAError::LAErrorBiometryNotEnrolled, -7),
    (LAError::LAErrorBiometryNotPaired, -12),
    (LAError::LAErrorAuthenticationFailed, -1),
    (LAError::LAErrorInvalidContext, -10),
    (LAError::LAErrorInvalidDimensions, -14),
    (LAError::LAErrorNotInteractive, -1004),
    (LAError::LAErrorPasscodeNotSet, -5),
    (LAError::LAErrorUserFallback, -3),
    (LAError::LAErrorWatchNotAvailable, -11),
];

#[test]
fn policy_codes_match_the_native_constants() {
    assert_eq!(LAPolicy::DeviceOwnerAuthenticationWithBiometrics.code(), 1);
    assert_eq!(LAPolicy::DeviceOwnerAuthentication.code(), 2);
    assert_eq!(LAPolicy::DeviceOwnerAuthenticationWithWatch.code(), 3);
    assert_eq!(LAPolicy::DeviceOwnerAuthenticationWithBiometricsOrWatch.code(), 4);
    assert_eq!(LAPolicy::DeviceOwnerAuthenticationWithWristDetection.code(), 5);
}

#[test]
fn policy_lookup_inverts_code() {
    let all = [
        LAPolicy::DeviceOwnerAuthenticationWithBiometrics,
        LAPolicy::DeviceOwnerAuthentication,
        LAPolicy::DeviceOwnerAuthenticationWithWatch,
        LAPolicy::DeviceOwnerAuthenticationWithBiometricsOrWatch,
        LAPolicy::DeviceOwnerAuthenticationWithWristDetection,
    ];
    for policy in all {
        assert_eq!(LAPolicy::from_code(policy.code()), Some(policy));
    }
}

#[test]
fn policy_lookup_rejects_unbound_integers() {
    assert_eq!(LAPolicy::from_code(0), None);
    assert_eq!(LAPolicy::from_code(6), None);
    assert_eq!(LAPolicy::from_code(-1), None);
    assert_eq!(LAPolicy::from_code(i32::MAX), None);
    assert_eq!(LAPolicy::from_code(i32::MIN), None);
}

#[test]
fn error_codes_match_the_native_constants() {
    for (error, code) in DOCUMENTED {
        assert_eq!(error.code(), code);
        assert!(code < 0);
    }
}

#[test]
fn documented_errors_are_found_by_code() {
    for (error, code) in DOCUMENTED {
        assert_eq!(LAError::from_i32(code), Some(error));
        assert_eq!(LAError::from_code(code), error);
        assert!(error.is_documented());
    }
}

#[test]
fn lookup_without_fallback_rejects_unbound_integers() {
    assert_eq!(LAError::from_i32(0), None);
    assert_eq!(LAError::from_i32(1), None);
    assert_eq!(LAError::from_i32(-15), None);
    assert_eq!(LAError::from_i32(-999), None);
    assert_eq!(LAError::from_i32(-1003), None);
    assert_eq!(LAError::from_i32(-1005), None);
    assert_eq!(LAError::from_i32(i32::MIN), None);
    assert_eq!(LAError::from_i32(i32::MAX), None);
}

#[test]
fn unknown_error_code_is_kept() {
    let error = LAError::from_code(-999);
    assert_eq!(error, LAError::LAErrorUnknown(-999));
    assert_eq!(error.code(), -999);
    assert!(!error.is_documented());
}

#[test]
fn every_code_round_trips_through_the_table() {
    for code in -1100..100 {
        assert_eq!(LAError::from_code(code).code(), code);
    }
    assert_eq!(LAError::from_code(i32::MIN).code(), i32::MIN);
    assert_eq!(LAError::from_code(i32::MAX).code(), i32::MAX);
    assert_eq!(LAError::from_code(0), LAError::LAErrorUnknown(0));
}

#[test]
fn exactly_fifteen_codes_are_documented() {
    let mut documented = 0;
    for code in -2000..2000 {
        if LAError::from_code(code).is_documented() {
            documented += 1;
        }
    }
    assert_eq!(documented, 15);
}

#[test]
fn error_messages_describe_the_reason() {
    assert_eq!(LAError::LAErrorAppCancel.message(), "The app canceled authentication.");
    assert_eq!(LAError::LAErrorSystemCancel.message(), "The system canceled authentication.");
    assert_eq!(
        LAError::LAErrorUserCancel.message(),
        "The user tapped the cancel button in the authentication dialog."
    );
    assert_eq!(
        LAError::LAErrorBiometryDisconnected.message(),
        "The device supports biometry only using a removable accessory, but the paired accessory isn\u{2019}t connected."
    );
    assert_eq!(
        LAError::LAErrorBiometryLockout.message(),
        "Biometry is locked because there were too many failed attempts."
    );
    assert_eq!(
        LAError::LAErrorBiometryNotAvailable.message(),
        "Biometry is not available on the device."
    );
    assert_eq!(
        LAError::LAErrorBiometryNotEnrolled.message(),
        "The user has no enrolled biometric identities."
    );
    assert_eq!(
        LAError::LAErrorBiometryNotPaired.message(),
        "The device supports biometry only using a removable accessory, but no accessory is paired."
    );
    assert_eq!(
        LAError::LAErrorAuthenticationFailed.message(),
        "The user failed to provide valid credentials."
    );
    assert_eq!(
        LAError::LAErrorInvalidContext.message(),
        "The context was previously invalidated."
    );
    assert_eq!(LAError::LAErrorInvalidDimensions.message(), "kLAErrorInvalidDimensions");
    assert_eq!(
        LAError::LAErrorNotInteractive.message(),
        "Displaying the required authentication user interface is forbidden."
    );
    assert_eq!(
        LAError::LAErrorPasscodeNotSet.message(),
        "A passcode isn\u{2019}t set on the device."
    );
    assert_eq!(
        LAError::LAErrorUserFallback.message(),
        "The user tapped the fallback button in the authentication dialog, but no fallback is available for the authentication policy."
    );
    assert_eq!(
        LAError::LAErrorWatchNotAvailable.message(),
        "An attempt to authenticate with Apple Watch failed."
    );
    assert_eq!(
        LAError::LAErrorUnknown(-999).message(),
        "The authentication subsystem reported an unrecognized error code."
    );
}
