//! Failure reasons of a policy evaluation and the integers the native
//! subsystem reports them by.

use vstd::prelude::*;

verus! {

/// Binding to `LAError` of `LocalAuthentication`.
///
/// Error codes that the framework returns when policy evaluation fails. Each
/// documented reason is bound to a fixed negative integer; an integer bound to
/// none of them is kept in [`LAError::LAErrorUnknown`], so that a code this
/// table has not heard of is reported instead of aborting the process.
#[derive(Copy, Clone, Debug, PartialEq, Eq, Structural)]
pub enum LAError {
    /// The app canceled authentication.
    LAErrorAppCancel,
    /// The system canceled authentication.
    LAErrorSystemCancel,
    /// The user tapped the cancel button in the authentication dialog.
    LAErrorUserCancel,
    /// The device supports biometry only using a removable accessory, but the
    /// paired accessory isn't connected.
    LAErrorBiometryDisconnected,
    /// Biometry is locked because there were too many failed attempts.
    LAErrorBiometryLockout,
    /// Biometry is not available on the device.
    LAErrorBiometryNotAvailable,
    /// The user has no enrolled biometric identities.
    LAErrorBiometryNotEnrolled,
    /// The device supports biometry only using a removable accessory, but no
    /// accessory is paired.
    LAErrorBiometryNotPaired,
    /// The user failed to provide valid credentials.
    LAErrorAuthenticationFailed,
    /// The context was previously invalidated.
    LAErrorInvalidContext,
    /// Undocumented by the framework.
    LAErrorInvalidDimensions,
    /// Displaying the required authentication user interface is forbidden.
    LAErrorNotInteractive,
    /// A passcode isn't set on the device.
    LAErrorPasscodeNotSet,
    /// The user tapped the fallback button in the authentication dialog, but
    /// no fallback is available for the authentication policy.
    LAErrorUserFallback,
    /// An attempt to authenticate with Apple Watch failed.
    LAErrorWatchNotAvailable,
    /// The native subsystem reported an integer bound to no reason above. The
    /// field is that integer, kept for diagnostics.
    LAErrorUnknown(i32),
}

/// The reason bound to `code` in the table of documented failure reasons.
pub open spec fn documented_error(code: int) -> Option<LAError> {
    if code == -1 {
        Some(LAError::LAErrorAuthenticationFailed)
    } else if code == -2 {
        Some(LAError::LAErrorUserCancel)
    } else if code == -3 {
        Some(LAError::LAErrorUserFallback)
    } else if code == -4 {
        Some(LAError::LAErrorSystemCancel)
    } else if code == -5 {
        Some(LAError::LAErrorPasscodeNotSet)
    } else if code == -6 {
        Some(LAError::LAErrorBiometryNotAvailable)
    } else if code == -7 {
        Some(LAError::LAErrorBiometryNotEnrolled)
    } else if code == -8 {
        Some(LAError::LAErrorBiometryLockout)
    } else if code == -9 {
        Some(LAError::LAErrorAppCancel)
    } else if code == -10 {
        Some(LAError::LAErrorInvalidContext)
    } else if code == -11 {
        Some(LAError::LAErrorWatchNotAvailable)
    } else if code == -12 {
        Some(LAError::LAErrorBiometryNotPaired)
    } else if code == -13 {
        Some(LAError::LAErrorBiometryDisconnected)
    } else if code == -14 {
        Some(LAError::LAErrorInvalidDimensions)
    } else if code == -1004 {
        Some(LAError::LAErrorNotInteractive)
    } else {
        None
    }
}

/// Whether `code` is bound to a documented failure reason: the integers from
/// -14 to -1, and -1004.
pub open spec fn is_documented_code(code: int) -> bool {
    -14 <= code <= -1 || code == -1004
}

/// The error that a failed evaluation with native error integer `code`
/// resolves to: the documented reason where there is one, and otherwise the
/// reserved unknown reason carrying `code`.
pub open spec fn error_for_code(code: i32) -> LAError {
    match documented_error(code as int) {
        Some(e) => e,
        None => LAError::LAErrorUnknown(code),
    }
}

impl LAError {
    /// The integer by which the native subsystem reports this reason. For the
    /// reserved unknown reason it is the integer that was reported.
    pub open spec fn abi_code(self) -> int {
        match self {
            LAError::LAErrorAppCancel => -9,
            LAError::LAErrorSystemCancel => -4,
            LAError::LAErrorUserCancel => -2,
            LAError::LAErrorBiometryDisconnected => -13,
            LAError::LAErrorBiometryLockout => -8,
            LAError::LAErrorBiometryNotAvailable => -6,
            LAError::LAErrorBiometryNotEnrolled => -7,
            LAError::LAErrorBiometryNotPaired => -12,
            LAError::LAErrorAuthenticationFailed => -1,
            LAError::LAErrorInvalidContext => -10,
            LAError::LAErrorInvalidDimensions => -14,
            LAError::LAErrorNotInteractive => -1004,
            LAError::LAErrorPasscodeNotSet => -5,
            LAError::LAErrorUserFallback => -3,
            LAError::LAErrorWatchNotAvailable => -11,
            LAError::LAErrorUnknown(code) => code as int,
        }
    }

    /// Whether this value is one that the table produces: a documented reason,
    /// or the unknown reason with an integer that no documented reason has.
    pub open spec fn is_canonical(self) -> bool {
        self matches LAError::LAErrorUnknown(code) ==> !is_documented_code(code as int)
    }

    /// The text that describes this reason to a reader.
    pub open spec fn message_text(self) -> Seq<char> {
        match self {
            LAError::LAErrorAppCancel => "The app canceled authentication."@,
            LAError::LAErrorSystemCancel => "The system canceled authentication."@,
            LAError::LAErrorUserCancel =>
                "The user tapped the cancel button in the authentication dialog."@,
            LAError::LAErrorBiometryDisconnected =>
                "The device supports biometry only using a removable accessory, but the paired accessory isn\u{2019}t connected."@,
            LAError::LAErrorBiometryLockout =>
                "Biometry is locked because there were too many failed attempts."@,
            LAError::LAErrorBiometryNotAvailable => "Biometry is not available on the device."@,
            LAError::LAErrorBiometryNotEnrolled =>
                "The user has no enrolled biometric identities."@,
            LAError::LAErrorBiometryNotPaired =>
                "The device supports biometry only using a removable accessory, but no accessory is paired."@,
            LAError::LAErrorAuthenticationFailed =>
                "The user failed to provide valid credentials."@,
            LAError::LAErrorInvalidContext => "The context was previously invalidated."@,
            LAError::LAErrorInvalidDimensions => "kLAErrorInvalidDimensions"@,
            LAError::LAErrorNotInteractive =>
                "Displaying the required authentication user interface is forbidden."@,
            LAError::LAErrorPasscodeNotSet => "A passcode isn\u{2019}t set on the device."@,
            LAError::LAErrorUserFallback =>
                "The user tapped the fallback button in the authentication dialog, but no fallback is available for the authentication policy."@,
            LAError::LAErrorWatchNotAvailable =>
                "An attempt to authenticate with Apple Watch failed."@,
            LAError::LAErrorUnknown(_) =>
                "The authentication subsystem reported an unrecognized error code."@,
        }
    }

    /// Returns the integer by which the native subsystem reports this reason.
    pub fn code(self) -> (c: i32)
        ensures
            c == self.abi_code(),
    {
        match self {
            LAError::LAErrorAppCancel => -9,
            LAError::LAErrorSystemCancel => -4,
            LAError::LAErrorUserCancel => -2,
            LAError::LAErrorBiometryDisconnected => -13,
            LAError::LAErrorBiometryLockout => -8,
            LAError::LAErrorBiometryNotAvailable => -6,
            LAError::LAErrorBiometryNotEnrolled => -7,
            LAError::LAErrorBiometryNotPaired => -12,
            LAError::LAErrorAuthenticationFailed => -1,
            LAError::LAErrorInvalidContext => -10,
            LAError::LAErrorInvalidDimensions => -14,
            LAError::LAErrorNotInteractive => -1004,
            LAError::LAErrorPasscodeNotSet => -5,
            LAError::LAErrorUserFallback => -3,
            LAError::LAErrorWatchNotAvailable => -11,
            LAError::LAErrorUnknown(code) => code,
        }
    }

    /// Looks a documented failure reason up by its native integer. `None` for
    /// every integer that is bound to none; the unknown reason is never
    /// returned.
    pub fn from_i32(n: i32) -> (e: Option<LAError>)
        ensures
            e == documented_error(n as int),
    {
        if n == -1 {
            Some(LAError::LAErrorAuthenticationFailed)
        } else if n == -2 {
            Some(LAError::LAErrorUserCancel)
        } else if n == -3 {
            Some(LAError::LAErrorUserFallback)
        } else if n == -4 {
            Some(LAError::LAErrorSystemCancel)
        } else if n == -5 {
            Some(LAError::LAErrorPasscodeNotSet)
        } else if n == -6 {
            Some(LAError::LAErrorBiometryNotAvailable)
        } else if n == -7 {
            Some(LAError::LAErrorBiometryNotEnrolled)
        } else if n == -8 {
            Some(LAError::LAErrorBiometryLockout)
        } else if n == -9 {
            Some(LAError::LAErrorAppCancel)
        } else if n == -10 {
            Some(LAError::LAErrorInvalidContext)
        } else if n == -11 {
            Some(LAError::LAErrorWatchNotAvailable)
        } else if n == -12 {
            Some(LAError::LAErrorBiometryNotPaired)
        } else if n == -13 {
            Some(LAError::LAErrorBiometryDisconnected)
        } else if n == -14 {
            Some(LAError::LAErrorInvalidDimensions)
        } else if n == -1004 {
            Some(LAError::LAErrorNotInteractive)
        } else {
            None
        }
    }

    /// Maps the error integer of a failed evaluation to its reason. Total: an
    /// integer bound to no documented reason gives the unknown reason carrying
    /// that integer.
    pub fn from_code(code: i32) -> (e: LAError)
        ensures
            e == error_for_code(code),
            e.abi_code() == code,
            e.is_canonical(),
    {
        match LAError::from_i32(code) {
            Some(e) => e,
            None => LAError::LAErrorUnknown(code),
        }
    }

    /// Whether this is a documented reason, as opposed to the unknown one.
    pub fn is_documented(self) -> (b: bool)
        ensures
            b == !(self is LAErrorUnknown),
    {
        match self {
            LAError::LAErrorUnknown(_) => false,
            _ => true,
        }
    }

    /// Returns the text that describes this reason to a reader.
    pub fn message(self) -> (m: String)
        ensures
            m@ == self.message_text(),
    {
        match self {
            LAError::LAErrorAppCancel => "The app canceled authentication.".to_owned(),
            LAError::LAErrorSystemCancel => "The system canceled authentication.".to_owned(),
            LAError::LAErrorUserCancel =>
                "The user tapped the cancel button in the authentication dialog.".to_owned(),
            LAError::LAErrorBiometryDisconnected =>
                "The device supports biometry only using a removable accessory, but the paired accessory isn\u{2019}t connected.".to_owned(),
            LAError::LAErrorBiometryLockout =>
                "Biometry is locked because there were too many failed attempts.".to_owned(),
            LAError::LAErrorBiometryNotAvailable =>
                "Biometry is not available on the device.".to_owned(),
            LAError::LAErrorBiometryNotEnrolled =>
                "The user has no enrolled biometric identities.".to_owned(),
            LAError::LAErrorBiometryNotPaired =>
                "The device supports biometry only using a removable accessory, but no accessory is paired.".to_owned(),
            LAError::LAErrorAuthenticationFailed =>
                "The user failed to provide valid credentials.".to_owned(),
            LAError::LAErrorInvalidContext => "The context was previously invalidated.".to_owned(),
            LAError::LAErrorInvalidDimensions => "kLAErrorInvalidDimensions".to_owned(),
            LAError::LAErrorNotInteractive =>
                "Displaying the required authentication user interface is forbidden.".to_owned(),
            LAError::LAErrorPasscodeNotSet => "A passcode isn\u{2019}t set on the device.".to_owned(),
            LAError::LAErrorUserFallback =>
                "The user tapped the fallback button in the authentication dialog, but no fallback is available for the authentication policy.".to_owned(),
            LAError::LAErrorWatchNotAvailable =>
                "An attempt to authenticate with Apple Watch failed.".to_owned(),
            LAError::LAErrorUnknown(_) =>
                "The authentication subsystem reported an unrecognized error code.".to_owned(),
        }
    }
}

/// The error table loses nothing: the reason looked up for an integer reports
/// that same integer, so the raw code of a failure can always be recovered.
pub proof fn error_code_round_trips(code: i32)
    ensures
        error_for_code(code).abi_code() == code,
        error_for_code(code).is_canonical(),
        error_for_code(code) is LAErrorUnknown <==> !is_documented_code(code as int),
        documented_error(code as int) is Some <==> is_documented_code(code as int),
{
}

/// Looking up the integer of a reason gives the reason back, for every reason
/// that the table produces; and two such reasons never share an integer.
pub proof fn error_lookup_inverts_code(e: LAError, f: LAError)
    requires
        e.is_canonical(),
        f.is_canonical(),
    ensures
        error_for_code(e.abi_code() as i32) == e,
        !(e is LAErrorUnknown) ==> documented_error(e.abi_code()) == Some(e),
        e.abi_code() == f.abi_code() ==> e == f,
{
}

/// Every documented reason is bound to a negative integer.
pub proof fn documented_codes_are_negative(e: LAError)
    requires
        !(e is LAErrorUnknown),
    ensures
        e.abi_code() < 0,
        is_documented_code(e.abi_code()),
{
}

} // verus!
