//! Authentication policies and the integers the native subsystem knows them by.

use vstd::prelude::*;

verus! {

/// Binding to `LAPolicy` of `LocalAuthentication`.
///
/// The set of available local authentication policies. The native subsystem
/// identifies each by the integer that [`LAPolicy::code`] returns; a cast of
/// the enum itself does not give that integer.
#[derive(Copy, Clone, Debug, PartialEq, Eq, Structural)]
pub enum LAPolicy {
    /// User authentication with biometry.
    DeviceOwnerAuthenticationWithBiometrics,
    /// User authentication with biometry, Apple Watch, or the device passcode.
    DeviceOwnerAuthentication,
    /// User authentication with Apple Watch.
    DeviceOwnerAuthenticationWithWatch,
    /// User authentication with either biometry or Apple Watch.
    DeviceOwnerAuthenticationWithBiometricsOrWatch,
    /// User authentication with wrist detection on watchOS.
    DeviceOwnerAuthenticationWithWristDetection,
}

impl LAPolicy {
    /// The integer bound to this policy at the native boundary.
    pub open spec fn abi_code(self) -> int {
        match self {
            LAPolicy::DeviceOwnerAuthenticationWithBiometrics => 1,
            LAPolicy::DeviceOwnerAuthentication => 2,
            LAPolicy::DeviceOwnerAuthenticationWithWatch => 3,
            LAPolicy::DeviceOwnerAuthenticationWithBiometricsOrWatch => 4,
            LAPolicy::DeviceOwnerAuthenticationWithWristDetection => 5,
        }
    }

    /// The policy bound to `code`, if there is one.
    pub open spec fn of_abi_code(code: int) -> Option<LAPolicy> {
        if code == 1 {
            Some(LAPolicy::DeviceOwnerAuthenticationWithBiometrics)
        } else if code == 2 {
            Some(LAPolicy::DeviceOwnerAuthentication)
        } else if code == 3 {
            Some(LAPolicy::DeviceOwnerAuthenticationWithWatch)
        } else if code == 4 {
            Some(LAPolicy::DeviceOwnerAuthenticationWithBiometricsOrWatch)
        } else if code == 5 {
            Some(LAPolicy::DeviceOwnerAuthenticationWithWristDetection)
        } else {
            None
        }
    }

    /// Returns the integer to hand to the native subsystem for this policy.
    pub fn code(self) -> (c: i32)
        ensures
            c == self.abi_code(),
            1 <= c <= 5,
    {
        match self {
            LAPolicy::DeviceOwnerAuthenticationWithBiometrics => 1,
            LAPolicy::DeviceOwnerAuthentication => 2,
            LAPolicy::DeviceOwnerAuthenticationWithWatch => 3,
            LAPolicy::DeviceOwnerAuthenticationWithBiometricsOrWatch => 4,
            LAPolicy::DeviceOwnerAuthenticationWithWristDetection => 5,
        }
    }

    /// Looks a policy up by its native integer. `None` for every integer that
    /// is bound to no policy.
    pub fn from_code(code: i32) -> (p: Option<LAPolicy>)
        ensures
            p == LAPolicy::of_abi_code(code as int),
    {
        if code == 1 {
            Some(LAPolicy::DeviceOwnerAuthenticationWithBiometrics)
        } else if code == 2 {
            Some(LAPolicy::DeviceOwnerAuthentication)
        } else if code == 3 {
            Some(LAPolicy::DeviceOwnerAuthenticationWithWatch)
        } else if code == 4 {
            Some(LAPolicy::DeviceOwnerAuthenticationWithBiometricsOrWatch)
        } else if code == 5 {
            Some(LAPolicy::DeviceOwnerAuthenticationWithWristDetection)
        } else {
            None
        }
    }
}

/// The policy table is a bijection between the five policies and the integers
/// one to five: looking up a policy's code gives the policy back, a lookup
/// that succeeds gives a policy with the code asked for, and two policies never
/// share a code.
pub proof fn policy_codes_are_a_bijection(p: LAPolicy, q: LAPolicy, code: int)
    ensures
        LAPolicy::of_abi_code(p.abi_code()) == Some(p),
        LAPolicy::of_abi_code(code) matches Some(r) ==> r.abi_code() == code,
        LAPolicy::of_abi_code(code) is Some <==> 1 <= code <= 5,
        p.abi_code() == q.abi_code() ==> p == q,
{
}

} // verus!
