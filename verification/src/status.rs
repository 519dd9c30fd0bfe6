//! What a backend reports, and how a call can fail.

use vstd::prelude::*;

verus! {

/// The report of one call across the native boundary: a code, zero for
/// success, and a diagnostic text.
#[derive(Debug, Clone, PartialEq, Eq)]
pub struct StatusCode {
    pub code: i32,
    pub message: String,
}

impl StatusCode {
    /// Whether the call it reports on succeeded.
    pub open spec fn is_success(&self) -> bool {
        self.code == 0
    }

    /// The report of a successful call, without text.
    pub fn success() -> (s: StatusCode)
        ensures
            s.code == 0,
            s.message@ == Seq::<char>::empty(),
    {
        StatusCode { code: 0, message: String::new() }
    }

    /// A report with the given code and text.
    pub fn new(code: i32, message: String) -> (s: StatusCode)
        ensures
            s == (StatusCode { code, message }),
    {
        StatusCode { code, message }
    }

    #[verifier::when_used_as_spec(is_success)]
    pub fn succeeded(&self) -> (ok: bool)
        ensures
            ok == self.is_success(),
    {
        self.code == 0
    }
}

/// Why a call did not produce a result.
#[derive(Debug, Clone, PartialEq, Eq)]
pub enum MsmError {
    /// The point and scalar slices of a one-shot call differ in length.
    LengthMismatch,
    /// A scalar batch is longer than the point set of its context.
    InsufficientPoints,
    /// The context was never initialised, or its device memory is released.
    UninitializedContext,
    /// Building the device context reported a nonzero status.
    DeviceInitFailure { code: i32, message: String },
    /// A compute call reported a nonzero status.
    NativeBackendFailure { code: i32, message: String },
    /// The coordinates that a backend returned do not encode a group element.
    InvalidPoint,
}

impl MsmError {
    /// Whether the caller can go on by another path: true of the failures
    /// that validation finds, false of those that a backend reports.
    pub open spec fn is_recoverable(&self) -> bool {
        self is LengthMismatch || self is InsufficientPoints
    }

    #[verifier::when_used_as_spec(is_recoverable)]
    pub fn recoverable(&self) -> (r: bool)
        ensures
            r == self.is_recoverable(),
    {
        match self {
            MsmError::LengthMismatch => true,
            MsmError::InsufficientPoints => true,
            _ => false,
        }
    }

    /// The text that says what went wrong: for a failure that a backend
    /// reported, the backend's own text.
    pub open spec fn text(self) -> Seq<char> {
        match self {
            MsmError::LengthMismatch => "length mismatch"@,
            MsmError::InsufficientPoints => "not enough points"@,
            MsmError::UninitializedContext => "not initialized"@,
            MsmError::DeviceInitFailure { message, .. } => message@,
            MsmError::NativeBackendFailure { message, .. } => message@,
            MsmError::InvalidPoint => "invalid point"@,
        }
    }

    pub fn message(&self) -> (r: String)
        ensures
            r@ == self.text(),
    {
        match self {
            MsmError::LengthMismatch => "length mismatch".to_owned(),
            MsmError::InsufficientPoints => "not enough points".to_owned(),
            MsmError::UninitializedContext => "not initialized".to_owned(),
            MsmError::DeviceInitFailure { message, .. } => message.clone(),
            MsmError::NativeBackendFailure { message, .. } => message.clone(),
            MsmError::InvalidPoint => "invalid point".to_owned(),
        }
    }

    /// The status that a backend reported, where the failure carries one.
    pub open spec fn backend_code(self) -> Option<i32> {
        match self {
            MsmError::DeviceInitFailure { code, .. } => Some(code),
            MsmError::NativeBackendFailure { code, .. } => Some(code),
            _ => None,
        }
    }

    pub fn code(&self) -> (r: Option<i32>)
        ensures
            r == self.backend_code(),
    {
        match self {
            MsmError::DeviceInitFailure { code, .. } => Some(*code),
            MsmError::NativeBackendFailure { code, .. } => Some(*code),
            _ => None,
        }
    }
}

/// The failure that a compute call's report stands for, if it is one:
/// the report's code and text, unchanged.
pub open spec fn compute_failure(status: StatusCode) -> Option<MsmError> {
    if status.code == 0 {
        None
    } else {
        Some(MsmError::NativeBackendFailure { code: status.code, message: status.message })
    }
}

/// The failure that a device-initialisation report stands for, if it is one.
pub open spec fn init_failure(status: StatusCode) -> Option<MsmError> {
    if status.code == 0 {
        None
    } else {
        Some(MsmError::DeviceInitFailure { code: status.code, message: status.message })
    }
}

/// Maps the report of a compute call: nothing for success, else the
/// failure with the report's own code and text.
pub fn check_compute(status: StatusCode) -> (r: Result<(), MsmError>)
    ensures
        r == match compute_failure(status) {
            Some(e) => Err::<(), MsmError>(e),
            None => Ok(()),
        },
{
    if status.code == 0 {
        Ok(())
    } else {
        Err(MsmError::NativeBackendFailure { code: status.code, message: status.message })
    }
}

/// Maps the report of a device initialisation in the same way.
pub fn check_init(status: StatusCode) -> (r: Result<(), MsmError>)
    ensures
        r == match init_failure(status) {
            Some(e) => Err::<(), MsmError>(e),
            None => Ok(()),
        },
{
    if status.code == 0 {
        Ok(())
    } else {
        Err(MsmError::DeviceInitFailure { code: status.code, message: status.message })
    }
}

} // verus!
