//! Stable protocol-wide error codebook shared by every contract, and the
//! mapping of internal failure kinds into it.
use vstd::prelude::*;

verus! {

/// Stable protocol-wide error codebook.
///
/// The numeric values are stable so that clients can branch on errors
/// without depending on the human-readable messages.
#[derive(Copy, Clone, Debug, PartialEq, Eq, Structural)]
pub enum ProtocolError {
    Unauthorized,
    AlreadyInitialized,
    NotInitialized,
    InvalidAddress,
    InvalidAmount,
    InvalidConfiguration,
    InvalidState,
    InsufficientBalance,
    InsufficientCollateral,
    LimitExceeded,
    ReentrancyDetected,
    CrossContractFailure,
    SerializationFailure,
    Overflow,
    Underflow,
    UnsupportedOperation,
    NotFound,
    DeadlineExpired,
    DuplicateRequest,
    Unknown,
}

/// Convenience alias for the most common shared error type.
pub type ErrorKind = ProtocolError;

/// The stable numeric code of each protocol error.
pub open spec fn error_code(e: ProtocolError) -> u32 {
    match e {
        ProtocolError::Unauthorized => 1000,
        ProtocolError::AlreadyInitialized => 1001,
        ProtocolError::NotInitialized => 1002,
        ProtocolError::InvalidAddress => 1003,
        ProtocolError::InvalidAmount => 1004,
        ProtocolError::InvalidConfiguration => 1005,
        ProtocolError::InvalidState => 1006,
        ProtocolError::InsufficientBalance => 1007,
        ProtocolError::InsufficientCollateral => 1008,
        ProtocolError::LimitExceeded => 1009,
        ProtocolError::ReentrancyDetected => 1010,
        ProtocolError::CrossContractFailure => 1011,
        ProtocolError::SerializationFailure => 1012,
        ProtocolError::Overflow => 1013,
        ProtocolError::Underflow => 1014,
        ProtocolError::UnsupportedOperation => 1015,
        ProtocolError::NotFound => 1016,
        ProtocolError::DeadlineExpired => 1017,
        ProtocolError::DuplicateRequest => 1018,
        ProtocolError::Unknown => 1999,
    }
}

/// The error that a numeric code decodes to; unknown codes fail closed.
pub open spec fn error_from_code(code: u32) -> ProtocolError {
    if code == 1000 { ProtocolError::Unauthorized }
    else if code == 1001 { ProtocolError::AlreadyInitialized }
    else if code == 1002 { ProtocolError::NotInitialized }
    else if code == 1003 { ProtocolError::InvalidAddress }
    else if code == 1004 { ProtocolError::InvalidAmount }
    else if code == 1005 { ProtocolError::InvalidConfiguration }
    else if code == 1006 { ProtocolError::InvalidState }
    else if code == 1007 { ProtocolError::InsufficientBalance }
    else if code == 1008 { ProtocolError::InsufficientCollateral }
    else if code == 1009 { ProtocolError::LimitExceeded }
    else if code == 1010 { ProtocolError::ReentrancyDetected }
    else if code == 1011 { ProtocolError::CrossContractFailure }
    else if code == 1012 { ProtocolError::SerializationFailure }
    else if code == 1013 { ProtocolError::Overflow }
    else if code == 1014 { ProtocolError::Underflow }
    else if code == 1015 { ProtocolError::UnsupportedOperation }
    else if code == 1016 { ProtocolError::NotFound }
    else if code == 1017 { ProtocolError::DeadlineExpired }
    else if code == 1018 { ProtocolError::DuplicateRequest }
    else { ProtocolError::Unknown }
}

/// Human-readable message of each protocol error.
pub open spec fn error_message(e: ProtocolError) -> Seq<char> {
    match e {
        ProtocolError::Unauthorized => "Unauthorized action"@,
        ProtocolError::AlreadyInitialized => "Contract has already been initialized"@,
        ProtocolError::NotInitialized => "Contract state is not initialized"@,
        ProtocolError::InvalidAddress => "Address is invalid or missing"@,
        ProtocolError::InvalidAmount => "Amount is invalid"@,
        ProtocolError::InvalidConfiguration => "Configuration value is invalid"@,
        ProtocolError::InvalidState => "Operation is not valid for the current state"@,
        ProtocolError::InsufficientBalance => "Insufficient balance"@,
        ProtocolError::InsufficientCollateral => "Insufficient collateral"@,
        ProtocolError::LimitExceeded => "Requested value exceeds an allowed limit"@,
        ProtocolError::ReentrancyDetected => "Reentrancy was detected and blocked"@,
        ProtocolError::CrossContractFailure => "Cross-contract invocation failed"@,
        ProtocolError::SerializationFailure => "Failed to serialize or deserialize contract data"@,
        ProtocolError::Overflow => "Arithmetic overflow occurred"@,
        ProtocolError::Underflow => "Arithmetic underflow occurred"@,
        ProtocolError::UnsupportedOperation => "Operation is not supported"@,
        ProtocolError::NotFound => "Requested item was not found"@,
        ProtocolError::DeadlineExpired => "Deadline has expired"@,
        ProtocolError::DuplicateRequest => "Duplicate request was rejected"@,
        ProtocolError::Unknown => "An unknown contract error occurred"@,
    }
}

/// Operator guidance for each protocol error.
pub open spec fn error_hint(e: ProtocolError) -> Seq<char> {
    match e {
        ProtocolError::Unauthorized => "Check the signer, auth flow, or role assignment."@,
        ProtocolError::AlreadyInitialized => "Skip initialization or treat the call as idempotent."@,
        ProtocolError::NotInitialized => "Initialize the contract before retrying."@,
        ProtocolError::InvalidAddress => "Validate addresses before submitting the transaction."@,
        ProtocolError::InvalidAmount => "Clamp values to a positive non-zero range."@,
        ProtocolError::InvalidConfiguration => "Refresh configuration data or fix the submitted settings."@,
        ProtocolError::InvalidState => "Reload state and retry only after the required lifecycle step."@,
        ProtocolError::InsufficientBalance => "Surface the balance shortfall to the user."@,
        ProtocolError::InsufficientCollateral => "Ask the user to add collateral or reduce exposure."@,
        ProtocolError::LimitExceeded => "Reduce the requested amount or raise the configured limit."@,
        ProtocolError::ReentrancyDetected => "Retry only after the original call completes."@,
        ProtocolError::CrossContractFailure => "Inspect the downstream contract and propagate the wrapped code."@,
        ProtocolError::SerializationFailure => "Treat as a client or state integrity issue and fail safely."@,
        ProtocolError::Overflow => "Use smaller values or safer arithmetic before retrying."@,
        ProtocolError::Underflow => "Use smaller deductions or validate the input range first."@,
        ProtocolError::UnsupportedOperation => "Route the request to a supported contract entrypoint."@,
        ProtocolError::NotFound => "Re-read the entity identifier and refresh local cache state."@,
        ProtocolError::DeadlineExpired => "Submit a fresh transaction with a new deadline."@,
        ProtocolError::DuplicateRequest => "Deduplicate the request before retrying."@,
        ProtocolError::Unknown => "Log the numeric code and fail closed without panicking."@,
    }
}

impl ProtocolError {
    /// The stable numeric code of this error.
    pub fn code(self) -> (r: u32)
        ensures
            r == error_code(self),
    {
        match self {
            ProtocolError::Unauthorized => 1000,
            ProtocolError::AlreadyInitialized => 1001,
            ProtocolError::NotInitialized => 1002,
            ProtocolError::InvalidAddress => 1003,
            ProtocolError::InvalidAmount => 1004,
            ProtocolError::InvalidConfiguration => 1005,
            ProtocolError::InvalidState => 1006,
            ProtocolError::InsufficientBalance => 1007,
            ProtocolError::InsufficientCollateral => 1008,
            ProtocolError::LimitExceeded => 1009,
            ProtocolError::ReentrancyDetected => 1010,
            ProtocolError::CrossContractFailure => 1011,
            ProtocolError::SerializationFailure => 1012,
            ProtocolError::Overflow => 1013,
            ProtocolError::Underflow => 1014,
            ProtocolError::UnsupportedOperation => 1015,
            ProtocolError::NotFound => 1016,
            ProtocolError::DeadlineExpired => 1017,
            ProtocolError::DuplicateRequest => 1018,
            ProtocolError::Unknown => 1999,
        }
    }

    /// Human-readable message; the textual form of the error.
    pub fn message(self) -> (r: &'static str)
        ensures
            r@ == error_message(self),
    {
        match self {
            ProtocolError::Unauthorized => "Unauthorized action",
            ProtocolError::AlreadyInitialized => "Contract has already been initialized",
            ProtocolError::NotInitialized => "Contract state is not initialized",
            ProtocolError::InvalidAddress => "Address is invalid or missing",
            ProtocolError::InvalidAmount => "Amount is invalid",
            ProtocolError::InvalidConfiguration => "Configuration value is invalid",
            ProtocolError::InvalidState => "Operation is not valid for the current state",
            ProtocolError::InsufficientBalance => "Insufficient balance",
            ProtocolError::InsufficientCollateral => "Insufficient collateral",
            ProtocolError::LimitExceeded => "Requested value exceeds an allowed limit",
            ProtocolError::ReentrancyDetected => "Reentrancy was detected and blocked",
            ProtocolError::CrossContractFailure => "Cross-contract invocation failed",
            ProtocolError::SerializationFailure => "Failed to serialize or deserialize contract data",
            ProtocolError::Overflow => "Arithmetic overflow occurred",
            ProtocolError::Underflow => "Arithmetic underflow occurred",
            ProtocolError::UnsupportedOperation => "Operation is not supported",
            ProtocolError::NotFound => "Requested item was not found",
            ProtocolError::DeadlineExpired => "Deadline has expired",
            ProtocolError::DuplicateRequest => "Duplicate request was rejected",
            ProtocolError::Unknown => "An unknown contract error occurred",
        }
    }

    /// Guidance on how a client should handle this error.
    pub fn handling_hint(self) -> (r: &'static str)
        ensures
            r@ == error_hint(self),
    {
        match self {
            ProtocolError::Unauthorized => "Check the signer, auth flow, or role assignment.",
            ProtocolError::AlreadyInitialized => "Skip initialization or treat the call as idempotent.",
            ProtocolError::NotInitialized => "Initialize the contract before retrying.",
            ProtocolError::InvalidAddress => "Validate addresses before submitting the transaction.",
            ProtocolError::InvalidAmount => "Clamp values to a positive non-zero range.",
            ProtocolError::InvalidConfiguration => "Refresh configuration data or fix the submitted settings.",
            ProtocolError::InvalidState => "Reload state and retry only after the required lifecycle step.",
            ProtocolError::InsufficientBalance => "Surface the balance shortfall to the user.",
            ProtocolError::InsufficientCollateral => "Ask the user to add collateral or reduce exposure.",
            ProtocolError::LimitExceeded => "Reduce the requested amount or raise the configured limit.",
            ProtocolError::ReentrancyDetected => "Retry only after the original call completes.",
            ProtocolError::CrossContractFailure => "Inspect the downstream contract and propagate the wrapped code.",
            ProtocolError::SerializationFailure => "Treat as a client or state integrity issue and fail safely.",
            ProtocolError::Overflow => "Use smaller values or safer arithmetic before retrying.",
            ProtocolError::Underflow => "Use smaller deductions or validate the input range first.",
            ProtocolError::UnsupportedOperation => "Route the request to a supported contract entrypoint.",
            ProtocolError::NotFound => "Re-read the entity identifier and refresh local cache state.",
            ProtocolError::DeadlineExpired => "Submit a fresh transaction with a new deadline.",
            ProtocolError::DuplicateRequest => "Deduplicate the request before retrying.",
            ProtocolError::Unknown => "Log the numeric code and fail closed without panicking.",
        }
    }

    /// Decodes a numeric code; any code outside the codebook maps to `Unknown`.
    pub fn from_code(code: u32) -> (r: ProtocolError)
        ensures
            r == error_from_code(code),
    {
        match code {
            1000 => ProtocolError::Unauthorized,
            1001 => ProtocolError::AlreadyInitialized,
            1002 => ProtocolError::NotInitialized,
            1003 => ProtocolError::InvalidAddress,
            1004 => ProtocolError::InvalidAmount,
            1005 => ProtocolError::InvalidConfiguration,
            1006 => ProtocolError::InvalidState,
            1007 => ProtocolError::InsufficientBalance,
            1008 => ProtocolError::InsufficientCollateral,
            1009 => ProtocolError::LimitExceeded,
            1010 => ProtocolError::ReentrancyDetected,
            1011 => ProtocolError::CrossContractFailure,
            1012 => ProtocolError::SerializationFailure,
            1013 => ProtocolError::Overflow,
            1014 => ProtocolError::Underflow,
            1015 => ProtocolError::UnsupportedOperation,
            1016 => ProtocolError::NotFound,
            1017 => ProtocolError::DeadlineExpired,
            1018 => ProtocolError::DuplicateRequest,
            _ => ProtocolError::Unknown,
        }
    }
}

/// Encoding an error and decoding the code gives the same error back.
pub proof fn lemma_code_round_trip(e: ProtocolError)
    ensures
        error_from_code(error_code(e)) == e,
{
}

/// Decoding any code yields either the error whose code it is, or `Unknown`.
pub proof fn lemma_decode_is_exact_or_unknown(code: u32)
    ensures
        error_code(error_from_code(code)) == code || error_from_code(code) == ProtocolError::Unknown,
{
}

/// Distinct errors have distinct codes.
pub proof fn lemma_codes_distinct(a: ProtocolError, b: ProtocolError)
    requires
        a != b,
    ensures
        error_code(a) != error_code(b),
{
    lemma_code_round_trip(a);
    lemma_code_round_trip(b);
}

/// Length and first character of each hint; together they tell the hints apart.
pub open spec fn hint_key(e: ProtocolError) -> (nat, char) {
    match e {
        ProtocolError::Unauthorized => (48nat, 'C'),
        ProtocolError::AlreadyInitialized => (52nat, 'S'),
        ProtocolError::NotInitialized => (40nat, 'I'),
        ProtocolError::InvalidAddress => (53nat, 'V'),
        ProtocolError::InvalidAmount => (42nat, 'C'),
        ProtocolError::InvalidConfiguration => (57nat, 'R'),
        ProtocolError::InvalidState => (62nat, 'R'),
        ProtocolError::InsufficientBalance => (42nat, 'S'),
        ProtocolError::InsufficientCollateral => (50nat, 'A'),
        ProtocolError::LimitExceeded => (58nat, 'R'),
        ProtocolError::ReentrancyDetected => (45nat, 'R'),
        ProtocolError::CrossContractFailure => (63nat, 'I'),
        ProtocolError::SerializationFailure => (59nat, 'T'),
        ProtocolError::Overflow => (55nat, 'U'),
        ProtocolError::Underflow => (57nat, 'U'),
        ProtocolError::UnsupportedOperation => (53nat, 'R'),
        ProtocolError::NotFound => (60nat, 'R'),
        ProtocolError::DeadlineExpired => (47nat, 'S'),
        ProtocolError::DuplicateRequest => (40nat, 'D'),
        ProtocolError::Unknown => (55nat, 'L'),
    }
}

/// The error whose hint has the given length and first character.
pub open spec fn hint_owner(key: (nat, char)) -> ProtocolError {
    if key == (48nat, 'C') {
        ProtocolError::Unauthorized
    } else if key == (52nat, 'S') {
        ProtocolError::AlreadyInitialized
    } else if key == (40nat, 'I') {
        ProtocolError::NotInitialized
    } else if key == (53nat, 'V') {
        ProtocolError::InvalidAddress
    } else if key == (42nat, 'C') {
        ProtocolError::InvalidAmount
    } else if key == (57nat, 'R') {
        ProtocolError::InvalidConfiguration
    } else if key == (62nat, 'R') {
        ProtocolError::InvalidState
    } else if key == (42nat, 'S') {
        ProtocolError::InsufficientBalance
    } else if key == (50nat, 'A') {
        ProtocolError::InsufficientCollateral
    } else if key == (58nat, 'R') {
        ProtocolError::LimitExceeded
    } else if key == (45nat, 'R') {
        ProtocolError::ReentrancyDetected
    } else if key == (63nat, 'I') {
        ProtocolError::CrossContractFailure
    } else if key == (59nat, 'T') {
        ProtocolError::SerializationFailure
    } else if key == (55nat, 'U') {
        ProtocolError::Overflow
    } else if key == (57nat, 'U') {
        ProtocolError::Underflow
    } else if key == (53nat, 'R') {
        ProtocolError::UnsupportedOperation
    } else if key == (60nat, 'R') {
        ProtocolError::NotFound
    } else if key == (47nat, 'S') {
        ProtocolError::DeadlineExpired
    } else if key == (40nat, 'D') {
        ProtocolError::DuplicateRequest
    } else {
        ProtocolError::Unknown
    }
}

proof fn lemma_hint_key(e: ProtocolError)
    ensures
        error_hint(e).len() == hint_key(e).0,
        error_hint(e)[0] == hint_key(e).1,
        hint_owner(hint_key(e)) == e,
{
    match e {
        ProtocolError::Unauthorized => { reveal_strlit("Check the signer, auth flow, or role assignment."); },
        ProtocolError::AlreadyInitialized => { reveal_strlit("Skip initialization or treat the call as idempotent."); },
        ProtocolError::NotInitialized => { reveal_strlit("Initialize the contract before retrying."); },
        ProtocolError::InvalidAddress => { reveal_strlit("Validate addresses before submitting the transaction."); },
        ProtocolError::InvalidAmount => { reveal_strlit("Clamp values to a positive non-zero range."); },
        ProtocolError::InvalidConfiguration => { reveal_strlit("Refresh configuration data or fix the submitted settings."); },
        ProtocolError::InvalidState => { reveal_strlit("Reload state and retry only after the required lifecycle step."); },
        ProtocolError::InsufficientBalance => { reveal_strlit("Surface the balance shortfall to the user."); },
        ProtocolError::InsufficientCollateral => { reveal_strlit("Ask the user to add collateral or reduce exposure."); },
        ProtocolError::LimitExceeded => { reveal_strlit("Reduce the requested amount or raise the configured limit."); },
        ProtocolError::ReentrancyDetected => { reveal_strlit("Retry only after the original call completes."); },
        ProtocolError::CrossContractFailure => { reveal_strlit("Inspect the downstream contract and propagate the wrapped code."); },
        ProtocolError::SerializationFailure => { reveal_strlit("Treat as a client or state integrity issue and fail safely."); },
        ProtocolError::Overflow => { reveal_strlit("Use smaller values or safer arithmetic before retrying."); },
        ProtocolError::Underflow => { reveal_strlit("Use smaller deductions or validate the input range first."); },
        ProtocolError::UnsupportedOperation => { reveal_strlit("Route the request to a supported contract entrypoint."); },
        ProtocolError::NotFound => { reveal_strlit("Re-read the entity identifier and refresh local cache state."); },
        ProtocolError::DeadlineExpired => { reveal_strlit("Submit a fresh transaction with a new deadline."); },
        ProtocolError::DuplicateRequest => { reveal_strlit("Deduplicate the request before retrying."); },
        ProtocolError::Unknown => { reveal_strlit("Log the numeric code and fail closed without panicking."); },
    }
}

/// Every hint is non-empty, and distinct errors have distinct hints.
pub proof fn lemma_hints_distinct(a: ProtocolError, b: ProtocolError)
    ensures
        error_hint(a).len() > 0,
        a != b ==> error_hint(a) != error_hint(b),
{
    lemma_hint_key(a);
    lemma_hint_key(b);
    if a != b && error_hint(a) == error_hint(b) {
        assert(hint_key(a) == hint_key(b));
    }
}

/// Internal validation failures that map to the public codebook.
#[derive(Copy, Clone, Debug, PartialEq, Eq, Structural)]
pub enum ValidationError {
    InvalidAddress,
    InvalidAmount,
    InvalidConfiguration,
    InvalidState,
    LimitExceeded,
    NotFound,
}

impl From<ValidationError> for ProtocolError {
    fn from(value: ValidationError) -> (r: Self) {
        match value {
            ValidationError::InvalidAddress => ProtocolError::InvalidAddress,
            ValidationError::InvalidAmount => ProtocolError::InvalidAmount,
            ValidationError::InvalidConfiguration => ProtocolError::InvalidConfiguration,
            ValidationError::InvalidState => ProtocolError::InvalidState,
            ValidationError::LimitExceeded => ProtocolError::LimitExceeded,
            ValidationError::NotFound => ProtocolError::NotFound,
        }
    }
}

impl vstd::std_specs::convert::FromSpecImpl<ValidationError> for ProtocolError {
    open spec fn obeys_from_spec() -> bool {
        true
    }

    open spec fn from_spec(value: ValidationError) -> ProtocolError {
        match value {
            ValidationError::InvalidAddress => ProtocolError::InvalidAddress,
            ValidationError::InvalidAmount => ProtocolError::InvalidAmount,
            ValidationError::InvalidConfiguration => ProtocolError::InvalidConfiguration,
            ValidationError::InvalidState => ProtocolError::InvalidState,
            ValidationError::LimitExceeded => ProtocolError::LimitExceeded,
            ValidationError::NotFound => ProtocolError::NotFound,
        }
    }
}

/// Internal lifecycle failures that map to the public codebook.
#[derive(Copy, Clone, Debug, PartialEq, Eq, Structural)]
pub enum InitializationError {
    AlreadyInitialized,
    NotInitialized,
    InvalidConfiguration,
}

impl From<InitializationError> for ProtocolError {
    fn from(value: InitializationError) -> (r: Self) {
        match value {
            InitializationError::AlreadyInitialized => ProtocolError::AlreadyInitialized,
            InitializationError::NotInitialized => ProtocolError::NotInitialized,
            InitializationError::InvalidConfiguration => ProtocolError::InvalidConfiguration,
        }
    }
}

impl vstd::std_specs::convert::FromSpecImpl<InitializationError> for ProtocolError {
    open spec fn obeys_from_spec() -> bool {
        true
    }

    open spec fn from_spec(value: InitializationError) -> ProtocolError {
        match value {
            InitializationError::AlreadyInitialized => ProtocolError::AlreadyInitialized,
            InitializationError::NotInitialized => ProtocolError::NotInitialized,
            InitializationError::InvalidConfiguration => ProtocolError::InvalidConfiguration,
        }
    }
}

/// Internal storage and runtime failures that must never panic at the edge.
#[derive(Copy, Clone, Debug, PartialEq, Eq, Structural)]
pub enum StorageError {
    SerializationFailure,
    NotInitialized,
    NotFound,
}

impl From<StorageError> for ProtocolError {
    fn from(value: StorageError) -> (r: Self) {
        match value {
            StorageError::SerializationFailure => ProtocolError::SerializationFailure,
            StorageError::NotInitialized => ProtocolError::NotInitialized,
            StorageError::NotFound => ProtocolError::NotFound,
        }
    }
}

impl vstd::std_specs::convert::FromSpecImpl<StorageError> for ProtocolError {
    open spec fn obeys_from_spec() -> bool {
        true
    }

    open spec fn from_spec(value: StorageError) -> ProtocolError {
        match value {
            StorageError::SerializationFailure => ProtocolError::SerializationFailure,
            StorageError::NotInitialized => ProtocolError::NotInitialized,
            StorageError::NotFound => ProtocolError::NotFound,
        }
    }
}

/// Internal cross-contract failures that map to the public codebook.
#[derive(Copy, Clone, Debug, PartialEq, Eq, Structural)]
pub enum CrossContractError {
    Failed,
    UnsupportedOperation,
    DeadlineExpired,
    DuplicateRequest,
}

impl From<CrossContractError> for ProtocolError {
    fn from(value: CrossContractError) -> (r: Self) {
        match value {
            CrossContractError::Failed => ProtocolError::CrossContractFailure,
            CrossContractError::UnsupportedOperation => ProtocolError::UnsupportedOperation,
            CrossContractError::DeadlineExpired => ProtocolError::DeadlineExpired,
            CrossContractError::DuplicateRequest => ProtocolError::DuplicateRequest,
        }
    }
}

impl vstd::std_specs::convert::FromSpecImpl<CrossContractError> for ProtocolError {
    open spec fn obeys_from_spec() -> bool {
        true
    }

    open spec fn from_spec(value: CrossContractError) -> ProtocolError {
        match value {
            CrossContractError::Failed => ProtocolError::CrossContractFailure,
            CrossContractError::UnsupportedOperation => ProtocolError::UnsupportedOperation,
            CrossContractError::DeadlineExpired => ProtocolError::DeadlineExpired,
            CrossContractError::DuplicateRequest => ProtocolError::DuplicateRequest,
        }
    }
}

} // verus!
