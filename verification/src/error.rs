//! Closed error taxonomy with severity and recoverability predicates.

use vstd::prelude::*;

verus! {

/// Severity of an error condition.
#[derive(Debug, Clone, Copy, PartialEq, Eq, Structural)]
pub enum ErrorSeverity {
    /// Informational; no threat to the mission.
    Low,
    /// Degraded behaviour that operators should know about.
    Medium,
    /// Serious failure of an operation.
    High,
    /// Failure that endangers the mission.
    Critical,
}

/// Memory error subtypes.
#[derive(Debug, Clone, Copy, PartialEq, Eq, Structural)]
pub enum MemoryErrorType {
    /// Allocation failure.
    AllocationFailed,
    /// Buffer overflow prevention.
    BufferOverflow,
    /// Out of memory condition.
    OutOfMemory,
    /// Memory corruption detected.
    CorruptionDetected,
}

/// Cryptographic operation types.
#[derive(Debug, Clone, Copy, PartialEq, Eq, Structural)]
pub enum CryptoOperation {
    /// Encryption operation.
    Encryption,
    /// Decryption operation.
    Decryption,
    /// Digital signature creation.
    Signing,
    /// Digital signature verification.
    Verification,
    /// Key generation.
    KeyGeneration,
    /// Key exchange.
    KeyExchange,
}

/// The closed set of error kinds of the communication stack.
#[derive(Debug, Clone, PartialEq, Eq)]
pub enum SpaceCommError {
    /// A communication operation exceeded its time limit.
    CommunicationTimeout {
        /// Duration of the timeout in milliseconds.
        timeout_ms: u64,
        /// Operation that timed out.
        operation: &'static str,
    },
    /// A packet does not conform to the expected format.
    InvalidPacket {
        /// Reason for packet invalidity.
        reason: &'static str,
        /// Packet ID if available.
        packet_id: Option<u32>,
    },
    /// A hardware component failed.
    HardwareFailure {
        /// Name of the failed component.
        component: &'static str,
        /// Error code reported by the hardware.
        error_code: u32,
    },
    /// Memory allocation or management error.
    MemoryError {
        /// Kind of memory error.
        error_type: MemoryErrorType,
        /// Size of the allocation that failed, if applicable.
        size: Option<usize>,
    },
    /// A cryptographic operation failed.
    CryptographicError {
        /// The operation that failed.
        operation: CryptoOperation,
        /// Specific error details.
        details: &'static str,
    },
    /// Protocol violation or incompatibility.
    ProtocolError {
        /// Expected protocol version.
        expected_version: u8,
        /// Received protocol version.
        received_version: u8,
        /// Protocol name.
        protocol: &'static str,
    },
    /// A system resource other than memory is exhausted.
    ResourceExhausted {
        /// Kind of resource.
        resource: &'static str,
        /// Current usage level.
        current_usage: u32,
        /// Maximum allowed usage.
        max_usage: u32,
    },
    /// Invalid configuration parameter or system setup.
    ConfigurationError {
        /// Parameter that is invalid.
        parameter: &'static str,
        /// Invalid value.
        value: &'static str,
        /// Why the value is invalid.
        reason: &'static str,
    },
    /// A data integrity check failed.
    IntegrityError {
        /// Kind of integrity check that failed.
        check_type: &'static str,
        /// Expected checksum or hash.
        expected: &'static str,
        /// Calculated checksum or hash.
        calculated: &'static str,
    },
}

impl SpaceCommError {
    /// Create a communication timeout error.
    pub fn communication_timeout(timeout_ms: u64, operation: &'static str) -> (r: Self)
        ensures
            r == (SpaceCommError::CommunicationTimeout { timeout_ms, operation }),
    {
        SpaceCommError::CommunicationTimeout { timeout_ms, operation }
    }

    /// Create an invalid packet error.
    pub fn invalid_packet(reason: &'static str, packet_id: Option<u32>) -> (r: Self)
        ensures
            r == (SpaceCommError::InvalidPacket { reason, packet_id }),
    {
        SpaceCommError::InvalidPacket { reason, packet_id }
    }

    /// Create a hardware failure error.
    pub fn hardware_failure(component: &'static str, error_code: u32) -> (r: Self)
        ensures
            r == (SpaceCommError::HardwareFailure { component, error_code }),
    {
        SpaceCommError::HardwareFailure { component, error_code }
    }

    /// Create a memory error.
    pub fn memory_error(error_type: MemoryErrorType, size: Option<usize>) -> (r: Self)
        ensures
            r == (SpaceCommError::MemoryError { error_type, size }),
    {
        SpaceCommError::MemoryError { error_type, size }
    }

    /// Create a cryptographic error.
    pub fn cryptographic_error(operation: CryptoOperation, details: &'static str) -> (r: Self)
        ensures
            r == (SpaceCommError::CryptographicError { operation, details }),
    {
        SpaceCommError::CryptographicError { operation, details }
    }

    /// Create a configuration error.
    pub fn configuration_error(parameter: &'static str, value: &'static str, reason: &'static str) -> (r: Self)
        ensures
            r == (SpaceCommError::ConfigurationError { parameter, value, reason }),
    {
        SpaceCommError::ConfigurationError { parameter, value, reason }
    }

    /// Whether the condition may be temporary and worth retrying.
    /// Timeouts and resource exhaustion are recoverable; of the memory
    /// errors only a failed allocation is.
    pub fn is_recoverable(&self) -> (r: bool)
        ensures
            r == self.spec_is_recoverable(),
    {
        match self {
            SpaceCommError::CommunicationTimeout { .. } => true,
            SpaceCommError::ResourceExhausted { .. } => true,
            SpaceCommError::MemoryError { error_type, .. } => {
                matches!(error_type, MemoryErrorType::AllocationFailed)
            },
            _ => false,
        }
    }

    /// Whether the condition may be temporary and worth retrying.
    pub open spec fn spec_is_recoverable(self) -> bool {
        match self {
            SpaceCommError::CommunicationTimeout { .. } => true,
            SpaceCommError::ResourceExhausted { .. } => true,
            SpaceCommError::MemoryError { error_type, .. } => error_type is AllocationFailed,
            _ => false,
        }
    }

    /// Severity of the error: hardware, memory, cryptographic and integrity
    /// failures are critical; timeouts are low; everything else is medium.
    pub fn severity(&self) -> (r: ErrorSeverity)
        ensures
            r == self.spec_severity(),
    {
        match self {
            SpaceCommError::CommunicationTimeout { .. } => ErrorSeverity::Low,
            SpaceCommError::InvalidPacket { .. } => ErrorSeverity::Medium,
            SpaceCommError::HardwareFailure { .. } => ErrorSeverity::Critical,
            SpaceCommError::MemoryError { .. } => ErrorSeverity::Critical,
            SpaceCommError::CryptographicError { .. } => ErrorSeverity::Critical,
            SpaceCommError::ProtocolError { .. } => ErrorSeverity::Medium,
            SpaceCommError::ResourceExhausted { .. } => ErrorSeverity::Medium,
            SpaceCommError::ConfigurationError { .. } => ErrorSeverity::Medium,
            SpaceCommError::IntegrityError { .. } => ErrorSeverity::Critical,
        }
    }

    /// Severity of the error.
    pub open spec fn spec_severity(self) -> ErrorSeverity {
        match self {
            SpaceCommError::CommunicationTimeout { .. } => ErrorSeverity::Low,
            SpaceCommError::InvalidPacket { .. } => ErrorSeverity::Medium,
            SpaceCommError::HardwareFailure { .. } => ErrorSeverity::Critical,
            SpaceCommError::MemoryError { .. } => ErrorSeverity::Critical,
            SpaceCommError::CryptographicError { .. } => ErrorSeverity::Critical,
            SpaceCommError::ProtocolError { .. } => ErrorSeverity::Medium,
            SpaceCommError::ResourceExhausted { .. } => ErrorSeverity::Medium,
            SpaceCommError::ConfigurationError { .. } => ErrorSeverity::Medium,
            SpaceCommError::IntegrityError { .. } => ErrorSeverity::Critical,
        }
    }

    /// A short human-readable description: the error kind's name followed
    /// by its timeout, code or reason where one exists.
    pub fn describe(&self) -> (r: String)
        ensures
            (self matches SpaceCommError::CommunicationTimeout { timeout_ms, operation } ==> r@ =~= (
                "Communication timeout (ms): "@ + int_text(timeout_ms as nat)
                + " during "@ + operation@
            )),
            (self matches SpaceCommError::InvalidPacket { reason, .. } ==> r@ =~= "Invalid packet: "@ + reason@),
            (self matches SpaceCommError::ConfigurationError { parameter, reason, .. } ==> r@ =~= (
                "Configuration error: "@ + parameter@
                + " ("@ + reason@ + ")"@
            )),
    {
        match self {
            SpaceCommError::CommunicationTimeout { timeout_ms, operation } => {
                let mut s = new_string("Communication timeout (ms): ");
                append_u64_text(&mut s, *timeout_ms);
                append_str(&mut s, " during ");
                append_str(&mut s, operation);
                s
            },
            SpaceCommError::InvalidPacket { reason, .. } => {
                let mut s = new_string("Invalid packet: ");
                append_str(&mut s, reason);
                s
            },
            SpaceCommError::HardwareFailure { component, .. } => {
                let mut s = new_string("Hardware failure in ");
                append_str(&mut s, component);
                s
            },
            SpaceCommError::MemoryError { .. } => new_string("Memory error"),
            SpaceCommError::CryptographicError { details, .. } => {
                let mut s = new_string("Cryptographic error: ");
                append_str(&mut s, details);
                s
            },
            SpaceCommError::ProtocolError { protocol, .. } => {
                let mut s = new_string("Protocol error in ");
                append_str(&mut s, protocol);
                s
            },
            SpaceCommError::ResourceExhausted { resource, .. } => {
                let mut s = new_string("Resource exhausted: ");
                append_str(&mut s, resource);
                s
            },
            SpaceCommError::ConfigurationError { parameter, reason, .. } => {
                let mut s = new_string("Configuration error: ");
                append_str(&mut s, parameter);
                append_str(&mut s, " (");
                append_str(&mut s, reason);
                append_str(&mut s, ")");
                s
            },
            SpaceCommError::IntegrityError { check_type, .. } => {
                let mut s = new_string("Integrity check failed: ");
                append_str(&mut s, check_type);
                s
            },
        }
    }
}

/// The decimal digits of `n`, most significant first.
pub open spec fn int_text(n: nat) -> Seq<char>
    decreases n,
{
    if n < 10 {
        seq![digit_char(n)]
    } else {
        int_text(n / 10).push(digit_char(n % 10))
    }
}

/// The character for a single decimal digit.
pub open spec fn digit_char(d: nat) -> char {
    if d == 0 { '0' }
    else if d == 1 { '1' }
    else if d == 2 { '2' }
    else if d == 3 { '3' }
    else if d == 4 { '4' }
    else if d == 5 { '5' }
    else if d == 6 { '6' }
    else if d == 7 { '7' }
    else if d == 8 { '8' }
    else { '9' }
}

/// Relies on str::to_string: the resulting string holds exactly the
/// characters of the slice.
#[verifier::external_body]
pub(crate) fn new_string(s: &str) -> (r: String)
    ensures
        r@ == s@,
{
    s.to_string()
}

/// Relies on String::push_str: appends the characters of the slice.
#[verifier::external_body]
pub(crate) fn append_str(s: &mut String, t: &str)
    ensures
        final(s)@ == old(s)@ + t@,
{
    s.push_str(t)
}

/// Append the decimal digits of `n` to `s`.
pub(crate) fn append_u64_text(s: &mut String, n: u64)
    ensures
        final(s)@ == old(s)@ + int_text(n as nat),
    decreases n,
{
    if n < 10 {
        push_digit(s, (n % 10) as u8);
    } else {
        append_u64_text(s, n / 10);
        push_digit(s, (n % 10) as u8);
    }
}

/// Relies on String::push: appends one character.
#[verifier::external_body]
fn push_char(s: &mut String, c: char)
    ensures
        final(s)@ == old(s)@.push(c),
{
    s.push(c)
}

/// Append the character of one decimal digit to `s`.
fn push_digit(s: &mut String, d: u8)
    requires
        d < 10,
    ensures
        final(s)@ == old(s)@.push(digit_char(d as nat)),
{
    let c: char = match d {
        0 => '0',
        1 => '1',
        2 => '2',
        3 => '3',
        4 => '4',
        5 => '5',
        6 => '6',
        7 => '7',
        8 => '8',
        _ => '9',
    };
    push_char(s, c);
}

} // verus!
