use vstd::prelude::*;
use vstd::string::StringExecFns;

verus! {

/// The error conditions of the diagnostics service.
///
/// Per-interface and per-port failures are swallowed by the callers and
/// folded into filtering; only whole-call failures are reported here.
#[derive(Debug, PartialEq, Eq)]
pub enum InterfaceError {
    /// The operating-system interface enumeration itself failed; the
    /// payload carries the underlying error message.
    GetIfAddrsError(String),
    /// A MAC-address lookup failed; the payload carries the underlying
    /// error message.
    MacAddressError(String),
    /// Enumeration succeeded but no usable interface remained.
    NoActiveInterfaces,
    /// The whole port range was scanned without finding a free port.
    NoAvailablePort,
    /// The bounded retry budget ran out before the range did.
    MaxRetriesExceeded,
    /// The operating system refused the operation.
    PermissionDenied,
    /// An unclassified failure, kept verbatim.
    Unknown(String),
}

/// The human-readable message of each error, as a sequence of characters.
pub open spec fn error_message(e: InterfaceError) -> Seq<char> {
    match e {
        InterfaceError::GetIfAddrsError(s) => "Failed to get network interfaces: "@ + s@,
        InterfaceError::MacAddressError(s) => "Failed to get MAC address: "@ + s@,
        InterfaceError::NoActiveInterfaces => "No active network interfaces found"@,
        InterfaceError::NoAvailablePort => "Failed to find available port"@,
        InterfaceError::MaxRetriesExceeded => "Maximum port retry attempts exceeded"@,
        InterfaceError::PermissionDenied => "Permission denied"@,
        InterfaceError::Unknown(s) => s@,
    }
}

impl InterfaceError {
    /// The short human-readable message that HTTP error responses carry.
    pub fn message(&self) -> (r: String)
        ensures
            r@ == error_message(*self),
    {
        match self {
            InterfaceError::GetIfAddrsError(s) => {
                String::from_str("Failed to get network interfaces: ").concat(s.as_str())
            },
            InterfaceError::MacAddressError(s) => {
                String::from_str("Failed to get MAC address: ").concat(s.as_str())
            },
            InterfaceError::NoActiveInterfaces => {
                String::from_str("No active network interfaces found")
            },
            InterfaceError::NoAvailablePort => String::from_str("Failed to find available port"),
            InterfaceError::MaxRetriesExceeded => {
                String::from_str("Maximum port retry attempts exceeded")
            },
            InterfaceError::PermissionDenied => String::from_str("Permission denied"),
            InterfaceError::Unknown(s) => s.clone(),
        }
    }
}

} // verus!
