//! The collector abstraction shared by every platform.
//!
//! A collector produces the canonical connection list from one raw
//! data source.  Each implementation states, through the spec
//! functions of [`NetworkProvider`], exactly which list or error each
//! of its operations yields, so a caller reasoning through the trait
//! loses nothing.  Source-level failures surface as a typed
//! [`NetworkError`]; row-level anomalies never do — a malformed row is
//! dropped by the decoders, not reported.

use vstd::prelude::*;
use crate::models::{ConnectionInfo, ConnectionRec, conns_view};
use crate::unified::{UnifiedNetworkProvider, NativeProvider};

verus! {

/// Builds the orchestrating provider around the native collector
/// chosen for the running platform, if any.
pub fn create_network_provider(native: Option<NativeProvider>) -> (r: UnifiedNetworkProvider)
    ensures
        r.native == native,
{
    UnifiedNetworkProvider::new(native)
}

/// The failures a collector can report.
#[derive(Debug)]
pub enum NetworkError {
    /// No collector serves the running platform.
    UnsupportedPlatform(String),
    /// The source exists but may not be read by this user.
    PermissionDenied(String),
    /// The native table call returned a non-success status.
    SystemCallFailed(String),
    /// An expected pseudo-file is missing or unreadable.
    FileSystemError(String),
    /// The external diagnostic command is missing or exited non-zero.
    CommandFailed(String),
    /// A source was structurally invalid where the caller must know
    /// decoding failed outright.
    ParseError(String),
    /// Any other input/output failure.
    IoError(String),
}

/// Mathematical image of a [`NetworkError`]: the same variants with
/// the detail text abstracted to a character sequence.
pub ghost enum ErrorRec {
    UnsupportedPlatform(Seq<char>),
    PermissionDenied(Seq<char>),
    SystemCallFailed(Seq<char>),
    FileSystemError(Seq<char>),
    CommandFailed(Seq<char>),
    ParseError(Seq<char>),
    IoError(Seq<char>),
}

impl View for NetworkError {
    type V = ErrorRec;

    open spec fn view(&self) -> ErrorRec {
        match self {
            NetworkError::UnsupportedPlatform(m) => ErrorRec::UnsupportedPlatform(m@),
            NetworkError::PermissionDenied(m) => ErrorRec::PermissionDenied(m@),
            NetworkError::SystemCallFailed(m) => ErrorRec::SystemCallFailed(m@),
            NetworkError::FileSystemError(m) => ErrorRec::FileSystemError(m@),
            NetworkError::CommandFailed(m) => ErrorRec::CommandFailed(m@),
            NetworkError::ParseError(m) => ErrorRec::ParseError(m@),
            NetworkError::IoError(m) => ErrorRec::IoError(m@),
        }
    }
}

impl Clone for NetworkError {
    fn clone(&self) -> (r: Self)
        ensures
            r@ == self@,
    {
        match self {
            NetworkError::UnsupportedPlatform(m) => NetworkError::UnsupportedPlatform(m.clone()),
            NetworkError::PermissionDenied(m) => NetworkError::PermissionDenied(m.clone()),
            NetworkError::SystemCallFailed(m) => NetworkError::SystemCallFailed(m.clone()),
            NetworkError::FileSystemError(m) => NetworkError::FileSystemError(m.clone()),
            NetworkError::CommandFailed(m) => NetworkError::CommandFailed(m.clone()),
            NetworkError::ParseError(m) => NetworkError::ParseError(m.clone()),
            NetworkError::IoError(m) => NetworkError::IoError(m.clone()),
        }
    }
}

/// The text of an error message: a fixed label for the variant,
/// followed by the detail.
pub open spec fn spec_error_message(e: ErrorRec) -> Seq<char> {
    match e {
        ErrorRec::UnsupportedPlatform(m) => "Unsupported platform: "@ + m,
        ErrorRec::PermissionDenied(m) => "Permission denied: "@ + m,
        ErrorRec::SystemCallFailed(m) => "System call failed: "@ + m,
        ErrorRec::FileSystemError(m) => "File system error: "@ + m,
        ErrorRec::CommandFailed(m) => "Command failed: "@ + m,
        ErrorRec::ParseError(m) => "Parse error: "@ + m,
        ErrorRec::IoError(m) => "I/O error: "@ + m,
    }
}

impl NetworkError {
    /// Renders the error as one line of text.
    pub fn message(&self) -> (r: String)
        ensures
            r@ == spec_error_message(self@),
    {
        match self {
            NetworkError::UnsupportedPlatform(m) => String::from_str("Unsupported platform: ")
                .concat(m.as_str()),
            NetworkError::PermissionDenied(m) => String::from_str("Permission denied: ").concat(
                m.as_str(),
            ),
            NetworkError::SystemCallFailed(m) => String::from_str("System call failed: ").concat(
                m.as_str(),
            ),
            NetworkError::FileSystemError(m) => String::from_str("File system error: ").concat(
                m.as_str(),
            ),
            NetworkError::CommandFailed(m) => String::from_str("Command failed: ").concat(
                m.as_str(),
            ),
            NetworkError::ParseError(m) => String::from_str("Parse error: ").concat(m.as_str()),
            NetworkError::IoError(m) => String::from_str("I/O error: ").concat(m.as_str()),
        }
    }
}

/// The image of a collector result: the list or the error, abstracted.
pub open spec fn result_view(r: Result<Vec<ConnectionInfo>, NetworkError>) -> Result<
    Seq<ConnectionRec>,
    ErrorRec,
> {
    match r {
        Ok(v) => Ok(conns_view(v@)),
        Err(e) => Err(e@),
    }
}

/// The uniform contract every collector implements.
///
/// The three enumeration methods rebuild the list from the raw source
/// snapshot on every call; `platform_name` is a fixed label, and
/// `is_supported` is a cheap probe that attempts no enumeration.
pub trait NetworkProvider: Sized {
    /// Which list or error enumerating both protocols yields.
    spec fn spec_all_connections(&self) -> Result<Seq<ConnectionRec>, ErrorRec>;

    /// Which list or error enumerating TCP yields.
    spec fn spec_tcp_connections(&self) -> Result<Seq<ConnectionRec>, ErrorRec>;

    /// Which list or error enumerating UDP yields.
    spec fn spec_udp_connections(&self) -> Result<Seq<ConnectionRec>, ErrorRec>;

    /// The platform label.
    spec fn spec_platform_name(&self) -> Seq<char>;

    /// Whether the collector's source is expected to work here.
    spec fn spec_supported(&self) -> bool;

    /// All active connections, TCP and UDP.
    fn get_all_connections(&self) -> (r: Result<Vec<ConnectionInfo>, NetworkError>)
        ensures
            result_view(r) == self.spec_all_connections(),
    ;

    /// TCP connections only.
    fn get_tcp_connections(&self) -> (r: Result<Vec<ConnectionInfo>, NetworkError>)
        ensures
            result_view(r) == self.spec_tcp_connections(),
    ;

    /// UDP connections only.
    fn get_udp_connections(&self) -> (r: Result<Vec<ConnectionInfo>, NetworkError>)
        ensures
            result_view(r) == self.spec_udp_connections(),
    ;

    /// The fixed platform label, for display.
    fn platform_name(&self) -> (r: &'static str)
        ensures
            r@ == self.spec_platform_name(),
    ;

    /// Probes, without enumerating, whether this collector can work.
    fn is_supported(&self) -> (r: bool)
        ensures
            r == self.spec_supported(),
    ;
}

} // verus!
