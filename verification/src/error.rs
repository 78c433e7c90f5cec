//! Errors of printer queries and monitoring.

use vstd::prelude::*;
use vstd::string::*;

verus! {

#[verifier::external_type_specification]
#[verifier::external_body]
pub struct ExIoError(std::io::Error);

/// What can go wrong when printers are queried or monitored.
#[derive(Debug)]
pub enum PrinterError {
    /// The management service could not be reached or queried.
    WmiError(String),
    /// The printing system could not be reached or queried.
    CupsError(String),
    /// No printer has the given name.
    PrinterNotFound(String),
    /// There is no way to query printers on this platform.
    PlatformNotSupported,
    /// An input or output operation failed.
    IoError(std::io::Error),
    /// Anything else.
    Other(String),
}

/// The message of an error whose text is fixed by what it holds; nothing for
/// an input or output error, whose text the operating system words.
pub open spec fn fixed_message(error: PrinterError) -> Option<Seq<char>> {
    match error {
        PrinterError::WmiError(msg) => Some("WMI error: "@ + msg@),
        PrinterError::CupsError(msg) => Some("CUPS error: "@ + msg@),
        PrinterError::PrinterNotFound(name) => Some("Printer '"@ + name@ + "' not found"@),
        PrinterError::PlatformNotSupported => Some("This platform is not supported"@),
        PrinterError::IoError(_) => None,
        PrinterError::Other(msg) => Some(msg@),
    }
}

/// The words with which the message of an input or output error begins.
pub open spec fn io_error_prefix() -> Seq<char> {
    "I/O error: "@
}

/// The error that a panicked monitoring task is reported as.
pub open spec fn panic_message(detail: Seq<char>) -> Seq<char> {
    "Task panicked: "@ + detail
}

/// Calls `to_string` of `std::io::Error`, which words the error as the
/// operating system does.  Nothing is claimed of the text.
#[verifier::external_body]
fn io_error_text(error: &std::io::Error) -> (s: String) {
    error.to_string()
}

impl PrinterError {
    /// Returns the message of this error.
    pub fn to_string(&self) -> (s: String)
        ensures
            match fixed_message(*self) {
                Some(text) => s@ == text,
                None => io_error_prefix().is_prefix_of(s@),
            },
    {
        match self {
            PrinterError::WmiError(msg) => {
                let mut s = String::from_str("WMI error: ");
                s.append(msg.as_str());
                s
            },
            PrinterError::CupsError(msg) => {
                let mut s = String::from_str("CUPS error: ");
                s.append(msg.as_str());
                s
            },
            PrinterError::PrinterNotFound(name) => {
                let mut s = String::from_str("Printer '");
                s.append(name.as_str());
                s.append("' not found");
                s
            },
            PrinterError::PlatformNotSupported => String::from_str(
                "This platform is not supported",
            ),
            PrinterError::IoError(err) => {
                let mut s = String::from_str("I/O error: ");
                let detail = io_error_text(err);
                s.append(detail.as_str());
                assert(s@.subrange(0, io_error_prefix().len() as int) =~= io_error_prefix());
                s
            },
            PrinterError::Other(msg) => msg.clone(),
        }
    }

    /// Makes the error that reports a monitoring task that panicked.
    pub fn task_panicked(detail: &str) -> (e: PrinterError)
        ensures
            e matches PrinterError::Other(msg) && msg@ == panic_message(detail@),
    {
        let mut msg = String::from_str("Task panicked: ");
        msg.append(detail);
        PrinterError::Other(msg)
    }
}

impl From<std::io::Error> for PrinterError {
    fn from(err: std::io::Error) -> (e: PrinterError) {
        PrinterError::IoError(err)
    }
}

impl vstd::std_specs::convert::FromSpecImpl<std::io::Error> for PrinterError {
    open spec fn obeys_from_spec() -> bool {
        true
    }

    open spec fn from_spec(err: std::io::Error) -> PrinterError {
        PrinterError::IoError(err)
    }
}

} // verus!
