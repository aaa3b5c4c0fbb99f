//! Error kinds surfaced by the logging pipeline.

use vstd::prelude::*;
use vstd::string::StringExecFns;

verus! {

#[verifier::external_type_specification]
#[verifier::external_body]
pub struct ExIoError(std::io::Error);

/// What can go wrong in the logging pipeline. Only structural misuse —
/// double initialization, use before initialization, lock trouble — is
/// surfaced to callers of `log`; formatter and sink failures on the hot
/// path are swallowed and show up in the loss counters instead.
#[derive(Debug)]
pub enum Error {
    /// The global logger was already initialized.
    AlreadyInitialized,
    /// The global logger has not been initialized yet.
    NotInitialized,
    /// An I/O operation failed.
    Io(std::io::Error),
    /// The hand-off queue misbehaved.
    Queue(&'static str),
    /// A configuration value was invalid.
    Config(&'static str),
    /// A memory or buffer operation failed.
    Memory(&'static str),
    /// A record could not be formatted.
    Formatting(&'static str),
    /// Shutdown did not complete cleanly.
    Shutdown(&'static str),
    /// Log-file rotation failed.
    Rotation(&'static str),
    /// A concurrency primitive failed, such as a poisoned lock.
    Concurrent(&'static str),
    /// Anything else.
    Other(&'static str),
}

/// The exact description of an error, or `None` for `Io`, whose text
/// carries the underlying I/O error's own message.
pub open spec fn error_text(e: &Error) -> Option<Seq<char>> {
    match e {
        Error::AlreadyInitialized => Some("logger already initialized"@),
        Error::NotInitialized => Some("logger not initialized"@),
        Error::Io(_) => None,
        Error::Queue(m) => Some("queue error: "@ + m@),
        Error::Config(m) => Some("configuration error: "@ + m@),
        Error::Memory(m) => Some("memory error: "@ + m@),
        Error::Formatting(m) => Some("formatting error: "@ + m@),
        Error::Shutdown(m) => Some("shutdown error: "@ + m@),
        Error::Rotation(m) => Some("rotation error: "@ + m@),
        Error::Concurrent(m) => Some("concurrent error: "@ + m@),
        Error::Other(m) => Some("other error: "@ + m@),
    }
}

/// Relies on the `std::fmt::Display` impl of `std::io::Error`: renders the
/// error's own description. The text depends on the error value alone, but
/// its exact contents are the standard library's business, so nothing more
/// is promised.
#[verifier::external_body]
fn io_error_message(e: &std::io::Error) -> String {
    format!("{}", e)
}

impl Error {
    /// A human-readable description of the error. An `Io` error's text
    /// starts with `"I/O error: "` and carries the underlying error's own
    /// message after it.
    pub fn describe(&self) -> (r: String)
        ensures
            error_text(self) matches Some(t) ==> r@ == t,
            self matches Error::Io(_) ==> r@.len() >= "I/O error: "@.len() && r@.subrange(
                0,
                "I/O error: "@.len() as int,
            ) == "I/O error: "@,
    {
        match self {
            Error::AlreadyInitialized => String::from_str("logger already initialized"),
            Error::NotInitialized => String::from_str("logger not initialized"),
            Error::Io(e) => {
                let text = String::from_str("I/O error: ").concat(io_error_message(e).as_str());
                proof {
                    assert(text@.subrange(0, "I/O error: "@.len() as int) =~= "I/O error: "@);
                }
                text
            },
            Error::Queue(m) => String::from_str("queue error: ").concat(m),
            Error::Config(m) => String::from_str("configuration error: ").concat(m),
            Error::Memory(m) => String::from_str("memory error: ").concat(m),
            Error::Formatting(m) => String::from_str("formatting error: ").concat(m),
            Error::Shutdown(m) => String::from_str("shutdown error: ").concat(m),
            Error::Rotation(m) => String::from_str("rotation error: ").concat(m),
            Error::Concurrent(m) => String::from_str("concurrent error: ").concat(m),
            Error::Other(m) => String::from_str("other error: ").concat(m),
        }
    }
}

impl From<std::io::Error> for Error {
    fn from(e: std::io::Error) -> (r: Error) {
        Error::Io(e)
    }
}

impl vstd::std_specs::convert::FromSpecImpl<std::io::Error> for Error {
    open spec fn obeys_from_spec() -> bool {
        true
    }

    open spec fn from_spec(e: std::io::Error) -> Error {
        Error::Io(e)
    }
}

} // verus!
