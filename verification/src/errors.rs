//! Errors of the backend.
use vstd::prelude::*;
use crate::text::{decimal, push_decimal};

verus! {

/// Everything that can go wrong in the backend.
///
/// Errors from outside libraries (media decoding, the audio engine, JACK,
/// serialisation, I/O) are carried as their messages.
#[derive(Clone, Debug, PartialEq)]
pub enum BackendError {
    /// A plain message.
    Msg(String),
    Ffmpeg(String),
    Engine(String),
    Jack(String),
    RmpDecode(String),
    RmpEncode(String),
    Io(String),
    StrParse(String),
    OSC(String),
    Uuid(String),
    Url(String),
    UnsupportedOSCCommand(String),
    UnsupportedOSCBundle,
    MalformedOSCPath,
    OSCWrongArgs(String),
    OSCWrongType(usize, String),
    UnknownOSCPath,
    EmptyAsyncResult,
    WaitingAsyncResult,
}

/// The message that `e` displays.
pub open spec fn error_message(e: BackendError) -> Seq<char> {
    match e {
        BackendError::Msg(s) => s@,
        BackendError::Ffmpeg(s) => s@,
        BackendError::Engine(s) => s@,
        BackendError::Jack(s) => s@,
        BackendError::RmpDecode(s) => s@,
        BackendError::RmpEncode(s) => s@,
        BackendError::Io(s) => s@,
        BackendError::StrParse(s) => s@,
        BackendError::OSC(t) => "OSC error: "@ + t@,
        BackendError::Uuid(t) => "Error parsing UUID: "@ + t@,
        BackendError::Url(t) => "Error parsing URL: "@ + t@,
        BackendError::UnsupportedOSCCommand(t) => "Unsupported OSC command: "@ + t@,
        BackendError::UnsupportedOSCBundle => "OSC bundles are not yet supported."@,
        BackendError::MalformedOSCPath => "The OSC path provided was malformed."@,
        BackendError::OSCWrongArgs(r) => "expected a "@ + r@,
        BackendError::OSCWrongType(n, r) => "Argument "@ + decimal(n as nat) + " should be a "@ + r@,
        BackendError::UnknownOSCPath => "The OSC path provided was unknown."@,
        BackendError::EmptyAsyncResult => "No asynchronous computation was performed."@,
        BackendError::WaitingAsyncResult => "An asynchronous computation had not completed."@,
    }
}

fn prefixed(prefix: &str, s: &String) -> (r: String)
    ensures
        r@ == prefix@ + s@,
{
    let mut r = String::from_str(prefix);
    r.append(s.as_str());
    r
}

impl BackendError {
    /// A plain-message error holding `s`.
    pub fn msg(s: &str) -> (e: BackendError)
        ensures
            e matches BackendError::Msg(m) && m@ == s@,
    {
        BackendError::Msg(String::from_str(s))
    }

    /// The message the error displays.
    pub fn message(&self) -> (m: String)
        ensures
            m@ == error_message(*self),
    {
        match self {
            BackendError::Msg(s) => s.clone(),
            BackendError::Ffmpeg(s) => s.clone(),
            BackendError::Engine(s) => s.clone(),
            BackendError::Jack(s) => s.clone(),
            BackendError::RmpDecode(s) => s.clone(),
            BackendError::RmpEncode(s) => s.clone(),
            BackendError::Io(s) => s.clone(),
            BackendError::StrParse(s) => s.clone(),
            BackendError::OSC(t) => prefixed("OSC error: ", t),
            BackendError::Uuid(t) => prefixed("Error parsing UUID: ", t),
            BackendError::Url(t) => prefixed("Error parsing URL: ", t),
            BackendError::UnsupportedOSCCommand(t) => prefixed("Unsupported OSC command: ", t),
            BackendError::UnsupportedOSCBundle => String::from_str(
                "OSC bundles are not yet supported.",
            ),
            BackendError::MalformedOSCPath => String::from_str(
                "The OSC path provided was malformed.",
            ),
            BackendError::OSCWrongArgs(r) => prefixed("expected a ", r),
            BackendError::OSCWrongType(n, r) => {
                let mut m = String::from_str("Argument ");
                push_decimal(&mut m, *n as u64);
                m.append(" should be a ");
                m.append(r.as_str());
                m
            },
            BackendError::UnknownOSCPath => String::from_str("The OSC path provided was unknown."),
            BackendError::EmptyAsyncResult => String::from_str(
                "No asynchronous computation was performed.",
            ),
            BackendError::WaitingAsyncResult => String::from_str(
                "An asynchronous computation had not completed.",
            ),
        }
    }
}

} // verus!
