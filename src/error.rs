use vstd::prelude::*;

verus! {

/// `std::io::Error`, accepted by conversion into an I/O-class error.
#[verifier::external_type_specification]
#[verifier::external_body]
pub struct ExIoError(std::io::Error);

/// Relies on `std::io::Error`'s `ToString` (its `Display`): the error's text.
#[verifier::external_body]
fn io_error_text(e: &std::io::Error) -> (r: String) {
    e.to_string()
}

/// The unified error of every adapter operation.
#[derive(Debug)]
pub enum Error {
    /// An environment or OS failure; also the "unsupported on this platform" error.
    Io(String),
    /// A native call failed explicitly, with an optional code and message.
    InvokeRejected { code: Option<String>, message: Option<String> },
    /// A native response could not be decoded; carries the parser diagnostic.
    CannotDeserializeResponse(String),
    /// A request payload could not be encoded.
    CannotSerializePayload(String),
}

pub type Result<T> = core::result::Result<T, Error>;

/// The text an error displays, and the string it is sent as.
pub open spec fn error_message(e: Error) -> Seq<char> {
    match e {
        Error::Io(m) => m@,
        Error::InvokeRejected { message, .. } => match message {
            Some(m) => m@,
            None => "invoke rejected"@,
        },
        Error::CannotDeserializeResponse(d) => "failed to deserialize response: "@ + d@,
        Error::CannotSerializePayload(d) => "failed to serialize payload: "@ + d@,
    }
}

impl Error {
    /// The text the error displays.
    pub fn to_string(&self) -> (r: String)
        ensures
            r@ == error_message(*self),
    {
        match self {
            Error::Io(m) => m.clone(),
            Error::InvokeRejected { message, .. } => match message {
                Some(m) => m.clone(),
                None => "invoke rejected".to_owned(),
            },
            Error::CannotDeserializeResponse(d) => {
                let mut s = "failed to deserialize response: ".to_owned();
                s.append(d.as_str());
                s
            },
            Error::CannotSerializePayload(d) => {
                let mut s = "failed to serialize payload: ".to_owned();
                s.append(d.as_str());
                s
            },
        }
    }

}

impl From<std::io::Error> for Error {
    /// An I/O-class error carrying the text of `e`.
    fn from(e: std::io::Error) -> (r: Error)
        ensures
            r is Io,
    {
        Error::Io(io_error_text(&e))
    }
}

impl vstd::std_specs::convert::FromSpecImpl<std::io::Error> for Error {
    open spec fn obeys_from_spec() -> bool {
        false
    }

    open spec fn from_spec(v: std::io::Error) -> Error {
        arbitrary()
    }
}

} // verus!
