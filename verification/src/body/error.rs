//! What can go wrong with a body.

use core::str::Utf8Error;
use vstd::prelude::*;
use vstd::string::to_string_from_display_ensures;

verus! {

/// `std::io::Error`, carried as it comes.
#[verifier::external_type_specification]
#[verifier::external_body]
pub struct ExIoError(std::io::Error);

/// `serde_json::Error`, carried as it comes.
#[verifier::external_type_specification]
#[verifier::external_body]
pub struct ExJsonError(serde_json::Error);

/// `serde_urlencoded::ser::Error`, carried as it comes.
#[verifier::external_type_specification]
#[verifier::external_body]
pub struct ExFormSerError(serde_urlencoded::ser::Error);

/// `serde_urlencoded::de::Error`, carried as it comes.
#[verifier::external_type_specification]
#[verifier::external_body]
pub struct ExFormDeError(serde_urlencoded::de::Error);

/// The text that reports a frozen body.
pub open spec fn frozen_message() -> Seq<char> {
    "Body was frozen,it may have been consumed by `take()`"@
}

/// The body was frozen: its content was taken or discarded before.
#[derive(Debug)]
pub struct BodyFrozen {
    _priv: (),
}

impl BodyFrozen {
    /// The one value of this type.
    pub fn new() -> BodyFrozen {
        BodyFrozen { _priv: () }
    }

    /// The report in words.
    pub fn to_string(&self) -> (text: String)
        ensures
            text@ == frozen_message(),
    {
        "Body was frozen,it may have been consumed by `take()`".to_owned()
    }
}

/// An error of a body operation.
#[derive(Debug)]
#[non_exhaustive]
pub enum BodyError {
    /// The reader or the stream under the body failed.
    Io(std::io::Error),
    /// The content is not valid UTF-8.
    Utf8(Utf8Error),
    /// The body was frozen.
    BodyFrozen,
    /// JSON could not be written or read.
    JsonError(serde_json::Error),
    /// A form could not be written.
    SerializeForm(serde_urlencoded::ser::Error),
    /// A form could not be read.
    DeserializeForm(serde_urlencoded::de::Error),
}

impl BodyError {
    /// The report in words. For a frozen body the text is fixed; every other
    /// error is reported in the words of the error it wraps.
    pub fn to_string(&self) -> (text: String)
        ensures
            match *self {
                BodyError::Io(error) => to_string_from_display_ensures::<std::io::Error>(
                    &error,
                    text,
                ),
                BodyError::Utf8(error) => to_string_from_display_ensures::<Utf8Error>(&error, text),
                BodyError::BodyFrozen => text@ == frozen_message(),
                BodyError::JsonError(error) => to_string_from_display_ensures::<serde_json::Error>(
                    &error,
                    text,
                ),
                BodyError::SerializeForm(error) => to_string_from_display_ensures::<
                    serde_urlencoded::ser::Error,
                >(&error, text),
                BodyError::DeserializeForm(error) => to_string_from_display_ensures::<
                    serde_urlencoded::de::Error,
                >(&error, text),
            },
    {
        match self {
            BodyError::Io(error) => error.to_string(),
            BodyError::Utf8(error) => error.to_string(),
            BodyError::BodyFrozen => BodyFrozen::new().to_string(),
            BodyError::JsonError(error) => error.to_string(),
            BodyError::SerializeForm(error) => error.to_string(),
            BodyError::DeserializeForm(error) => error.to_string(),
        }
    }
}

impl From<BodyFrozen> for BodyError {
    fn from(error: BodyFrozen) -> (wrapped: BodyError)
        ensures
            wrapped == BodyError::BodyFrozen,
    {
        BodyError::BodyFrozen
    }
}

impl vstd::std_specs::convert::FromSpecImpl<BodyFrozen> for BodyError {
    open spec fn obeys_from_spec() -> bool {
        true
    }

    open spec fn from_spec(error: BodyFrozen) -> BodyError {
        BodyError::BodyFrozen
    }
}

impl From<std::io::Error> for BodyError {
    fn from(error: std::io::Error) -> (wrapped: BodyError)
        ensures
            wrapped == BodyError::Io(error),
    {
        BodyError::Io(error)
    }
}

impl vstd::std_specs::convert::FromSpecImpl<std::io::Error> for BodyError {
    open spec fn obeys_from_spec() -> bool {
        true
    }

    open spec fn from_spec(error: std::io::Error) -> BodyError {
        BodyError::Io(error)
    }
}

impl From<Utf8Error> for BodyError {
    fn from(error: Utf8Error) -> (wrapped: BodyError)
        ensures
            wrapped == BodyError::Utf8(error),
    {
        BodyError::Utf8(error)
    }
}

impl vstd::std_specs::convert::FromSpecImpl<Utf8Error> for BodyError {
    open spec fn obeys_from_spec() -> bool {
        true
    }

    open spec fn from_spec(error: Utf8Error) -> BodyError {
        BodyError::Utf8(error)
    }
}

impl From<serde_json::Error> for BodyError {
    fn from(error: serde_json::Error) -> (wrapped: BodyError)
        ensures
            wrapped == BodyError::JsonError(error),
    {
        BodyError::JsonError(error)
    }
}

impl vstd::std_specs::convert::FromSpecImpl<serde_json::Error> for BodyError {
    open spec fn obeys_from_spec() -> bool {
        true
    }

    open spec fn from_spec(error: serde_json::Error) -> BodyError {
        BodyError::JsonError(error)
    }
}

impl From<serde_urlencoded::ser::Error> for BodyError {
    fn from(error: serde_urlencoded::ser::Error) -> (wrapped: BodyError)
        ensures
            wrapped == BodyError::SerializeForm(error),
    {
        BodyError::SerializeForm(error)
    }
}

impl vstd::std_specs::convert::FromSpecImpl<serde_urlencoded::ser::Error> for BodyError {
    open spec fn obeys_from_spec() -> bool {
        true
    }

    open spec fn from_spec(error: serde_urlencoded::ser::Error) -> BodyError {
        BodyError::SerializeForm(error)
    }
}

impl From<serde_urlencoded::de::Error> for BodyError {
    fn from(error: serde_urlencoded::de::Error) -> (wrapped: BodyError)
        ensures
            wrapped == BodyError::DeserializeForm(error),
    {
        BodyError::DeserializeForm(error)
    }
}

impl vstd::std_specs::convert::FromSpecImpl<serde_urlencoded::de::Error> for BodyError {
    open spec fn obeys_from_spec() -> bool {
        true
    }

    open spec fn from_spec(error: serde_urlencoded::de::Error) -> BodyError {
        BodyError::DeserializeForm(error)
    }
}

} // verus!
