//! The ways a run can fail, the message shown for each and its exit status.

use vstd::prelude::*;
use vstd::string::StringExecFns;
use crate::hexwrap::{hex_error_text, HexError};

verus! {

/// A failed run.
#[derive(Debug, Clone, PartialEq, Eq)]
pub enum Error {
    /// Two options were given of which only one is allowed at a time.
    ArgConflict(String, String),
    /// Neither an option nor a file extension says which way to convert.
    NoDirection,
    /// There is nothing to convert.
    NoInput,
    /// The input was to be hexadecimal text and is not.
    Hex(HexError),
    /// A file could not be opened: its name, and what the system reported.
    File(String, String),
    /// Reading or writing a stream failed: what the system reported.
    Io(String),
    /// The MessagePack input could not be converted: what the codec reported.
    MessagePak(String),
    /// The JSON input could not be converted: what the codec reported.
    Json(String),
    /// Any other failure.
    Other(String),
}

impl Error {
    /// The message shown for this failure.
    pub open spec fn message_text(self) -> Seq<char> {
        match self {
            Error::ArgConflict(a1, a2) => "Both "@ + a1@ + " and "@ + a2@
                + " given, but only one is allowed at a time"@,
            Error::NoDirection =>
                "Could not determine conversion direction. Specify '--to-json' or '--to-msgpack'."@,
            Error::MessagePak(e) => "Unable to parse MessagePack input, "@ + e@,
            Error::Json(e) => "Unable to parse JSON input, "@ + e@,
            Error::Hex(e) => "Invalid hex: "@ + e.text(),
            Error::NoInput => "No input is present"@,
            Error::File(n, e) => "Error reading '"@ + n@ + "': "@ + e@,
            Error::Io(e) => "IO error: "@ + e@,
            Error::Other(e) => e@,
        }
    }

    /// The message shown for this failure.
    pub fn message(&self) -> (text: String)
        ensures
            text@ == self.message_text(),
    {
        match self {
            Error::ArgConflict(a1, a2) => {
                let mut text = String::from_str("Both ");
                text.append(a1.as_str());
                text.append(" and ");
                text.append(a2.as_str());
                text.append(" given, but only one is allowed at a time");
                text
            },
            Error::NoDirection => String::from_str(
                "Could not determine conversion direction. Specify '--to-json' or '--to-msgpack'.",
            ),
            Error::MessagePak(e) => String::from_str("Unable to parse MessagePack input, ").concat(
                e.as_str(),
            ),
            Error::Json(e) => String::from_str("Unable to parse JSON input, ").concat(e.as_str()),
            Error::Hex(e) => {
                let detail = hex_error_text(e);
                String::from_str("Invalid hex: ").concat(detail.as_str())
            },
            Error::NoInput => String::from_str("No input is present"),
            Error::File(n, e) => {
                let mut text = String::from_str("Error reading '");
                text.append(n.as_str());
                text.append("': ");
                text.append(e.as_str());
                text
            },
            Error::Io(e) => String::from_str("IO error: ").concat(e.as_str()),
            Error::Other(e) => e.clone(),
        }
    }

    /// The exit status that stands for this failure.
    pub open spec fn code(self) -> u8 {
        match self {
            Error::ArgConflict(_, _) => 4,
            Error::NoDirection => 6,
            Error::NoInput => 20,
            Error::Io(_) => 30,
            Error::File(_, _) => 31,
            Error::MessagePak(_) => 40,
            Error::Json(_) => 41,
            Error::Hex(_) => 42,
            Error::Other(_) => 90,
        }
    }

    /// The exit status of a process that ends with this failure: below 20
    /// for a fault in the arguments, from 20 on for one in the data.
    pub fn exit_code(&self) -> (status: u8)
        ensures
            status == self.code(),
            status != 0,
    {
        match self {
            Error::ArgConflict(_, _) => 4,
            Error::NoDirection => 6,
            Error::NoInput => 20,
            Error::Io(_) => 30,
            Error::File(_, _) => 31,
            Error::MessagePak(_) => 40,
            Error::Json(_) => 41,
            Error::Hex(_) => 42,
            Error::Other(_) => 90,
        }
    }
}

} // verus!
