//! The failures an operation can end with.

use vstd::prelude::*;
use vstd::string::StringExecFns;

verus! {

/// Everything that can stop an operation. Each variant carries the
/// description given by the component that failed.
#[derive(Debug)]
pub enum Error {
    /// The platform is not one the tool knows how to run on.
    UnsupportedOperatingSystem(String),
    /// The persisted settings could not be read.
    UnableToReadConfig(String),
    /// The persisted settings could not be written.
    UnableToWriteConfig(String),
    /// A schema file could not be read.
    UnableToReadProtobuf(String),
    /// The store reported a failure.
    Fdb(String),
    /// The store did not answer in time.
    Elapsed(String),
    /// The schema text did not parse.
    ProtofishParseError(String),
    /// A key or value was not UTF-8 text.
    StringDecodeError(String),
}

impl Error {
    /// The text before the description, one per variant.
    pub open spec fn prefix(self) -> Seq<char> {
        match self {
            Error::UnsupportedOperatingSystem(_) => "Unsupported OS: "@,
            Error::UnableToReadConfig(_) => "Unable to read configuration: "@,
            Error::UnableToWriteConfig(_) => "Unable to write configuration: "@,
            Error::UnableToReadProtobuf(_) => "Unable to read protobuf: "@,
            Error::Fdb(_) => "Fdb error: "@,
            Error::Elapsed(_) => "Tokio timeout elapsed error: "@,
            Error::ProtofishParseError(_) => "Protofish parse error: "@,
            Error::StringDecodeError(_) => "String decode error: "@,
        }
    }

    /// The description carried by the variant.
    pub open spec fn detail(self) -> Seq<char> {
        match self {
            Error::UnsupportedOperatingSystem(d) => d@,
            Error::UnableToReadConfig(d) => d@,
            Error::UnableToWriteConfig(d) => d@,
            Error::UnableToReadProtobuf(d) => d@,
            Error::Fdb(d) => d@,
            Error::Elapsed(d) => d@,
            Error::ProtofishParseError(d) => d@,
            Error::StringDecodeError(d) => d@,
        }
    }

    /// The whole message: prefix, then description.
    pub open spec fn message(self) -> Seq<char> {
        self.prefix() + self.detail()
    }

    /// Renders the failure as the message shown to the user.
    pub fn to_string(&self) -> (s: String)
        ensures
            s@ == self.message(),
    {
        match self {
            Error::UnsupportedOperatingSystem(d) => String::from_str("Unsupported OS: ").concat(
                d.as_str(),
            ),
            Error::UnableToReadConfig(d) => String::from_str(
                "Unable to read configuration: ",
            ).concat(d.as_str()),
            Error::UnableToWriteConfig(d) => String::from_str(
                "Unable to write configuration: ",
            ).concat(d.as_str()),
            Error::UnableToReadProtobuf(d) => String::from_str("Unable to read protobuf: ").concat(
                d.as_str(),
            ),
            Error::Fdb(d) => String::from_str("Fdb error: ").concat(d.as_str()),
            Error::Elapsed(d) => String::from_str("Tokio timeout elapsed error: ").concat(
                d.as_str(),
            ),
            Error::ProtofishParseError(d) => String::from_str("Protofish parse error: ").concat(
                d.as_str(),
            ),
            Error::StringDecodeError(d) => String::from_str("String decode error: ").concat(
                d.as_str(),
            ),
        }
    }
}

} // verus!
