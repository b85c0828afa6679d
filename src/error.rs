//! Errors that end a conversion.

use vstd::prelude::*;

verus! {

/// Why a conversion failed.
#[derive(Debug, PartialEq, Eq)]
pub enum Error {
    /// Both conversion directions were asked for at once.
    MultipleConversionDirections,
    /// The input could not be read.
    FileRead,
    /// The output could not be written.
    FileWrite,
    /// The input is a complete document in both formats, so its format cannot
    /// be told: the first outcome is that of converting it as JSON, the
    /// second that of converting it as MessagePack.
    AmbiguousFormat(Box<Result<Vec<u8>, Error>>, Box<Result<Vec<u8>, Error>>),
    /// The input is in neither format: the first cause is why it could not be
    /// converted as JSON, the second why it could not be converted as
    /// MessagePack.
    AutomaticDetection(Box<Error>, Box<Error>),
    /// The input is not one well-formed MessagePack value.
    ReadingMsgPack,
    /// A value cannot be written as MessagePack.
    WritingMsgPack,
    /// The input is not one well-formed JSON document.
    ReadingJson,
    /// A value cannot be written as JSON, such as a map key that is an array
    /// or a map.
    WritingJson,
}

} // verus!
