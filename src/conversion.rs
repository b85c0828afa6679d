//! Conversion of a whole input, in a chosen direction or by detecting the
//! input's format.

use vstd::prelude::*;

use crate::codec::{
    bytes_result, is_json_document, is_msgpack_document, json_attempt, json_document_valid,
    json_to_msgpack, msgpack_attempt, msgpack_document_valid, msgpack_to_json,
};
use crate::error::Error;

verus! {

/// Direction of conversion.
#[derive(Debug, Clone, Copy, PartialEq, Eq, Structural)]
pub enum ConversionDirection {
    /// Automatic detection of the input.
    Auto,
    /// Convert MsgPack to JSON.
    MsgPack2Json,
    /// Convert JSON to MsgPack.
    Json2MsgPack,
}

/// Whether `r` is the outcome of detecting the input's format from whether
/// it parses in each format and the attempt to convert it in each direction.
/// Where it parses in both, or converts in both, it is ambiguous and both
/// outcomes are kept; else the one attempt that succeeded gives the output,
/// and where both fail it is in neither format and both causes are kept.
pub open spec fn detection(
    json_parses: bool,
    msgpack_parses: bool,
    json: Result<Seq<u8>, Error>,
    msgpack: Result<Seq<u8>, Error>,
    r: Result<Vec<u8>, Error>,
) -> bool {
    if (json_parses && msgpack_parses) || (json is Ok && msgpack is Ok) {
        r matches Err(Error::AmbiguousFormat(x, y)) && bytes_result(*x) == json && bytes_result(*y)
            == msgpack
    } else {
        match (json, msgpack) {
            (Ok(a), _) => bytes_result(r) == Ok::<Seq<u8>, Error>(a),
            (_, Ok(b)) => bytes_result(r) == Ok::<Seq<u8>, Error>(b),
            (Err(a), Err(b)) => bytes_result(r) == Err::<Seq<u8>, Error>(
                Error::AutomaticDetection(Box::new(a), Box::new(b)),
            ),
        }
    }
}

/// Whether `r` is the outcome of converting `input` in `direction`.
pub open spec fn conversion(
    input: Seq<u8>,
    direction: ConversionDirection,
    r: Result<Vec<u8>, Error>,
) -> bool {
    match direction {
        ConversionDirection::Auto => detection(
            json_document_valid(input),
            msgpack_document_valid(input),
            json_attempt(input),
            msgpack_attempt(input),
            r,
        ),
        ConversionDirection::MsgPack2Json => bytes_result(r) == msgpack_attempt(input),
        ConversionDirection::Json2MsgPack => bytes_result(r) == json_attempt(input),
    }
}

/// Decides the outcome of format detection from whether the input parses as
/// JSON and as MessagePack, and the result of converting it as JSON and as
/// MessagePack.
pub fn resolve_detection(
    json_parses: bool,
    msgpack_parses: bool,
    json: Result<Vec<u8>, Error>,
    msgpack: Result<Vec<u8>, Error>,
) -> (r: Result<Vec<u8>, Error>)
    ensures
        detection(json_parses, msgpack_parses, bytes_result(json), bytes_result(msgpack), r),
{
    if (json_parses && msgpack_parses) || (json.is_ok() && msgpack.is_ok()) {
        return Err(Error::AmbiguousFormat(Box::new(json), Box::new(msgpack)));
    }
    match (json, msgpack) {
        (Ok(out), _) => Ok(out),
        (_, Ok(out)) => Ok(out),
        (Err(a), Err(b)) => Err(Error::AutomaticDetection(Box::new(a), Box::new(b))),
    }
}

/// Converter instance, owning the input data and the direction of
/// conversion.
pub struct Converter {
    /// Input data.
    input: Vec<u8>,
    /// Direction of conversion.
    direction: ConversionDirection,
}

impl Converter {
    /// The input data.
    pub closed spec fn spec_input(&self) -> Seq<u8> {
        self.input@
    }

    /// The direction of conversion.
    pub closed spec fn spec_direction(&self) -> ConversionDirection {
        self.direction
    }

    /// Create new converter instance given input and conversion direction.
    pub fn new(input: Vec<u8>, direction: ConversionDirection) -> (r: Self)
        ensures
            r.spec_input() == input@,
            r.spec_direction() == direction,
    {
        Self { input, direction }
    }

    /// The direction of conversion.
    pub fn direction(&self) -> (r: ConversionDirection)
        ensures
            r == self.spec_direction(),
    {
        self.direction
    }

    /// Execute the conversion, returning the output bytes.
    pub fn execute(self) -> (r: Result<Vec<u8>, Error>)
        ensures
            conversion(self.spec_input(), self.spec_direction(), r),
    {
        match self.direction {
            ConversionDirection::Auto => self.automatic_conversion(),
            ConversionDirection::MsgPack2Json => msgpack_to_json(self.input.as_slice()),
            ConversionDirection::Json2MsgPack => json_to_msgpack(self.input.as_slice()),
        }
    }

    /// Converts the input as JSON and as MessagePack, each into a buffer of
    /// its own, and keeps the one that succeeded.
    fn automatic_conversion(&self) -> (r: Result<Vec<u8>, Error>)
        ensures
            detection(
                json_document_valid(self.spec_input()),
                msgpack_document_valid(self.spec_input()),
                json_attempt(self.spec_input()),
                msgpack_attempt(self.spec_input()),
                r,
            ),
    {
        let json_parses = is_json_document(self.input.as_slice());
        let msgpack_parses = is_msgpack_document(self.input.as_slice());
        let json = json_to_msgpack(self.input.as_slice());
        let msgpack = msgpack_to_json(self.input.as_slice());
        resolve_detection(json_parses, msgpack_parses, json, msgpack)
    }
}

/// An input that is a document both in JSON and in MessagePack is never
/// given a format by detection: it fails as ambiguous, with the outcome of
/// converting it in each direction.
pub proof fn lemma_ambiguous_input_rejected(input: Seq<u8>, r: Result<Vec<u8>, Error>)
    requires
        json_document_valid(input),
        msgpack_document_valid(input),
        conversion(input, ConversionDirection::Auto, r),
    ensures
        r matches Err(Error::AmbiguousFormat(x, y)) && bytes_result(*x) == json_attempt(input)
            && bytes_result(*y) == msgpack_attempt(input),
{
}

/// Where the input converts in one direction and does not parse in the
/// other format, detection gives what that direction given explicitly gives.
pub proof fn lemma_detection_matches_viable_direction(input: Seq<u8>, r: Result<Vec<u8>, Error>)
    requires
        conversion(input, ConversionDirection::Auto, r),
    ensures
        json_attempt(input) is Ok && !msgpack_document_valid(input) ==> conversion(
            input,
            ConversionDirection::Json2MsgPack,
            r,
        ),
        !json_document_valid(input) && msgpack_attempt(input) is Ok ==> conversion(
            input,
            ConversionDirection::MsgPack2Json,
            r,
        ),
{
}

} // verus!
