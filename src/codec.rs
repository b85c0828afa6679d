//! One conversion attempt in each direction, over the JSON and MessagePack
//! codecs of serde_json and rmp_serde, joined by serde_transcode.

use vstd::prelude::*;

use crate::error::Error;

verus! {

/// Deepest nesting of arrays and maps that a MessagePack input may reach
/// (strictly below this many levels), the same as serde_json's own limit for
/// JSON input.
pub const MAX_DEPTH: usize = 128;

/// The line feed that ends JSON output.
pub const NEWLINE: u8 = 0x0a;

/// Whether `input` is exactly one JSON document (surrounded by whitespace
/// only), nested less than serde_json's recursion limit deep.
pub uninterp spec fn json_document_valid(input: Seq<u8>) -> bool;

/// How many bytes of `input` follow the MessagePack value at its start, read
/// with nesting less than `max_depth` levels deep, or `None` where no such
/// value can be read.
pub uninterp spec fn msgpack_value_rest(input: Seq<u8>, max_depth: nat) -> Option<nat>;

/// The MessagePack bytes that the JSON value at the start of `input`
/// transcodes to, or `None` where reading or writing it fails.
pub uninterp spec fn msgpack_of_json(input: Seq<u8>) -> Option<Seq<u8>>;

/// The compact JSON text that the MessagePack value at the start of `input`
/// transcodes to, read with nesting less than `max_depth` levels deep, or
/// `None` where reading or writing it fails. Binary data becomes an array of
/// its byte values, and an extension value the array of its type tag and the
/// array of its data bytes.
pub uninterp spec fn json_of_msgpack(input: Seq<u8>, max_depth: nat) -> Option<Seq<u8>>;

/// The bytes of an optional buffer.
pub open spec fn option_bytes(r: Option<Vec<u8>>) -> Option<Seq<u8>> {
    match r {
        Some(v) => Some(v@),
        None => None,
    }
}

/// The count in an optional count.
pub open spec fn option_nat(r: Option<usize>) -> Option<nat> {
    match r {
        Some(k) => Some(k as nat),
        None => None,
    }
}

/// Whether `input` is one MessagePack value nested less than `MAX_DEPTH`
/// levels deep, with no byte after it.
pub open spec fn msgpack_document_valid(input: Seq<u8>) -> bool {
    msgpack_value_rest(input, MAX_DEPTH as nat) == Some(0nat)
}

/// The bytes of a conversion result.
pub open spec fn bytes_result(r: Result<Vec<u8>, Error>) -> Result<Seq<u8>, Error> {
    match r {
        Ok(v) => Ok(v@),
        Err(e) => Err(e),
    }
}

/// Converting `input` as JSON into MessagePack: a malformed document is a
/// reading error, a value that MessagePack cannot hold a writing error.
pub open spec fn json_attempt(input: Seq<u8>) -> Result<Seq<u8>, Error> {
    if !json_document_valid(input) {
        Err(Error::ReadingJson)
    } else {
        match msgpack_of_json(input) {
            Some(out) => Ok(out),
            None => Err(Error::WritingMsgPack),
        }
    }
}

/// Converting `input` as MessagePack into JSON text, which ends with a
/// newline: a malformed or too deeply nested value is a reading error, one
/// that JSON cannot hold (a map key that is an array or a map) a writing
/// error.
pub open spec fn msgpack_attempt(input: Seq<u8>) -> Result<Seq<u8>, Error> {
    if !msgpack_document_valid(input) {
        Err(Error::ReadingMsgPack)
    } else {
        match json_of_msgpack(input, MAX_DEPTH as nat) {
            Some(out) => Ok(out.push(NEWLINE)),
            None => Err(Error::WritingJson),
        }
    }
}

/// JSON output always ends with one line feed.
pub proof fn lemma_json_output_ends_with_newline(input: Seq<u8>)
    ensures
        msgpack_attempt(input) is Ok ==> msgpack_attempt(input)->Ok_0.len() > 0
            && msgpack_attempt(input)->Ok_0.last() == NEWLINE,
{
}

/// Relies on serde_json's `from_slice`, into serde_json's `Value`: whether the
/// bytes hold one JSON document, within serde_json's recursion limit, and
/// nothing but whitespace after it.
#[verifier::external_body]
fn check_json_document(input: &[u8]) -> (r: bool)
    ensures
        r == json_document_valid(input@),
{
    serde_json::from_slice::<serde_json::Value>(input).is_ok()
}

/// Relies on rmp_serde's `Deserializer::new`, `set_max_depth` and `get_ref`,
/// and serde's `IgnoredAny`: reads one MessagePack value within the depth and
/// gives the length of the slice left unread after it. rmp_serde's depth
/// counter underflows at a limit of 0, and each level of nesting is a level of
/// recursion, so the limit is kept small.
#[verifier::external_body]
fn read_msgpack_value(input: &[u8], max_depth: usize) -> (r: Option<usize>)
    requires
        0 < max_depth <= MAX_DEPTH,
    ensures
        option_nat(r) == msgpack_value_rest(input@, max_depth as nat),
        r matches Some(k) ==> k <= input@.len(),
{
    let mut de = rmp_serde::Deserializer::new(input);
    de.set_max_depth(max_depth);
    match <serde::de::IgnoredAny as serde::Deserialize>::deserialize(&mut de) {
        Ok(_) => Some(de.get_ref().len()),
        Err(_) => None,
    }
}

/// Relies on serde_transcode's `transcode`, from serde_json's slice
/// deserializer into rmp_serde's serializer with maps keyed by field name.
#[verifier::external_body]
fn transcode_json_to_msgpack(input: &[u8]) -> (r: Option<Vec<u8>>)
    ensures
        option_bytes(r) == msgpack_of_json(input@),
{
    let mut out = Vec::new();
    let mut de = serde_json::Deserializer::from_slice(input);
    let mut ser = rmp_serde::Serializer::new(&mut out).with_struct_map();
    match serde_transcode::transcode(&mut de, &mut ser) {
        Ok(_) => Some(out),
        Err(_) => None,
    }
}

/// Relies on serde_transcode's `transcode`, from rmp_serde's deserializer
/// with the given nesting limit (see `read_msgpack_value`) into serde_json's
/// compact serializer.
#[verifier::external_body]
fn transcode_msgpack_to_json(input: &[u8], max_depth: usize) -> (r: Option<Vec<u8>>)
    requires
        0 < max_depth <= MAX_DEPTH,
    ensures
        option_bytes(r) == json_of_msgpack(input@, max_depth as nat),
{
    let mut out = Vec::new();
    let mut de = rmp_serde::Deserializer::new(input);
    de.set_max_depth(max_depth);
    let mut ser = serde_json::Serializer::new(&mut out);
    match serde_transcode::transcode(&mut de, &mut ser) {
        Ok(_) => Some(out),
        Err(_) => None,
    }
}

/// Whether `input` is one JSON document, nested less than serde_json's
/// recursion limit deep.
pub fn is_json_document(input: &[u8]) -> (r: bool)
    ensures
        r == json_document_valid(input@),
{
    check_json_document(input)
}

/// Whether `input` is one MessagePack value, nested less than `MAX_DEPTH`
/// levels deep, with no byte after it.
pub fn is_msgpack_document(input: &[u8]) -> (r: bool)
    ensures
        r == msgpack_document_valid(input@),
{
    match read_msgpack_value(input, MAX_DEPTH) {
        Some(rest) => rest == 0,
        None => false,
    }
}

/// Converts a JSON document into MessagePack.
pub fn json_to_msgpack(input: &[u8]) -> (r: Result<Vec<u8>, Error>)
    ensures
        bytes_result(r) == json_attempt(input@),
{
    if !is_json_document(input) {
        return Err(Error::ReadingJson);
    }
    match transcode_json_to_msgpack(input) {
        Some(out) => Ok(out),
        None => Err(Error::WritingMsgPack),
    }
}

/// Converts a MessagePack value into JSON text followed by a newline. Binary
/// data becomes an array of its byte values, and an extension value the array
/// of its type tag and the array of its data bytes.
pub fn msgpack_to_json(input: &[u8]) -> (r: Result<Vec<u8>, Error>)
    ensures
        bytes_result(r) == msgpack_attempt(input@),
{
    if !is_msgpack_document(input) {
        return Err(Error::ReadingMsgPack);
    }
    match transcode_msgpack_to_json(input, MAX_DEPTH) {
        Some(out) => {
            let mut text = out;
            text.push(NEWLINE);
            Ok(text)
        },
        None => Err(Error::WritingJson),
    }
}

} // verus!
