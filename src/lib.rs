//! Converts between MessagePack and JSON documents, in a chosen direction or
//! by detecting which of the two formats the input is in.

mod cli;
mod codec;
mod conversion;
mod error;

pub use self::cli::{flags_direction, has_json_extension, json_extension, Cli};
pub use self::codec::{
    bytes_result, json_attempt, json_document_valid, json_of_msgpack, json_to_msgpack,
    lemma_json_output_ends_with_newline, msgpack_attempt, msgpack_document_valid, msgpack_of_json,
    is_json_document, is_msgpack_document, msgpack_to_json, msgpack_value_rest, MAX_DEPTH,
    NEWLINE,
};
pub use self::conversion::{
    conversion, detection, lemma_ambiguous_input_rejected,
    lemma_detection_matches_viable_direction, resolve_detection, ConversionDirection, Converter,
};
pub use self::error::Error;
