//! Command line options, and the direction of conversion they select.

use vstd::prelude::*;
use vstd::string::*;

use crate::conversion::ConversionDirection;
use crate::error::Error;

verus! {

/// Options of the converter: the direction flags, and the paths of the input
/// and the output (standard input and output where absent).
pub struct Cli {
    /// Convert MsgPack to JSON.
    pub msgpack2json: bool,
    /// Convert JSON to MsgPack.
    pub json2msgpack: bool,
    /// Input file path to use.
    pub input: Option<String>,
    /// Output file path to use.
    pub output: Option<String>,
}

/// Whether a file name has the extension `json`: it ends in `.json`, after a
/// non-empty stem.
pub open spec fn json_extension(name: Seq<char>) -> bool {
    &&& name.len() > 5
    &&& name.subrange(name.len() - 5, name.len() as int) == seq!['.', 'j', 's', 'o', 'n']
    &&& name[name.len() - 6] != '/'
}

/// Direction given by the two direction flags: at most one of them may be
/// set, and neither asks for automatic detection.
pub open spec fn flags_direction(msgpack2json: bool, json2msgpack: bool) -> Result<
    ConversionDirection,
    Error,
> {
    if msgpack2json && json2msgpack {
        Err(Error::MultipleConversionDirections)
    } else if msgpack2json {
        Ok(ConversionDirection::MsgPack2Json)
    } else if json2msgpack {
        Ok(ConversionDirection::Json2MsgPack)
    } else {
        Ok(ConversionDirection::Auto)
    }
}

impl ConversionDirection {
    /// Validates that not both directions are set, then returns the
    /// direction they select.
    pub fn from_flags(msgpack2json: bool, json2msgpack: bool) -> (r: Result<Self, Error>)
        ensures
            r == flags_direction(msgpack2json, json2msgpack),
    {
        if msgpack2json && json2msgpack {
            return Err(Error::MultipleConversionDirections);
        }
        if msgpack2json {
            Ok(Self::MsgPack2Json)
        } else if json2msgpack {
            Ok(Self::Json2MsgPack)
        } else {
            Ok(Self::Auto)
        }
    }
}

/// Whether the file name `name` has the extension `json`.
pub fn has_json_extension(name: &str) -> (r: bool)
    ensures
        r == json_extension(name@),
{
    let n = name.unicode_len();
    if n <= 5 {
        return false;
    }
    let r = name.get_char(n - 6) != '/' && name.get_char(n - 5) == '.' && name.get_char(n - 4)
        == 'j' && name.get_char(n - 3) == 's' && name.get_char(n - 2) == 'o' && name.get_char(
        n - 1,
    ) == 'n';
    assert(r == json_extension(name@)) by {
        let tail = name@.subrange(n - 5, n as int);
        if r {
            assert(tail =~= seq!['.', 'j', 's', 'o', 'n']);
        }
        if tail == seq!['.', 'j', 's', 'o', 'n'] {
            assert(tail[0] == '.' && tail[1] == 'j' && tail[2] == 's' && tail[3] == 'o' && tail[4]
                == 'n');
        }
    }
    r
}

impl Cli {
    /// Direction that these options select: the direction flags where one is
    /// set; else an input file named with the extension `json` is taken as
    /// JSON; else the format is detected.
    pub open spec fn spec_direction(&self) -> Result<ConversionDirection, Error> {
        match flags_direction(self.msgpack2json, self.json2msgpack) {
            Ok(ConversionDirection::Auto) => match self.input {
                Some(name) => if json_extension(name@) {
                    Ok(ConversionDirection::Json2MsgPack)
                } else {
                    Ok(ConversionDirection::Auto)
                },
                None => Ok(ConversionDirection::Auto),
            },
            other => other,
        }
    }

    /// Resolves the direction of conversion from the flags and the input
    /// file name.
    pub fn direction(&self) -> (r: Result<ConversionDirection, Error>)
        ensures
            r == self.spec_direction(),
    {
        let direction = ConversionDirection::from_flags(self.msgpack2json, self.json2msgpack);
        match direction {
            Ok(ConversionDirection::Auto) => match &self.input {
                Some(name) => if has_json_extension(name.as_str()) {
                    Ok(ConversionDirection::Json2MsgPack)
                } else {
                    Ok(ConversionDirection::Auto)
                },
                None => Ok(ConversionDirection::Auto),
            },
            other => other,
        }
    }
}

} // verus!
