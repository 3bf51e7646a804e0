//! The version of Python that the checked code targets.

use vstd::prelude::*;
use vstd::string::*;
use crate::text::{
    integer_of, integer_text, lemma_integer_text_is_free_of, lemma_integer_text_is_read_back,
    lemma_split_after_free_text, lemma_split_of_free_text, parse_i32, split, split_on,
    write_integer,
};

verus! {

/// A Python version: major, minor and micro.
#[derive(Clone, Copy, Debug, PartialEq, Eq, Structural)]
pub struct PythonVersion {
    pub major: i32,
    pub minor: i32,
    pub micro: i32,
}

impl DeepView for PythonVersion {
    type V = PythonVersion;

    open spec fn deep_view(&self) -> PythonVersion {
        *self
    }
}

/// A text that does not name a Python version.
#[derive(Debug)]
pub struct InvalidPythonVersionError {
    pub msg: String,
}

impl DeepView for InvalidPythonVersionError {
    type V = Seq<char>;

    open spec fn deep_view(&self) -> Seq<char> {
        self.msg@
    }
}

impl View for InvalidPythonVersionError {
    type V = Seq<char>;

    open spec fn view(&self) -> Seq<char> {
        self.msg@
    }
}

/// What is said of a version whose parts are not all integers.
pub const PARSE_FAILURE: &'static str = "Int parse error";

/// What is said, followed by the text, of a version with more than three
/// parts.
pub const FORM_FAILURE: &'static str =
    "Version string is expected to have the form of 'X.Y.Z' but got ";

/// The version that `text` names: one to three integers of 32 bits set
/// apart by `.`, the missing ones being zero; otherwise what is said of
/// the failure.
pub open spec fn version_of(text: Seq<char>) -> Result<PythonVersion, Seq<char>> {
    let parts = split(text, '.');
    if parts.len() > 3 {
        Err(FORM_FAILURE@ + text)
    } else {
        let major = integer_of(parts[0]);
        let minor = if parts.len() >= 2 {
            integer_of(parts[1])
        } else {
            Some(0i32)
        };
        let micro = if parts.len() >= 3 {
            integer_of(parts[2])
        } else {
            Some(0i32)
        };
        if major is Some && minor is Some && micro is Some {
            Ok(PythonVersion { major: major->0, minor: minor->0, micro: micro->0 })
        } else {
            Err(PARSE_FAILURE@)
        }
    }
}

/// The plain form of the result of reading a version.
pub open spec fn version_result_view(
    result: Result<PythonVersion, InvalidPythonVersionError>,
) -> Result<PythonVersion, Seq<char>> {
    match result {
        Ok(version) => Ok(version),
        Err(error) => Err(error@),
    }
}

impl PythonVersion {
    /// Reads a version of the form `X`, `X.Y` or `X.Y.Z`.
    pub fn new(s: &str) -> (result: Result<PythonVersion, InvalidPythonVersionError>)
        ensures
            version_result_view(result) == version_of(s@),
    {
        let parts = split_on(s, '.');
        proof {
            crate::text::lemma_split_is_not_empty(s@, '.');
        }
        if parts.len() > 3 {
            let mut msg = FORM_FAILURE.to_owned();
            msg.append(s);
            return Err(InvalidPythonVersionError { msg });
        }
        assert(parts[0]@ == parts.deep_view()[0]);
        let major = parse_i32(parts[0].as_str());
        let minor = if parts.len() >= 2 {
            assert(parts[1]@ == parts.deep_view()[1]);
            parse_i32(parts[1].as_str())
        } else {
            Some(0)
        };
        let micro = if parts.len() >= 3 {
            assert(parts[2]@ == parts.deep_view()[2]);
            parse_i32(parts[2].as_str())
        } else {
            Some(0)
        };
        match (major, minor, micro) {
            (Some(major), Some(minor), Some(micro)) => Ok(PythonVersion { major, minor, micro }),
            _ => Err(InvalidPythonVersionError { msg: PARSE_FAILURE.to_owned() }),
        }
    }
}

/// A version written out: its three numbers set apart by `.`.
pub open spec fn version_text(version: PythonVersion) -> Seq<char> {
    integer_text(version.major as int) + seq!['.'] + integer_text(version.minor as int)
        + seq!['.'] + integer_text(version.micro as int)
}

impl PythonVersion {
    /// The version written out as `X.Y.Z`.
    pub fn to_string(&self) -> (text: String)
        ensures
            text@ == version_text(*self),
    {
        proof {
            reveal_strlit(".");
            assert("."@ =~= seq!['.']);
        }
        let mut text = write_integer(self.major as i64);
        text.append(".");
        text.append(write_integer(self.minor as i64).as_str());
        text.append(".");
        text.append(write_integer(self.micro as i64).as_str());
        text
    }
}

/// A version that is written out and read again is the same version.
pub proof fn lemma_version_is_read_back(version: PythonVersion)
    ensures
        version_of(version_text(version)) == Ok::<PythonVersion, Seq<char>>(version),
{
    let major = integer_text(version.major as int);
    let minor = integer_text(version.minor as int);
    let micro = integer_text(version.micro as int);
    lemma_integer_text_is_free_of(version.major as int, '.');
    lemma_integer_text_is_free_of(version.minor as int, '.');
    lemma_integer_text_is_free_of(version.micro as int, '.');
    lemma_integer_text_is_read_back(version.major);
    lemma_integer_text_is_read_back(version.minor);
    lemma_integer_text_is_read_back(version.micro);
    let tail = minor + seq!['.'] + micro;
    assert(version_text(version) =~= major + seq!['.'] + tail);
    lemma_split_after_free_text(major, tail, '.');
    lemma_split_after_free_text(minor, micro, '.');
    lemma_split_of_free_text(micro, '.');
    let parts = split(version_text(version), '.');
    assert(parts =~= seq![major, minor, micro]);
}

} // verus!
