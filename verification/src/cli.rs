//! What the command line hands to the library and takes back from it:
//! arguments read as what they stand for, and results as rows to show.

use crate::module::SourceLanguage;
use crate::number::{i64_of, parse_i64};
use crate::text::same_text;
use vstd::prelude::*;
use vstd::string::*;
use vstd::utf8::*;

verus! {

/// The input of a plugin call: the bytes themselves, or the path of a
/// file that holds them.
#[derive(Clone, Debug, PartialEq, Eq)]
pub enum BytesOrPath {
    Bytes(Vec<u8>),
    Path(String),
}

/// A `BytesOrPath` as contracts speak of it.
pub enum BytesOrPathView {
    Bytes(Seq<u8>),
    Path(Seq<char>),
}

impl View for BytesOrPath {
    type V = BytesOrPathView;

    open spec fn view(&self) -> BytesOrPathView {
        match self {
            BytesOrPath::Bytes(b) => BytesOrPathView::Bytes(b@),
            BytesOrPath::Path(p) => BytesOrPathView::Path(p@),
        }
    }
}

impl BytesOrPath {
    /// What an argument stands for: after an `@` the path of a file, and
    /// otherwise its own bytes.
    pub open spec fn read(s: Seq<char>) -> BytesOrPathView {
        if s.len() > 0 && s[0] == '@' {
            BytesOrPathView::Path(s.skip(1))
        } else {
            BytesOrPathView::Bytes(encode_utf8(s))
        }
    }

    /// Reads an argument as bytes or as the path of a file.
    pub fn from(s: &String) -> (r: Self)
        ensures
            r@ == BytesOrPath::read(s@),
    {
        let text = s.as_str();
        let len = text.unicode_len();
        if len > 0 && text.get_char(0) == '@' {
            let rest = text.substring_char(1, len);
            assert(rest@ =~= s@.skip(1));
            BytesOrPath::Path(String::from_str(rest))
        } else {
            BytesOrPath::Bytes(text.as_bytes_vec())
        }
    }
}

/// How results are written out.
#[derive(Clone, Copy, Debug, PartialEq, Eq, Structural)]
pub enum OutputFormat {
    Json,
    Table,
}

impl OutputFormat {
    /// The format that a word stands for: JSON for `json`, a table for any
    /// other.
    pub open spec fn named(word: Seq<char>) -> OutputFormat {
        if word == "json"@ {
            OutputFormat::Json
        } else {
            OutputFormat::Table
        }
    }

    /// The format that a word stands for.
    pub fn from_word(word: &str) -> (r: OutputFormat)
        ensures
            r == OutputFormat::named(word@),
    {
        if same_text(word, "json") {
            OutputFormat::Json
        } else {
            OutputFormat::Table
        }
    }
}

impl Default for OutputFormat {
    fn default() -> (r: OutputFormat)
        ensures
            r == OutputFormat::Table,
    {
        OutputFormat::Table
    }
}

impl From<String> for OutputFormat {
    fn from(value: String) -> (r: OutputFormat) {
        OutputFormat::from_word(value.as_str())
    }
}

impl vstd::std_specs::convert::FromSpecImpl<String> for OutputFormat {
    open spec fn obeys_from_spec() -> bool {
        true
    }

    open spec fn from_spec(value: String) -> OutputFormat {
        OutputFormat::named(value@)
    }
}

/// A module named on the command line: by its identifier in the catalog,
/// or by the name of a file.
#[derive(Clone, Debug, PartialEq, Eq)]
pub enum IdOrFilename {
    Id(i64),
    Filename(String),
}

/// An `IdOrFilename` as contracts speak of it.
pub enum IdOrFilenameView {
    Id(i64),
    Filename(Seq<char>),
}

impl View for IdOrFilename {
    type V = IdOrFilenameView;

    open spec fn view(&self) -> IdOrFilenameView {
        match self {
            IdOrFilename::Id(id) => IdOrFilenameView::Id(*id),
            IdOrFilename::Filename(name) => IdOrFilenameView::Filename(name@),
        }
    }
}

impl IdOrFilename {
    /// What an argument stands for: an identifier where it spells a whole
    /// number, and otherwise the name of a file.
    pub open spec fn read(s: Seq<char>) -> IdOrFilenameView {
        match i64_of(s) {
            Some(id) => IdOrFilenameView::Id(id),
            None => IdOrFilenameView::Filename(s),
        }
    }

    /// Reads an argument as an identifier or as the name of a file.
    pub fn parse(s: String) -> (r: Self)
        ensures
            r@ == IdOrFilename::read(s@),
    {
        match parse_i64(s.as_str()) {
            Some(x) => IdOrFilename::Id(x),
            None => IdOrFilename::Filename(s),
        }
    }
}

/// A module of the catalog as a list of results shows it.
#[derive(Clone, Debug, PartialEq, Eq)]
pub struct ApiResult<'a> {
    pub module_id: i64,
    pub hash: String,
    pub file_name: String,
    pub exports: usize,
    pub imports: usize,
    pub namespaces: Vec<&'a str>,
    pub source_language: SourceLanguage,
    pub size: String,
}

/// A list of modules of the catalog.
#[derive(Clone, Debug, PartialEq, Eq)]
pub struct ApiResults<'a> {
    pub results: Vec<ApiResult<'a>>,
}

/// A module of the catalog by identifier and hash alone.
#[derive(Clone, Debug, PartialEq, Eq)]
pub struct SimpleApiResult {
    pub module_id: i64,
    pub hash: String,
}

/// A list of modules by identifier and hash alone.
#[derive(Clone, Debug, PartialEq, Eq)]
pub struct SimpleApiResults {
    pub results: Vec<SimpleApiResult>,
}

} // verus!
