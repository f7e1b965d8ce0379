//! The messages of the catalog as plain values: what each holds once it has
//! been read off the wire, with every enumeration resolved to a variant.

use std::collections::HashMap;
use vstd::prelude::*;

verus! {

/// The language of a module as the catalog knows it.
#[derive(Clone, Copy, Debug, PartialEq, Eq, Structural)]
pub enum SourceLanguage {
    Unknown,
    Rust,
    Go,
    C,
    Cpp,
    AssemblyScript,
}

/// A value type as the catalog knows it.
#[derive(Clone, Copy, Debug, PartialEq, Eq, Structural)]
pub enum ValType {
    I32,
    I64,
    F32,
    F64,
    V128,
    FuncRef,
    ExternRef,
    Bool,
    S8,
    U8,
    S16,
    U16,
    S32,
    U32,
    S64,
    U64,
    Float32,
    Float64,
    Char,
    String,
}

/// The direction of a sort.
#[derive(Clone, Copy, Debug, PartialEq, Eq, Structural)]
pub enum Direction {
    Asc,
    Desc,
}

/// What a search is sorted by.
#[derive(Clone, Copy, Debug, PartialEq, Eq, Structural)]
pub enum Field {
    CreatedAt,
    Name,
    Size,
    Language,
    ImportsCount,
    ExportsCount,
    Sha256,
    Complexity,
}

/// How an audit came out for a module.
#[derive(Clone, Copy, Debug, PartialEq, Eq, Structural)]
pub enum AuditOutcome {
    PASS,
    FAIL,
}

/// The order of the results of a search.
#[derive(Clone, Copy, Debug, PartialEq, Eq, Structural)]
pub struct Sort {
    pub direction: Direction,
    pub field: Field,
}

/// The window of results that a request asks for.
#[derive(Clone, Copy, Debug, PartialEq, Eq, Structural)]
pub struct Pagination {
    pub offset: u32,
    pub limit: u32,
}

/// A function with its signature.
#[derive(Clone, Debug, Default, PartialEq, Eq)]
pub struct Function {
    pub name: String,
    pub params: Vec<ValType>,
    pub results: Vec<ValType>,
}

/// An import; the function may be missing from the message.
#[derive(Clone, Debug, Default, PartialEq, Eq)]
pub struct Import {
    pub module_name: String,
    pub func: Option<Function>,
}

/// An export; the function may be missing from the message.
#[derive(Clone, Debug, Default, PartialEq, Eq)]
pub struct Export {
    pub func: Option<Function>,
}

/// A module as the catalog stores it.
#[derive(Clone, Debug, PartialEq, Eq)]
pub struct Module {
    pub id: i64,
    pub hash: String,
    pub imports: Vec<Import>,
    pub exports: Vec<Export>,
    pub size: u64,
    pub location: String,
    pub source_language: SourceLanguage,
    pub metadata: HashMap<String, String>,
    pub inserted_at: u64,
    pub strings: Vec<String>,
    pub complexity: Option<u32>,
    pub graph: Option<Vec<u8>>,
    pub function_hashes: HashMap<String, String>,
}

/// A request to audit the modules of the catalog against a policy.
#[derive(Clone, Debug, PartialEq, Eq)]
pub struct AuditModulesRequest {
    pub pagination: Option<Pagination>,
    pub outcome: AuditOutcome,
    pub checkfile: Vec<u8>,
}

} // verus!
