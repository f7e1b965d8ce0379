//! The facts known of one WebAssembly module: what it imports and exports,
//! how large it is, and how complex its code was measured to be.

use crate::text::same_text;
use std::collections::HashMap;
use vstd::prelude::*;

verus! {

/// The namespace under which a module imports the system interface.
pub const WASI_NAMESPACE: &'static str = "wasi_snapshot_preview1";

/// The types of values in a WebAssembly module or component.
#[derive(Clone, Copy, Debug, PartialEq, Eq, Hash, Structural)]
pub enum ValType {
    /// The value type is i32.
    I32,
    /// The value type is i64.
    I64,
    /// The value type is f32.
    F32,
    /// The value type is f64.
    F64,
    /// The value type is v128.
    V128,
    /// The value type is a function reference.
    FuncRef,
    /// The value type is an outside reference.
    ExternRef,
    /// The type is a boolean.
    Bool,
    /// The type is a signed 8-bit integer.
    S8,
    /// The type is an unsigned 8-bit integer.
    U8,
    /// The type is a signed 16-bit integer.
    S16,
    /// The type is an unsigned 16-bit integer.
    U16,
    /// The type is a signed 32-bit integer.
    S32,
    /// The type is an unsigned 32-bit integer.
    U32,
    /// The type is a signed 64-bit integer.
    S64,
    /// The type is an unsigned 64-bit integer.
    U64,
    /// The type is a 32-bit floating point number.
    Float32,
    /// The type is a 64-bit floating point number.
    Float64,
    /// The type is a Unicode character.
    Char,
    /// The type is a string.
    String,
}

impl ValType {
    /// Whether this is a reference type: a function reference or an outside
    /// reference. Only these are allowed in tables.
    pub fn is_reference_type(&self) -> (r: bool)
        ensures
            r == (*self is FuncRef || *self is ExternRef),
    {
        matches!(self, ValType::FuncRef | ValType::ExternRef)
    }

    /// The name of the type, as it is written in policies and reports.
    pub open spec fn name(self) -> Seq<char> {
        match self {
            ValType::I32 => "I32"@,
            ValType::I64 => "I64"@,
            ValType::F32 => "F32"@,
            ValType::F64 => "F64"@,
            ValType::V128 => "V128"@,
            ValType::FuncRef => "FuncRef"@,
            ValType::ExternRef => "ExternRef"@,
            ValType::Bool => "Bool"@,
            ValType::S8 => "S8"@,
            ValType::U8 => "U8"@,
            ValType::S16 => "S16"@,
            ValType::U16 => "U16"@,
            ValType::S32 => "S32"@,
            ValType::U32 => "U32"@,
            ValType::S64 => "S64"@,
            ValType::U64 => "U64"@,
            ValType::Float32 => "Float32"@,
            ValType::Float64 => "Float64"@,
            ValType::Char => "Char"@,
            ValType::String => "String"@,
        }
    }

    /// The name of the type.
    pub fn as_str(&self) -> (r: &'static str)
        ensures
            r@ == self.name(),
    {
        match self {
            ValType::I32 => "I32",
            ValType::I64 => "I64",
            ValType::F32 => "F32",
            ValType::F64 => "F64",
            ValType::V128 => "V128",
            ValType::FuncRef => "FuncRef",
            ValType::ExternRef => "ExternRef",
            ValType::Bool => "Bool",
            ValType::S8 => "S8",
            ValType::U8 => "U8",
            ValType::S16 => "S16",
            ValType::U16 => "U16",
            ValType::S32 => "S32",
            ValType::U32 => "U32",
            ValType::S64 => "S64",
            ValType::U64 => "U64",
            ValType::Float32 => "Float32",
            ValType::Float64 => "Float64",
            ValType::Char => "Char",
            ValType::String => "String",
        }
    }
}

/// A list of types as it is shown in a report: the names between square
/// brackets, separated by a comma and a space.
pub open spec fn type_list(types: Seq<ValType>) -> Seq<char> {
    "["@ + type_names(types) + "]"@
}

/// The names of `types`, separated by a comma and a space.
pub open spec fn type_names(types: Seq<ValType>) -> Seq<char>
    decreases types.len(),
{
    if types.len() == 0 {
        Seq::empty()
    } else if types.len() == 1 {
        types[0].name()
    } else {
        type_names(types.drop_last()) + ", "@ + types.last().name()
    }
}

/// Writes a list of types as it is shown in a report.
pub fn type_list_text(types: &[ValType]) -> (r: String)
    ensures
        r@ == type_list(types@),
{
    let mut r = String::from_str("[");
    let mut i: usize = 0;
    while i < types.len()
        invariant
            i <= types@.len(),
            r@ == "["@ + type_names(types@.take(i as int)),
        decreases types@.len() - i,
    {
        let ghost before = types@.take(i as int);
        let ghost now = types@.take(i + 1);
        assert(now.drop_last() =~= before);
        assert(now.last() == types@[i as int]);
        if i > 0 {
            r.append(", ");
        }
        r.append(types[i].as_str());
        assert(r@ =~= "["@ + type_names(now));
        i += 1;
    }
    assert(types@.take(i as int) =~= types@);
    r.append("]");
    r
}

/// Whether two lists of types are the same, element by element.
pub fn same_types(a: &[ValType], b: &[ValType]) -> (r: bool)
    ensures
        r == (a@ == b@),
{
    if a.len() != b.len() {
        return false;
    }
    let mut i: usize = 0;
    while i < a.len()
        invariant
            i <= a@.len(),
            a@.len() == b@.len(),
            forall|j: int| 0 <= j < i ==> a@[j] == b@[j],
        decreases a@.len() - i,
    {
        if a[i] != b[i] {
            return false;
        }
        i += 1;
    }
    assert(a@ =~= b@);
    true
}

/// A copy of a list of types.
pub fn copy_types(types: &[ValType]) -> (r: Vec<ValType>)
    ensures
        r@ == types@,
{
    let mut r: Vec<ValType> = Vec::new();
    let mut i: usize = 0;
    while i < types.len()
        invariant
            i <= types@.len(),
            r@ == types@.take(i as int),
        decreases types@.len() - i,
    {
        r.push(types[i]);
        assert(r@ =~= types@.take(i + 1));
        i += 1;
    }
    assert(types@.take(i as int) =~= types@);
    r
}

/// The signature of a function: the types it takes and those it returns.
#[derive(Debug, Default, Clone, Hash, PartialEq, Eq)]
pub struct FunctionType {
    pub params: Vec<ValType>,
    pub results: Vec<ValType>,
}

/// A `FunctionType` as contracts speak of it.
pub struct FunctionTypeView {
    pub params: Seq<ValType>,
    pub results: Seq<ValType>,
}

impl View for FunctionType {
    type V = FunctionTypeView;

    open spec fn view(&self) -> FunctionTypeView {
        FunctionTypeView { params: self.params@, results: self.results@ }
    }
}

/// A function by name and signature.
#[derive(Debug, Default, Clone, Hash, PartialEq, Eq)]
pub struct Function {
    pub name: String,
    pub ty: FunctionType,
}

/// A `Function` as contracts speak of it.
pub struct FunctionView {
    pub name: Seq<char>,
    pub ty: FunctionTypeView,
}

impl View for Function {
    type V = FunctionView;

    open spec fn view(&self) -> FunctionView {
        FunctionView { name: self.name@, ty: self.ty@ }
    }
}

/// A function that a module imports from a namespace.
#[derive(Debug, Default, Clone, PartialEq, Eq, Hash)]
pub struct Import {
    pub module_name: String,
    pub func: Function,
}

/// An `Import` as contracts speak of it.
pub struct ImportView {
    pub module_name: Seq<char>,
    pub func: FunctionView,
}

impl View for Import {
    type V = ImportView;

    open spec fn view(&self) -> ImportView {
        ImportView { module_name: self.module_name@, func: self.func@ }
    }
}

/// A function that a module exports.
#[derive(Debug, Default, Clone, PartialEq, Eq)]
pub struct Export {
    pub func: Function,
}

/// An `Export` as contracts speak of it.
pub struct ExportView {
    pub func: FunctionView,
}

impl View for Export {
    type V = ExportView;

    open spec fn view(&self) -> ExportView {
        ExportView { func: self.func@ }
    }
}

/// The language a module was written in, as far as its binary tells.
#[non_exhaustive]
#[derive(Debug, Clone, Copy, PartialEq, Eq, Structural)]
pub enum SourceLanguage {
    Unknown,
    Rust,
    Go,
    C,
    Cpp,
    AssemblyScript,
    Swift,
    JavaScript,
    Haskell,
    Zig,
}

impl SourceLanguage {
    /// The name under which the language is shown and recognised.
    pub open spec fn name(self) -> Seq<char> {
        match self {
            SourceLanguage::Unknown => "Unknown"@,
            SourceLanguage::Rust => "Rust"@,
            SourceLanguage::Go => "Go"@,
            SourceLanguage::C => "C"@,
            SourceLanguage::Cpp => "C++"@,
            SourceLanguage::AssemblyScript => "AssemblyScript"@,
            SourceLanguage::Swift => "Swift"@,
            SourceLanguage::JavaScript => "JavaScript"@,
            SourceLanguage::Haskell => "Haskell"@,
            SourceLanguage::Zig => "Zig"@,
        }
    }

    /// The language that a name stands for; any name that is not that of a
    /// known language stands for `Unknown`.
    pub open spec fn named(s: Seq<char>) -> SourceLanguage {
        if s == "Rust"@ {
            SourceLanguage::Rust
        } else if s == "Go"@ {
            SourceLanguage::Go
        } else if s == "C"@ {
            SourceLanguage::C
        } else if s == "C++"@ {
            SourceLanguage::Cpp
        } else if s == "AssemblyScript"@ {
            SourceLanguage::AssemblyScript
        } else if s == "Swift"@ {
            SourceLanguage::Swift
        } else if s == "JavaScript"@ {
            SourceLanguage::JavaScript
        } else if s == "Haskell"@ {
            SourceLanguage::Haskell
        } else if s == "Zig"@ {
            SourceLanguage::Zig
        } else {
            SourceLanguage::Unknown
        }
    }

    /// The name of the language.
    pub fn as_str(&self) -> (r: &'static str)
        ensures
            r@ == self.name(),
    {
        match self {
            SourceLanguage::Unknown => "Unknown",
            SourceLanguage::Rust => "Rust",
            SourceLanguage::Go => "Go",
            SourceLanguage::C => "C",
            SourceLanguage::Cpp => "C++",
            SourceLanguage::AssemblyScript => "AssemblyScript",
            SourceLanguage::Swift => "Swift",
            SourceLanguage::JavaScript => "JavaScript",
            SourceLanguage::Haskell => "Haskell",
            SourceLanguage::Zig => "Zig",
        }
    }

    /// The name of the language, as an owned string.
    pub fn to_string(&self) -> (r: String)
        ensures
            r@ == self.name(),
    {
        String::from_str(self.as_str())
    }

    /// Recognises a language by its name.
    pub fn from_name(s: &str) -> (r: SourceLanguage)
        ensures
            r == SourceLanguage::named(s@),
    {
        if same_text(s, "Rust") {
            SourceLanguage::Rust
        } else if same_text(s, "Go") {
            SourceLanguage::Go
        } else if same_text(s, "C") {
            SourceLanguage::C
        } else if same_text(s, "C++") {
            SourceLanguage::Cpp
        } else if same_text(s, "AssemblyScript") {
            SourceLanguage::AssemblyScript
        } else if same_text(s, "Swift") {
            SourceLanguage::Swift
        } else if same_text(s, "JavaScript") {
            SourceLanguage::JavaScript
        } else if same_text(s, "Haskell") {
            SourceLanguage::Haskell
        } else if same_text(s, "Zig") {
            SourceLanguage::Zig
        } else {
            SourceLanguage::Unknown
        }
    }
}

impl Default for SourceLanguage {
    fn default() -> (r: SourceLanguage)
        ensures
            r == SourceLanguage::Unknown,
    {
        SourceLanguage::Unknown
    }
}

impl From<String> for SourceLanguage {
    fn from(s: String) -> (r: SourceLanguage) {
        SourceLanguage::from_name(s.as_str())
    }
}

impl vstd::std_specs::convert::FromSpecImpl<String> for SourceLanguage {
    open spec fn obeys_from_spec() -> bool {
        true
    }

    open spec fn from_spec(s: String) -> SourceLanguage {
        SourceLanguage::named(s@)
    }
}

/// The views of a list of imports.
pub open spec fn import_views(imports: Seq<Import>) -> Seq<ImportView> {
    imports.map_values(|i: Import| i@)
}

/// The views of a list of exports.
pub open spec fn export_views(exports: Seq<Export>) -> Seq<ExportView> {
    exports.map_values(|e: Export| e@)
}

/// A description of a module taken from its binary.
#[derive(Debug, Clone, PartialEq, Eq)]
pub struct Module {
    /// sha256 hash of the module's raw bytes
    pub hash: String,
    /// the functions that the module imports
    pub imports: Vec<Import>,
    /// the functions that the module exports
    pub exports: Vec<Export>,
    /// size in bytes of the module
    pub size: u64,
    /// path or locator to the module
    pub location: String,
    /// programming language used to produce this module
    pub source_language: SourceLanguage,
    /// arbitrary metadata provided by the operator of this module
    pub metadata: Option<HashMap<String, String>>,
    /// when this module was loaded and stored
    pub inserted_at: u64,
    /// the interned strings stored in the binary
    pub strings: Vec<String>,
    /// cyclomatic complexity of the module
    pub complexity: Option<u32>,
    /// the call graph in Dot format
    pub graph: Option<Vec<u8>>,
    /// function hashes
    pub function_hashes: HashMap<String, String>,
}

/// The part of a module that policies speak of.
pub struct ModuleView {
    pub hash: Seq<char>,
    pub imports: Seq<ImportView>,
    pub exports: Seq<ExportView>,
    pub size: u64,
    pub complexity: Option<u32>,
}

impl View for Module {
    type V = ModuleView;

    open spec fn view(&self) -> ModuleView {
        ModuleView {
            hash: self.hash@,
            imports: import_views(self.imports@),
            exports: export_views(self.exports@),
            size: self.size,
            complexity: self.complexity,
        }
    }
}

impl ModuleView {
    /// The namespaces that the module imports from, each once, in the order
    /// in which the imports first name them.
    pub open spec fn namespaces(self) -> Seq<Seq<char>> {
        distinct_namespaces(self.imports)
    }

    /// Whether the module imports anything from `namespace`.
    pub open spec fn imports_from(self, namespace: Seq<char>) -> bool {
        exists|i: int| 0 <= i < self.imports.len() && self.imports[i].module_name == namespace
    }

    /// Whether the module imports the system interface.
    pub open spec fn uses_wasi(self) -> bool {
        self.imports_from(WASI_NAMESPACE@)
    }
}

/// The namespaces of `imports` without repetition, in order of first mention.
pub open spec fn distinct_namespaces(imports: Seq<ImportView>) -> Seq<Seq<char>>
    decreases imports.len(),
{
    if imports.len() == 0 {
        Seq::empty()
    } else {
        let before = distinct_namespaces(imports.drop_last());
        let namespace = imports.last().module_name;
        if before.contains(namespace) {
            before
        } else {
            before.push(namespace)
        }
    }
}

/// The distinct namespaces are exactly the namespaces of the imports, and
/// none is listed twice.
pub proof fn lemma_distinct_namespaces(imports: Seq<ImportView>)
    ensures
        distinct_namespaces(imports).no_duplicates(),
        forall|ns: Seq<char>|
            distinct_namespaces(imports).contains(ns) <==> exists|i: int|
                0 <= i < imports.len() && imports[i].module_name == ns,
    decreases imports.len(),
{
    if imports.len() > 0 {
        let shorter = imports.drop_last();
        let before = distinct_namespaces(shorter);
        let namespace = imports.last().module_name;
        lemma_distinct_namespaces(shorter);
        let all = distinct_namespaces(imports);
        assert forall|ns: Seq<char>|
            all.contains(ns) <==> exists|i: int|
                0 <= i < imports.len() && imports[i].module_name == ns by {
            if all.contains(ns) {
                if before.contains(ns) {
                    let i = choose|i: int| 0 <= i < shorter.len() && shorter[i].module_name == ns;
                    assert(imports[i].module_name == ns);
                } else {
                    let k = choose|k: int| 0 <= k < all.len() && all[k] == ns;
                    if k < before.len() {
                        assert(before[k] == ns);
                    }
                    assert(ns == namespace);
                    assert(imports[imports.len() - 1].module_name == ns);
                }
            }
            if exists|i: int| 0 <= i < imports.len() && imports[i].module_name == ns {
                let i = choose|i: int| 0 <= i < imports.len() && imports[i].module_name == ns;
                if i < shorter.len() {
                    assert(shorter[i].module_name == ns);
                    assert(before.contains(ns));
                    let k = choose|k: int| 0 <= k < before.len() && before[k] == ns;
                    assert(all[k] == ns);
                } else {
                    assert(ns == namespace);
                    if before.contains(ns) {
                    } else {
                        assert(all[before.len() as int] == ns);
                    }
                }
            }
        }
    } else {
        assert forall|ns: Seq<char>|
            distinct_namespaces(imports).contains(ns) <==> exists|i: int|
                0 <= i < imports.len() && imports[i].module_name == ns by {
            if distinct_namespaces(imports).contains(ns) {
                let k = choose|k: int|
                    0 <= k < distinct_namespaces(imports).len() && distinct_namespaces(imports)[k]
                        == ns;
            }
        }
    }
}

/// The texts that a list of borrowed strings holds.
pub open spec fn texts(names: Seq<&str>) -> Seq<Seq<char>> {
    names.map_values(|s: &str| s@)
}

fn holds_text(names: &Vec<&str>, name: &str) -> (r: bool)
    ensures
        r == texts(names@).contains(name@),
{
    let mut i: usize = 0;
    while i < names.len()
        invariant
            i <= names@.len(),
            forall|j: int| 0 <= j < i ==> texts(names@)[j] != name@,
        decreases names@.len() - i,
    {
        if same_text(names[i], name) {
            assert(texts(names@)[i as int] == name@);
            return true;
        }
        i += 1;
    }
    false
}

impl Module {
    /// The namespaces from which this module imports functions, each once,
    /// in the order in which the imports first name them.
    pub fn get_import_namespaces(&self) -> (r: Vec<&str>)
        ensures
            texts(r@) == self@.namespaces(),
    {
        let mut r: Vec<&str> = Vec::new();
        let mut i: usize = 0;
        while i < self.imports.len()
            invariant
                i <= self.imports@.len(),
                texts(r@) == distinct_namespaces(self@.imports.take(i as int)),
            decreases self.imports@.len() - i,
        {
            let ghost now = self@.imports.take(i + 1);
            assert(now.drop_last() =~= self@.imports.take(i as int));
            assert(now.last() == self.imports@[i as int]@);
            let namespace = self.imports[i].module_name.as_str();
            if !holds_text(&r, namespace) {
                let ghost before = texts(r@);
                r.push(namespace);
                assert(texts(r@) =~= before.push(namespace@));
            }
            i += 1;
        }
        assert(self@.imports.take(i as int) =~= self@.imports);
        r
    }

    /// Whether this module imports the system interface.
    pub fn uses_wasi(&self) -> (r: bool)
        ensures
            r == self@.uses_wasi(),
    {
        let mut i: usize = 0;
        while i < self.imports.len()
            invariant
                i <= self.imports@.len(),
                forall|j: int| 0 <= j < i ==> self@.imports[j].module_name != WASI_NAMESPACE@,
            decreases self.imports@.len() - i,
        {
            if same_text(self.imports[i].module_name.as_str(), WASI_NAMESPACE) {
                assert(self@.imports[i as int].module_name == WASI_NAMESPACE@);
                return true;
            }
            i += 1;
        }
        false
    }
}

impl Default for Module {
    fn default() -> (r: Module)
        ensures
            r@.hash.len() == 0,
            r@.imports.len() == 0,
            r@.exports.len() == 0,
            r@.size == 0,
            r@.complexity is None,
            r.location@.len() == 0,
            r.source_language == SourceLanguage::Unknown,
            r.metadata is None,
            r.inserted_at == 0,
            r.strings@.len() == 0,
            r.graph is None,
            r.function_hashes@ == Map::<String, String>::empty(),
    {
        Module {
            hash: String::new(),
            imports: Vec::new(),
            exports: Vec::new(),
            size: 0,
            location: String::new(),
            source_language: SourceLanguage::Unknown,
            metadata: None,
            inserted_at: 0,
            strings: Vec::new(),
            complexity: None,
            graph: None,
            function_hashes: HashMap::new(),
        }
    }
}

} // verus!
