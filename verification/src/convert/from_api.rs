//! From the messages of the catalog to the types of this library.

use crate::convert::api;
use crate::convert::types::{Audit, AuditOutcome, Order, Pagination, Sort, SortField};
use crate::module::{
    export_views, import_views, Export, ExportView, Function, FunctionType, FunctionTypeView,
    FunctionView, Import, ImportView, Module, ModuleView, SourceLanguage, ValType,
};
use std::collections::HashMap;
use vstd::prelude::*;

verus! {

/// The language that a language of the catalog stands for.
pub open spec fn read_language(src: api::SourceLanguage) -> SourceLanguage {
    match src {
        api::SourceLanguage::Unknown => SourceLanguage::Unknown,
        api::SourceLanguage::AssemblyScript => SourceLanguage::AssemblyScript,
        api::SourceLanguage::C => SourceLanguage::C,
        api::SourceLanguage::Cpp => SourceLanguage::Cpp,
        api::SourceLanguage::Go => SourceLanguage::Go,
        api::SourceLanguage::Rust => SourceLanguage::Rust,
    }
}

/// The language that a language of the catalog stands for.
pub fn source_language(src: api::SourceLanguage) -> (r: SourceLanguage)
    ensures
        r == read_language(src),
{
    match src {
        api::SourceLanguage::Unknown => SourceLanguage::Unknown,
        api::SourceLanguage::AssemblyScript => SourceLanguage::AssemblyScript,
        api::SourceLanguage::C => SourceLanguage::C,
        api::SourceLanguage::Cpp => SourceLanguage::Cpp,
        api::SourceLanguage::Go => SourceLanguage::Go,
        api::SourceLanguage::Rust => SourceLanguage::Rust,
    }
}

/// The value type that a value type of the catalog stands for: itself for
/// the types of core WebAssembly, an outside reference for those of
/// components.
pub open spec fn read_val_type(v: api::ValType) -> ValType {
    match v {
        api::ValType::I32 => ValType::I32,
        api::ValType::I64 => ValType::I64,
        api::ValType::F32 => ValType::F32,
        api::ValType::F64 => ValType::F64,
        api::ValType::V128 => ValType::V128,
        api::ValType::FuncRef => ValType::FuncRef,
        _ => ValType::ExternRef,
    }
}

/// The value type that a value type of the catalog stands for.
pub fn val_type(v: api::ValType) -> (r: ValType)
    ensures
        r == read_val_type(v),
{
    match v {
        api::ValType::I32 => ValType::I32,
        api::ValType::I64 => ValType::I64,
        api::ValType::F32 => ValType::F32,
        api::ValType::F64 => ValType::F64,
        api::ValType::V128 => ValType::V128,
        api::ValType::FuncRef => ValType::FuncRef,
        api::ValType::ExternRef => ValType::ExternRef,
        api::ValType::Bool => ValType::ExternRef,
        api::ValType::S8 => ValType::ExternRef,
        api::ValType::U8 => ValType::ExternRef,
        api::ValType::S16 => ValType::ExternRef,
        api::ValType::U16 => ValType::ExternRef,
        api::ValType::S32 => ValType::ExternRef,
        api::ValType::U32 => ValType::ExternRef,
        api::ValType::S64 => ValType::ExternRef,
        api::ValType::U64 => ValType::ExternRef,
        api::ValType::Float32 => ValType::ExternRef,
        api::ValType::Float64 => ValType::ExternRef,
        api::ValType::Char => ValType::ExternRef,
        api::ValType::String => ValType::ExternRef,
    }
}

/// The value types that the value types of a message stand for, one for one.
pub fn val_types(v: Vec<api::ValType>) -> (r: Vec<ValType>)
    ensures
        r@ == v@.map_values(|x: api::ValType| read_val_type(x)),
{
    let mut r: Vec<ValType> = Vec::new();
    let mut i: usize = 0;
    while i < v.len()
        invariant
            i <= v@.len(),
            r@ == v@.take(i as int).map_values(|x: api::ValType| read_val_type(x)),
        decreases v@.len() - i,
    {
        r.push(val_type(v[i]));
        assert(r@ =~= v@.take(i + 1).map_values(|x: api::ValType| read_val_type(x)));
        i += 1;
    }
    assert(v@.take(i as int) =~= v@);
    r
}

/// The order that the order of a message stands for.
pub fn sort(message: api::Sort) -> (r: Sort)
    ensures
        r.order == match message.direction {
            api::Direction::Asc => Order::Asc,
            api::Direction::Desc => Order::Desc,
        },
        r.field == match message.field {
            api::Field::CreatedAt => SortField::CreatedAt,
            api::Field::ExportsCount => SortField::ExportsCount,
            api::Field::ImportsCount => SortField::ImportsCount,
            api::Field::Language => SortField::Language,
            api::Field::Name => SortField::Name,
            api::Field::Sha256 => SortField::Sha256,
            api::Field::Size => SortField::Size,
            api::Field::Complexity => SortField::Complexity,
        },
{
    Sort {
        order: match message.direction {
            api::Direction::Asc => Order::Asc,
            api::Direction::Desc => Order::Desc,
        },
        field: match message.field {
            api::Field::CreatedAt => SortField::CreatedAt,
            api::Field::ExportsCount => SortField::ExportsCount,
            api::Field::ImportsCount => SortField::ImportsCount,
            api::Field::Language => SortField::Language,
            api::Field::Name => SortField::Name,
            api::Field::Sha256 => SortField::Sha256,
            api::Field::Size => SortField::Size,
            api::Field::Complexity => SortField::Complexity,
        },
    }
}

/// The function that the function of a message stands for; one that is
/// missing stands for a function without name, parameters or results.
pub open spec fn read_function(func: Option<api::Function>) -> FunctionView {
    match func {
        Some(f) => FunctionView {
            name: f.name@,
            ty: FunctionTypeView {
                params: f.params@.map_values(|x: api::ValType| read_val_type(x)),
                results: f.results@.map_values(|x: api::ValType| read_val_type(x)),
            },
        },
        None => FunctionView {
            name: Seq::empty(),
            ty: FunctionTypeView { params: Seq::empty(), results: Seq::empty() },
        },
    }
}

fn function(func: Option<api::Function>) -> (r: Function)
    ensures
        r@ == read_function(func),
{
    match func {
        Some(f) => Function {
            name: f.name,
            ty: FunctionType { params: val_types(f.params), results: val_types(f.results) },
        },
        None => Function {
            name: String::new(),
            ty: FunctionType { params: Vec::new(), results: Vec::new() },
        },
    }
}

fn copy_wire_types(types: &Vec<api::ValType>) -> (r: Vec<api::ValType>)
    ensures
        r@ == types@,
{
    let mut r: Vec<api::ValType> = Vec::new();
    let mut i: usize = 0;
    while i < types.len()
        invariant
            i <= types@.len(),
            r@ == types@.take(i as int),
        decreases types@.len() - i,
    {
        r.push(types[i]);
        assert(r@ =~= types@.take(i + 1));
        i += 1;
    }
    assert(types@.take(i as int) =~= types@);
    r
}

fn copy_function(func: &Option<api::Function>) -> (r: Option<api::Function>)
    ensures
        read_function(r) == read_function(*func),
{
    match func {
        Some(f) => Some(
            api::Function {
                name: f.name.clone(),
                params: copy_wire_types(&f.params),
                results: copy_wire_types(&f.results),
            },
        ),
        None => None,
    }
}

/// The import that the import of a message stands for.
pub open spec fn read_import(import: api::Import) -> ImportView {
    ImportView { module_name: import.module_name@, func: read_function(import.func) }
}

/// The export that the export of a message stands for.
pub open spec fn read_export(export: api::Export) -> ExportView {
    ExportView { func: read_function(export.func) }
}

/// The import that the import of a message stands for.
pub fn import(message: api::Import) -> (r: Import)
    ensures
        r@ == read_import(message),
{
    Import { module_name: message.module_name, func: function(message.func) }
}

/// The imports that the imports of a message stand for, one for one.
pub fn imports(messages: Vec<api::Import>) -> (r: Vec<Import>)
    ensures
        import_views(r@) == messages@.map_values(|i: api::Import| read_import(i)),
{
    let mut r: Vec<Import> = Vec::new();
    let mut i: usize = 0;
    while i < messages.len()
        invariant
            i <= messages@.len(),
            import_views(r@) == messages@.take(i as int).map_values(
                |i: api::Import| read_import(i),
            ),
        decreases messages@.len() - i,
    {
        let ghost before = import_views(r@);
        let message = &messages[i];
        let converted = import(
            api::Import {
                module_name: message.module_name.clone(),
                func: copy_function(&message.func),
            },
        );
        assert(converted@ == read_import(messages@[i as int]));
        r.push(converted);
        assert(import_views(r@) =~= before.push(converted@));
        assert(import_views(r@) =~= messages@.take(i + 1).map_values(
            |i: api::Import| read_import(i),
        ));
        i += 1;
    }
    assert(messages@.take(i as int) =~= messages@);
    r
}

/// The export that the export of a message stands for.
pub fn export(message: api::Export) -> (r: Export)
    ensures
        r@ == read_export(message),
{
    Export { func: function(message.func) }
}

/// The exports that the exports of a message stand for, one for one.
pub fn exports(messages: Vec<api::Export>) -> (r: Vec<Export>)
    ensures
        export_views(r@) == messages@.map_values(|e: api::Export| read_export(e)),
{
    let mut r: Vec<Export> = Vec::new();
    let mut i: usize = 0;
    while i < messages.len()
        invariant
            i <= messages@.len(),
            export_views(r@) == messages@.take(i as int).map_values(
                |e: api::Export| read_export(e),
            ),
        decreases messages@.len() - i,
    {
        let ghost before = export_views(r@);
        let converted = export(api::Export { func: copy_function(&messages[i].func) });
        assert(converted@ == read_export(messages@[i as int]));
        r.push(converted);
        assert(export_views(r@) =~= before.push(converted@));
        assert(export_views(r@) =~= messages@.take(i + 1).map_values(
            |e: api::Export| read_export(e),
        ));
        i += 1;
    }
    assert(messages@.take(i as int) =~= messages@);
    r
}

/// The texts that a list of strings holds.
pub open spec fn string_views(strings: Seq<String>) -> Seq<Seq<char>> {
    strings.map_values(|s: String| s@)
}

/// The bytes that an optional list holds.
pub open spec fn optional_bytes(bytes: Option<Vec<u8>>) -> Option<Seq<u8>> {
    match bytes {
        Some(b) => Some(b@),
        None => None,
    }
}

fn copy_strings(strings: &Vec<String>) -> (r: Vec<String>)
    ensures
        string_views(r@) == string_views(strings@),
{
    let mut r: Vec<String> = Vec::new();
    let mut i: usize = 0;
    assert(string_views(r@) =~= string_views(strings@).take(0));
    while i < strings.len()
        invariant
            i <= strings@.len(),
            string_views(r@) == string_views(strings@).take(i as int),
        decreases strings@.len() - i,
    {
        let ghost before = string_views(r@);
        let s = strings[i].clone();
        r.push(s);
        assert(string_views(r@) =~= before.push(s@));
        assert(string_views(r@) =~= string_views(strings@).take(i + 1));
        i += 1;
    }
    assert(string_views(strings@).take(i as int) =~= string_views(strings@));
    r
}

fn copy_bytes(bytes: &Option<Vec<u8>>) -> (r: Option<Vec<u8>>)
    ensures
        optional_bytes(r) == optional_bytes(*bytes),
{
    match bytes {
        Some(b) => {
            let mut r: Vec<u8> = Vec::new();
            let mut i: usize = 0;
            while i < b.len()
                invariant
                    i <= b@.len(),
                    r@ == b@.take(i as int),
                decreases b@.len() - i,
            {
                r.push(b[i]);
                assert(r@ =~= b@.take(i + 1));
                i += 1;
            }
            assert(b@.take(i as int) =~= b@);
            Some(r)
        },
        None => None,
    }
}

fn copy_imports(messages: &Vec<api::Import>) -> (r: Vec<api::Import>)
    ensures
        r@.map_values(|i: api::Import| read_import(i)) == messages@.map_values(
            |i: api::Import| read_import(i),
        ),
{
    let mut r: Vec<api::Import> = Vec::new();
    let mut i: usize = 0;
    while i < messages.len()
        invariant
            i <= messages@.len(),
            r@.len() == i,
            forall|j: int| 0 <= j < i ==> read_import(#[trigger] r@[j]) == read_import(messages@[j]),
        decreases messages@.len() - i,
    {
        r.push(
            api::Import {
                module_name: messages[i].module_name.clone(),
                func: copy_function(&messages[i].func),
            },
        );
        i += 1;
    }
    assert(r@.map_values(|i: api::Import| read_import(i)) =~= messages@.map_values(
        |i: api::Import| read_import(i),
    ));
    r
}

fn copy_exports(messages: &Vec<api::Export>) -> (r: Vec<api::Export>)
    ensures
        r@.map_values(|e: api::Export| read_export(e)) == messages@.map_values(
            |e: api::Export| read_export(e),
        ),
{
    let mut r: Vec<api::Export> = Vec::new();
    let mut i: usize = 0;
    while i < messages.len()
        invariant
            i <= messages@.len(),
            r@.len() == i,
            forall|j: int| 0 <= j < i ==> read_export(#[trigger] r@[j]) == read_export(messages@[j]),
        decreases messages@.len() - i,
    {
        r.push(api::Export { func: copy_function(&messages[i].func) });
        i += 1;
    }
    assert(r@.map_values(|e: api::Export| read_export(e)) =~= messages@.map_values(
        |e: api::Export| read_export(e),
    ));
    r
}

/// What policies speak of in the module that a module of the catalog
/// stands for.
pub open spec fn read_module(message: api::Module) -> ModuleView {
    ModuleView {
        hash: message.hash@,
        imports: message.imports@.map_values(|i: api::Import| read_import(i)),
        exports: message.exports@.map_values(|e: api::Export| read_export(e)),
        size: message.size,
        complexity: message.complexity,
    }
}

/// What a module holds besides what policies speak of, given the module
/// of the catalog that it stands for.
pub open spec fn same_description(module: Module, message: api::Module) -> bool {
    &&& module.location@ == message.location@
    &&& module.source_language == read_language(message.source_language)
    &&& module.inserted_at == message.inserted_at
    &&& string_views(module.strings@) == string_views(message.strings@)
    &&& optional_bytes(module.graph) == optional_bytes(message.graph)
    &&& module.function_hashes@ == message.function_hashes@
}

/// The module that a module of the catalog stands for, with all of the
/// metadata that the catalog holds of it.
pub fn module(message: &api::Module) -> (r: Module)
    ensures
        r@ == read_module(*message),
        same_description(r, *message),
        r.metadata is Some,
        r.metadata->0@ == message.metadata@,
{
    Module {
        hash: message.hash.clone(),
        imports: imports(copy_imports(&message.imports)),
        exports: exports(copy_exports(&message.exports)),
        size: message.size,
        location: message.location.clone(),
        source_language: source_language(message.source_language),
        metadata: Some(message.metadata.clone()),
        inserted_at: message.inserted_at,
        strings: copy_strings(&message.strings),
        complexity: message.complexity,
        graph: copy_bytes(&message.graph),
        function_hashes: message.function_hashes.clone(),
    }
}

/// The module that a module of the catalog stands for, with its metadata
/// only where the catalog holds any.
pub fn stored_module(message: api::Module) -> (r: Module)
    ensures
        r@ == read_module(message),
        same_description(r, message),
        message.metadata@.is_empty() ==> r.metadata is None,
        !message.metadata@.is_empty() ==> r.metadata is Some && r.metadata->0@
            == message.metadata@,
{
    let metadata: Option<HashMap<String, String>> = if message.metadata.is_empty() {
        None
    } else {
        Some(message.metadata)
    };
    Module {
        hash: message.hash,
        imports: imports(message.imports),
        exports: exports(message.exports),
        size: message.size,
        location: message.location,
        source_language: source_language(message.source_language),
        metadata,
        inserted_at: message.inserted_at,
        strings: message.strings,
        complexity: message.complexity,
        graph: message.graph,
        function_hashes: message.function_hashes,
    }
}

/// The audit that a request of the catalog asks for; a request without a
/// window asks for the first ten results.
pub fn audit(req: api::AuditModulesRequest) -> (r: Audit)
    ensures
        r.page == match req.pagination {
            Some(page) => Pagination { offset: page.offset, limit: page.limit },
            None => Pagination { offset: 0, limit: 10 },
        },
        r.outcome == match req.outcome {
            api::AuditOutcome::PASS => AuditOutcome::Pass,
            api::AuditOutcome::FAIL => AuditOutcome::Fail,
        },
        r.checkfile@ == req.checkfile@,
{
    Audit {
        page: match &req.pagination {
            Some(page) => Pagination::from_api(page),
            None => Pagination::default(),
        },
        outcome: AuditOutcome::from_api(req.outcome),
        checkfile: req.checkfile,
    }
}

} // verus!
