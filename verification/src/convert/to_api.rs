//! From the types of this library to the messages of the catalog.

use crate::convert::api;
use crate::convert::from_api::{optional_bytes, string_views};
use crate::module::{Export, Function, Import, Module, SourceLanguage, ValType};
use std::collections::HashMap;
use vstd::prelude::*;

verus! {

/// The language of the catalog that stands for a language; the catalog
/// knows five, and takes every other for unknown.
pub open spec fn written_language(src: SourceLanguage) -> api::SourceLanguage {
    match src {
        SourceLanguage::AssemblyScript => api::SourceLanguage::AssemblyScript,
        SourceLanguage::C => api::SourceLanguage::C,
        SourceLanguage::Cpp => api::SourceLanguage::Cpp,
        SourceLanguage::Go => api::SourceLanguage::Go,
        SourceLanguage::Rust => api::SourceLanguage::Rust,
        _ => api::SourceLanguage::Unknown,
    }
}

/// The language of the catalog that stands for a language.
pub fn source_language(src: SourceLanguage) -> (r: api::SourceLanguage)
    ensures
        r == written_language(src),
{
    match src {
        SourceLanguage::AssemblyScript => api::SourceLanguage::AssemblyScript,
        SourceLanguage::C => api::SourceLanguage::C,
        SourceLanguage::Cpp => api::SourceLanguage::Cpp,
        SourceLanguage::Go => api::SourceLanguage::Go,
        SourceLanguage::Rust => api::SourceLanguage::Rust,
        _ => api::SourceLanguage::Unknown,
    }
}

/// The value type of the catalog that stands for a value type: itself for
/// the types of core WebAssembly, an outside reference for those of
/// components.
pub open spec fn written_val_type(v: ValType) -> api::ValType {
    match v {
        ValType::I32 => api::ValType::I32,
        ValType::I64 => api::ValType::I64,
        ValType::F32 => api::ValType::F32,
        ValType::F64 => api::ValType::F64,
        ValType::V128 => api::ValType::V128,
        ValType::FuncRef => api::ValType::FuncRef,
        _ => api::ValType::ExternRef,
    }
}

/// The value type of the catalog that stands for a value type.
pub fn val_type(v: ValType) -> (r: api::ValType)
    ensures
        r == written_val_type(v),
{
    match v {
        ValType::I32 => api::ValType::I32,
        ValType::I64 => api::ValType::I64,
        ValType::F32 => api::ValType::F32,
        ValType::F64 => api::ValType::F64,
        ValType::V128 => api::ValType::V128,
        ValType::FuncRef => api::ValType::FuncRef,
        ValType::ExternRef => api::ValType::ExternRef,
        _ => api::ValType::ExternRef,
    }
}

/// The value types of the catalog that stand for value types, one for one.
pub fn val_types(v: Vec<ValType>) -> (r: Vec<api::ValType>)
    ensures
        r@ == v@.map_values(|x: ValType| written_val_type(x)),
{
    let mut r: Vec<api::ValType> = Vec::new();
    let mut i: usize = 0;
    while i < v.len()
        invariant
            i <= v@.len(),
            r@ == v@.take(i as int).map_values(|x: ValType| written_val_type(x)),
        decreases v@.len() - i,
    {
        r.push(val_type(v[i]));
        assert(r@ =~= v@.take(i + 1).map_values(|x: ValType| written_val_type(x)));
        i += 1;
    }
    assert(v@.take(i as int) =~= v@);
    r
}

fn copy_val_types(v: &Vec<ValType>) -> (r: Vec<api::ValType>)
    ensures
        r@ == v@.map_values(|x: ValType| written_val_type(x)),
{
    let mut r: Vec<api::ValType> = Vec::new();
    let mut i: usize = 0;
    while i < v.len()
        invariant
            i <= v@.len(),
            r@ == v@.take(i as int).map_values(|x: ValType| written_val_type(x)),
        decreases v@.len() - i,
    {
        r.push(val_type(v[i]));
        assert(r@ =~= v@.take(i + 1).map_values(|x: ValType| written_val_type(x)));
        i += 1;
    }
    assert(v@.take(i as int) =~= v@);
    r
}

/// What a message holds of a function: its name, and its parameters and
/// results as value types of the catalog.
pub struct FunctionMessage {
    pub name: Seq<char>,
    pub params: Seq<api::ValType>,
    pub results: Seq<api::ValType>,
}

/// The function of a message that stands for a function.
pub open spec fn written_function(func: Function) -> FunctionMessage {
    FunctionMessage {
        name: func.name@,
        params: func.ty.params@.map_values(|x: ValType| written_val_type(x)),
        results: func.ty.results@.map_values(|x: ValType| written_val_type(x)),
    }
}

/// What a message holds of a function.
pub open spec fn function_message(func: api::Function) -> FunctionMessage {
    FunctionMessage { name: func.name@, params: func.params@, results: func.results@ }
}

fn function(func: &Function) -> (r: api::Function)
    ensures
        function_message(r) == written_function(*func),
{
    api::Function {
        name: func.name.clone(),
        params: copy_val_types(&func.ty.params),
        results: copy_val_types(&func.ty.results),
    }
}

/// The exports of a message that stand for exports, one for one, each with
/// its function.
pub fn exports(list: Vec<Export>) -> (r: Vec<api::Export>)
    ensures
        r@.len() == list@.len(),
        forall|i: int|
            0 <= i < r@.len() ==> (#[trigger] r@[i]).func is Some && function_message(
                r@[i].func->0,
            ) == written_function(list@[i].func),
{
    let mut r: Vec<api::Export> = Vec::new();
    let mut i: usize = 0;
    while i < list.len()
        invariant
            i <= list@.len(),
            r@.len() == i,
            forall|j: int|
                0 <= j < i ==> (#[trigger] r@[j]).func is Some && function_message(r@[j].func->0)
                    == written_function(list@[j].func),
        decreases list@.len() - i,
    {
        r.push(api::Export { func: Some(function(&list[i].func)) });
        i += 1;
    }
    r
}

/// The imports of a message that stand for imports, one for one, each with
/// its namespace and its function.
pub fn imports(list: Vec<Import>) -> (r: Vec<api::Import>)
    ensures
        r@.len() == list@.len(),
        forall|i: int|
            0 <= i < r@.len() ==> (#[trigger] r@[i]).module_name@ == list@[i].module_name@
                && r@[i].func is Some && function_message(r@[i].func->0) == written_function(
                list@[i].func,
            ),
{
    let mut r: Vec<api::Import> = Vec::new();
    let mut i: usize = 0;
    while i < list.len()
        invariant
            i <= list@.len(),
            r@.len() == i,
            forall|j: int|
                0 <= j < i ==> (#[trigger] r@[j]).module_name@ == list@[j].module_name@
                    && r@[j].func is Some && function_message(r@[j].func->0) == written_function(
                    list@[j].func,
                ),
        decreases list@.len() - i,
    {
        r.push(
            api::Import {
                module_name: list[i].module_name.clone(),
                func: Some(function(&list[i].func)),
            },
        );
        i += 1;
    }
    r
}

/// The module of the catalog that stands for a module under the given
/// identifier; a module without metadata stands there with none.
pub fn module(facts: Module, id: i64) -> (r: api::Module)
    ensures
        r.id == id,
        r.hash@ == facts.hash@,
        r.location@ == facts.location@,
        r.size == facts.size,
        r.source_language == written_language(facts.source_language),
        r.inserted_at == facts.inserted_at,
        r.complexity == facts.complexity,
        string_views(r.strings@) == string_views(facts.strings@),
        optional_bytes(r.graph) == optional_bytes(facts.graph),
        r.function_hashes@ == facts.function_hashes@,
        r.metadata@ == match facts.metadata {
            Some(m) => m@,
            None => Map::empty(),
        },
        r.exports@.len() == facts.exports@.len(),
        forall|i: int|
            0 <= i < r.exports@.len() ==> (#[trigger] r.exports@[i]).func is Some
                && function_message(r.exports@[i].func->0) == written_function(
                facts.exports@[i].func,
            ),
        r.imports@.len() == facts.imports@.len(),
        forall|i: int|
            0 <= i < r.imports@.len() ==> (#[trigger] r.imports@[i]).module_name@
                == facts.imports@[i].module_name@ && r.imports@[i].func is Some
                && function_message(r.imports@[i].func->0) == written_function(
                facts.imports@[i].func,
            ),
{
    let metadata: HashMap<String, String> = match facts.metadata {
        Some(m) => m,
        None => HashMap::new(),
    };
    api::Module {
        id,
        hash: facts.hash,
        imports: imports(facts.imports),
        exports: exports(facts.exports),
        size: facts.size,
        location: facts.location,
        source_language: source_language(facts.source_language),
        metadata,
        inserted_at: facts.inserted_at,
        strings: facts.strings,
        complexity: facts.complexity,
        graph: facts.graph,
        function_hashes: facts.function_hashes,
    }
}

/// What is read back from a written value type is the type itself for the
/// types of core WebAssembly.
pub proof fn lemma_core_types_survive(v: ValType)
    requires
        v is I32 || v is I64 || v is F32 || v is F64 || v is V128 || v is FuncRef || v is ExternRef,
    ensures
        crate::convert::from_api::read_val_type(written_val_type(v)) == v,
{
}

} // verus!
