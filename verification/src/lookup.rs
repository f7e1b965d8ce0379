//! Finding the functions of a module that a rule speaks of. Names need not
//! be unique in a module: where several functions answer to a rule, the
//! rule speaks of the one that was listed last.

use crate::module::{
    export_views, import_views, Export, ExportView, FunctionType, FunctionTypeView, Import,
    ImportView,
};
use crate::policy::{import_items, ImportItem, ImportItemView};
use crate::text::{rank, same_text, text_before, Rank};
use vstd::prelude::*;

verus! {

/// The signature under which `name` is imported from `namespace`: that of
/// the last such import, if there is any.
pub open spec fn find_import(
    imports: Seq<ImportView>,
    namespace: Seq<char>,
    name: Seq<char>,
) -> Option<FunctionTypeView>
    decreases imports.len(),
{
    if imports.len() == 0 {
        None
    } else if imports.last().module_name == namespace && imports.last().func.name == name {
        Some(imports.last().func.ty)
    } else {
        find_import(imports.drop_last(), namespace, name)
    }
}

/// The import that the bare name of a function refers to: of the imports
/// with that name, the one whose namespace comes last in byte order, and of
/// several in that namespace the one listed last.
pub open spec fn find_import_by_name(imports: Seq<ImportView>, name: Seq<char>) -> Option<
    ImportView,
>
    decreases imports.len(),
{
    if imports.len() == 0 {
        None
    } else {
        let earlier = find_import_by_name(imports.drop_last(), name);
        let import = imports.last();
        if import.func.name != name {
            earlier
        } else {
            match earlier {
                Some(best) if text_before(import.module_name, best.module_name) => earlier,
                _ => Some(import),
            }
        }
    }
}

/// The signature under which `name` is exported: that of the last such
/// export, if there is any.
pub open spec fn find_export(exports: Seq<ExportView>, name: Seq<char>) -> Option<
    FunctionTypeView,
>
    decreases exports.len(),
{
    if exports.len() == 0 {
        None
    } else if exports.last().func.name == name {
        Some(exports.last().func.ty)
    } else {
        find_export(exports.drop_last(), name)
    }
}

/// The first item of a whitelist that names the import `name` of
/// `namespace`. An item that states no namespace names no import.
pub open spec fn first_match(
    items: Seq<ImportItemView>,
    namespace: Seq<char>,
    name: Seq<char>,
) -> Option<ImportItemView>
    decreases items.len(),
{
    if items.len() == 0 {
        None
    } else if items[0].name() == name && items[0].namespace() == Some(namespace) {
        Some(items[0])
    } else {
        first_match(items.drop_first(), namespace, name)
    }
}

/// An import is found under its own namespace and name.
pub proof fn lemma_find_import_finds(imports: Seq<ImportView>, i: int)
    requires
        0 <= i < imports.len(),
    ensures
        find_import(imports, imports[i].module_name, imports[i].func.name) is Some,
    decreases imports.len(),
{
    if i < imports.len() - 1 {
        lemma_find_import_finds(imports.drop_last(), i);
    }
}

/// Looks up the import `name` of `namespace`.
pub fn lookup_import<'a>(imports: &'a Vec<Import>, namespace: &str, name: &str) -> (r: Option<
    &'a FunctionType,
>)
    ensures
        r is Some == find_import(import_views(imports@), namespace@, name@) is Some,
        r is Some ==> r->0@ == find_import(import_views(imports@), namespace@, name@)->0,
{
    let ghost all = import_views(imports@);
    let mut i: usize = imports.len();
    assert(all.take(i as int) =~= all);
    while i > 0
        invariant
            i <= imports@.len(),
            all == import_views(imports@),
            find_import(all, namespace@, name@) == find_import(
                all.take(i as int),
                namespace@,
                name@,
            ),
        decreases i,
    {
        let ghost now = all.take(i as int);
        assert(now.drop_last() =~= all.take(i - 1));
        assert(now.last() == imports@[i - 1]@);
        let import = &imports[i - 1];
        if same_text(import.module_name.as_str(), namespace) && same_text(
            import.func.name.as_str(),
            name,
        ) {
            return Some(&import.func.ty);
        }
        i -= 1;
    }
    assert(all.take(0).len() == 0);
    None
}

/// Looks up the import that the bare name of a function refers to.
pub fn lookup_import_by_name<'a>(imports: &'a Vec<Import>, name: &str) -> (r: Option<&'a Import>)
    ensures
        r is Some == find_import_by_name(import_views(imports@), name@) is Some,
        r is Some ==> r->0@ == find_import_by_name(import_views(imports@), name@)->0,
{
    let ghost all = import_views(imports@);
    let mut best: Option<&'a Import> = None;
    let mut i: usize = 0;
    while i < imports.len()
        invariant
            i <= imports@.len(),
            all == import_views(imports@),
            best is Some == find_import_by_name(all.take(i as int), name@) is Some,
            best is Some ==> best->0@ == find_import_by_name(all.take(i as int), name@)->0,
        decreases imports@.len() - i,
    {
        let ghost now = all.take(i + 1);
        assert(now.drop_last() =~= all.take(i as int));
        assert(now.last() == imports@[i as int]@);
        let import = &imports[i];
        if same_text(import.func.name.as_str(), name) {
            let keep = match best {
                Some(b) => matches!(
                    rank(import.module_name.as_str(), b.module_name.as_str()),
                    Rank::Before
                ),
                None => false,
            };
            proof {
                if let Some(b) = best {
                    if !keep {
                        if text_before(import.module_name@, b.module_name@) {
                            crate::text::lemma_text_before_asymmetric(
                                import.module_name@,
                                b.module_name@,
                            );
                        }
                    }
                }
            }
            if !keep {
                best = Some(import);
            }
        }
        i += 1;
    }
    assert(all.take(i as int) =~= all);
    best
}

/// Looks up the export `name`.
pub fn lookup_export<'a>(exports: &'a Vec<Export>, name: &str) -> (r: Option<&'a FunctionType>)
    ensures
        r is Some == find_export(export_views(exports@), name@) is Some,
        r is Some ==> r->0@ == find_export(export_views(exports@), name@)->0,
{
    let ghost all = export_views(exports@);
    let mut i: usize = exports.len();
    assert(all.take(i as int) =~= all);
    while i > 0
        invariant
            i <= exports@.len(),
            all == export_views(exports@),
            find_export(all, name@) == find_export(all.take(i as int), name@),
        decreases i,
    {
        let ghost now = all.take(i as int);
        assert(now.drop_last() =~= all.take(i - 1));
        assert(now.last() == exports@[i - 1]@);
        let export = &exports[i - 1];
        if same_text(export.func.name.as_str(), name) {
            return Some(&export.func.ty);
        }
        i -= 1;
    }
    assert(all.take(0).len() == 0);
    None
}

/// Looks up the first item of a whitelist that names the import `name` of
/// `namespace`.
pub fn lookup_item<'a>(items: &'a Vec<ImportItem>, namespace: &str, name: &str) -> (r: Option<
    &'a ImportItem,
>)
    ensures
        r is Some == first_match(import_items(items@), namespace@, name@) is Some,
        r is Some ==> r->0@ == first_match(import_items(items@), namespace@, name@)->0,
{
    let ghost all = import_items(items@);
    let mut i: usize = 0;
    assert(all.skip(0) =~= all);
    while i < items.len()
        invariant
            i <= items@.len(),
            all == import_items(items@),
            first_match(all, namespace@, name@) == first_match(
                all.skip(i as int),
                namespace@,
                name@,
            ),
        decreases items@.len() - i,
    {
        let ghost now = all.skip(i as int);
        assert(now.drop_first() =~= all.skip(i + 1));
        assert(now[0] == items@[i as int]@);
        let item = &items[i];
        let named = match item.namespace() {
            Some(ns) => same_text(ns, namespace),
            None => false,
        };
        if same_text(item.name().as_str(), name) && named {
            return Some(item);
        }
        i += 1;
    }
    assert(all.skip(i as int).len() == 0);
    None
}

/// Whether a module imports anything from `namespace`.
pub fn imports_from(imports: &Vec<Import>, namespace: &str) -> (r: bool)
    ensures
        r == exists|i: int|
            0 <= i < imports@.len() && (#[trigger] import_views(imports@)[i]).module_name
                == namespace@,
{
    let mut i: usize = 0;
    while i < imports.len()
        invariant
            i <= imports@.len(),
            forall|j: int|
                0 <= j < i ==> (#[trigger] import_views(imports@)[j]).module_name != namespace@,
        decreases imports@.len() - i,
    {
        if same_text(imports[i].module_name.as_str(), namespace) {
            assert(import_views(imports@)[i as int].module_name == namespace@);
            return true;
        }
        i += 1;
    }
    false
}

} // verus!
