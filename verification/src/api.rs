//! What the catalog of modules hands out: lists of results with the window
//! they were cut from, stored objects with their identifiers, and the
//! orders in which a search can be sorted.

use crate::convert::api::{Direction, Field, Sort};
use crate::text::{lower, lowercase, same_text};
use vstd::string::*;
use vstd::prelude::*;

verus! {

/// A collection of results, with how it was cut from all that there is:
/// the total, and the offset and limit that the caller asked for.
#[derive(Default, PartialEq)]
pub struct List<T> {
    inner: Vec<T>,
    total: u32,
    offset: u32,
    limit: u32,
}

impl<T> List<T> {
    /// The results.
    pub closed spec fn items(self) -> Seq<T> {
        self.inner@
    }

    /// How many results there are in all.
    pub closed spec fn total(self) -> u32 {
        self.total
    }

    /// Where in all results this list begins.
    pub closed spec fn offset(self) -> u32 {
        self.offset
    }

    /// How many results the caller asked for at most.
    pub closed spec fn limit(self) -> u32 {
        self.limit
    }

    /// A list of the given results, with how they were cut from all that
    /// there is.
    pub fn new(inner: Vec<T>, total: u32, offset: u32, limit: u32) -> (r: Self)
        ensures
            r.items() == inner@,
            r.total() == total,
            r.offset() == offset,
            r.limit() == limit,
    {
        Self { inner, total, offset, limit }
    }

    /// References to the results, in their order.
    pub fn vec(&self) -> (r: Vec<&T>)
        ensures
            r@.len() == self.items().len(),
            forall|i: int| 0 <= i < r@.len() ==> *(#[trigger] r@[i]) == self.items()[i],
    {
        let mut r: Vec<&T> = Vec::new();
        let mut i: usize = 0;
        while i < self.inner.len()
            invariant
                i <= self.inner@.len(),
                r@.len() == i,
                forall|j: int| 0 <= j < i ==> *(#[trigger] r@[j]) == self.inner@[j],
            decreases self.inner@.len() - i,
        {
            r.push(&self.inner[i]);
            i += 1;
        }
        r
    }

    /// The results with the offset and the limit of the list.
    pub fn split(&self) -> (r: (Vec<&T>, u32, u32))
        ensures
            r.0@.len() == self.items().len(),
            forall|i: int| 0 <= i < r.0@.len() ==> *(#[trigger] r.0@[i]) == self.items()[i],
            r.1 == self.offset(),
            r.2 == self.limit(),
    {
        let limit = self.limit;
        let offset = self.offset;
        (self.vec(), offset, limit)
    }
}

/// A stored object with the identifier that the catalog gave it.
#[derive(Clone, Debug, Default, PartialEq)]
pub struct Persisted<T> {
    inner: T,
    source_id: i64,
}

impl<T> Persisted<T> {
    /// The identifier.
    pub closed spec fn id(self) -> i64 {
        self.source_id
    }

    /// The stored object.
    pub closed spec fn object(self) -> T {
        self.inner
    }

    /// The identifier that the catalog gave to the object.
    pub fn get_id(&self) -> (r: i64)
        ensures
            r == self.id(),
    {
        self.source_id
    }

    /// The stored object itself.
    pub fn get_inner(&self) -> (r: &T)
        ensures
            *r == self.object(),
    {
        &self.inner
    }

    /// The stored object itself.
    pub fn as_ref(&self) -> (r: &T)
        ensures
            *r == self.object(),
    {
        &self.inner
    }

    /// The stored object, taken out.
    pub fn into_inner(self) -> (r: T)
        ensures
            r == self.object(),
    {
        self.inner
    }

    /// An object with an identifier, as if it had been stored.
    pub fn from_module(id: i64, module: T) -> (r: Self)
        ensures
            r.id() == id,
            r.object() == module,
    {
        Persisted { inner: module, source_id: id }
    }
}

/// The module that a module of the catalog stands for, under the
/// identifier that the catalog gave it.
pub fn stored(message: crate::convert::api::Module) -> (r: Persisted<crate::module::Module>)
    ensures
        r.id() == message.id,
        r.object()@ == crate::convert::from_api::read_module(message),
        crate::convert::from_api::same_description(r.object(), message),
        message.metadata@.is_empty() ==> r.object().metadata is None,
        !message.metadata@.is_empty() ==> r.object().metadata is Some && r.object().metadata->0@
            == message.metadata@,
{
    let source_id = message.id;
    Persisted { inner: crate::convert::from_api::stored_module(message), source_id }
}

/// The direction of a sort.
#[derive(PartialEq, Eq, Clone, Copy, Debug, Structural)]
pub enum SortDirection {
    Asc,
    Desc,
}

impl SortDirection {
    /// The direction that a word in lower case stands for.
    pub open spec fn named(word: Seq<char>) -> Option<SortDirection> {
        if word == "asc"@ {
            Some(SortDirection::Asc)
        } else if word == "desc"@ {
            Some(SortDirection::Desc)
        } else {
            None
        }
    }

    /// The direction of a sort where none is asked for.
    pub fn default() -> (r: SortDirection)
        ensures
            r == SortDirection::Desc,
    {
        SortDirection::Desc
    }

    /// The direction that a word in lower case stands for.
    pub fn from_lowercase(word: &str) -> (r: Option<SortDirection>)
        ensures
            r == SortDirection::named(word@),
    {
        if same_text(word, "asc") {
            Some(SortDirection::Asc)
        } else if same_text(word, "desc") {
            Some(SortDirection::Desc)
        } else {
            None
        }
    }

    /// The direction that a word stands for, in whatever case it is written.
    pub fn from_str(f: &str) -> (r: Option<SortDirection>)
        ensures
            r == SortDirection::named(lowercase(f@)),
    {
        SortDirection::from_lowercase(lower(f).as_str())
    }

    /// The direction as a message of the catalog holds it.
    pub open spec fn proto(self) -> Direction {
        match self {
            SortDirection::Asc => Direction::Asc,
            SortDirection::Desc => Direction::Desc,
        }
    }

    /// The direction as a message of the catalog holds it.
    pub fn to_proto(self) -> (r: Direction)
        ensures
            r == self.proto(),
    {
        match self {
            SortDirection::Asc => Direction::Asc,
            SortDirection::Desc => Direction::Desc,
        }
    }
}

/// What a search can be sorted by.
#[derive(PartialEq, Eq, Clone, Copy, Debug, Structural)]
pub enum SortField {
    Size,
    Name,
    CreatedAt,
    Language,
    ImportsCount,
    ExportsCount,
    Sha256,
    Complexity,
}

impl SortField {
    /// The field that a word in lower case stands for.
    pub open spec fn named(word: Seq<char>) -> Option<SortField> {
        if word == "size"@ {
            Some(SortField::Size)
        } else if word == "name"@ {
            Some(SortField::Name)
        } else if word == "created_at"@ {
            Some(SortField::CreatedAt)
        } else if word == "language"@ {
            Some(SortField::Language)
        } else if word == "imports_count"@ {
            Some(SortField::ImportsCount)
        } else if word == "exports_count"@ {
            Some(SortField::ExportsCount)
        } else if word == "sha256"@ {
            Some(SortField::Sha256)
        } else if word == "complexity"@ {
            Some(SortField::Complexity)
        } else {
            None
        }
    }

    /// The field that a word in lower case stands for.
    pub fn from_lowercase(word: &str) -> (r: Option<SortField>)
        ensures
            r == SortField::named(word@),
    {
        if same_text(word, "size") {
            Some(SortField::Size)
        } else if same_text(word, "name") {
            Some(SortField::Name)
        } else if same_text(word, "created_at") {
            Some(SortField::CreatedAt)
        } else if same_text(word, "language") {
            Some(SortField::Language)
        } else if same_text(word, "imports_count") {
            Some(SortField::ImportsCount)
        } else if same_text(word, "exports_count") {
            Some(SortField::ExportsCount)
        } else if same_text(word, "sha256") {
            Some(SortField::Sha256)
        } else if same_text(word, "complexity") {
            Some(SortField::Complexity)
        } else {
            None
        }
    }

    /// The field that a word stands for, in whatever case it is written.
    pub fn from_str(f: &str) -> (r: Option<SortField>)
        ensures
            r == SortField::named(lowercase(f@)),
    {
        SortField::from_lowercase(lower(f).as_str())
    }

    /// The field as a message of the catalog holds it.
    pub open spec fn proto(self) -> Field {
        match self {
            SortField::Size => Field::Size,
            SortField::Name => Field::Name,
            SortField::CreatedAt => Field::CreatedAt,
            SortField::Language => Field::Language,
            SortField::ImportsCount => Field::ImportsCount,
            SortField::ExportsCount => Field::ExportsCount,
            SortField::Sha256 => Field::Sha256,
            SortField::Complexity => Field::Complexity,
        }
    }

    /// The field as a message of the catalog holds it.
    pub fn to_proto(self) -> (r: Field)
        ensures
            r == self.proto(),
    {
        match self {
            SortField::Size => Field::Size,
            SortField::Name => Field::Name,
            SortField::CreatedAt => Field::CreatedAt,
            SortField::Language => Field::Language,
            SortField::ImportsCount => Field::ImportsCount,
            SortField::ExportsCount => Field::ExportsCount,
            SortField::Sha256 => Field::Sha256,
            SortField::Complexity => Field::Complexity,
        }
    }
}

/// The order that a search asks for: none without a field to sort by, and
/// with a field the direction that is given, or the default one.
pub fn search_sort(field: Option<SortField>, direction: Option<SortDirection>) -> (r: Option<Sort>)
    ensures
        r == match field {
            Some(f) => Some(
                Sort {
                    direction: match direction {
                        Some(d) => d.proto(),
                        None => Direction::Desc,
                    },
                    field: f.proto(),
                },
            ),
            None => None,
        },
{
    match field {
        Some(f) => Some(
            Sort {
                direction: match direction {
                    Some(d) => d.to_proto(),
                    None => SortDirection::default().to_proto(),
                },
                field: f.to_proto(),
            },
        ),
        None => None,
    }
}

/// How a request is sent to the catalog.
#[derive(PartialEq, Eq, Clone, Copy, Debug, Structural)]
pub enum Method {
    Put,
    Post,
    Delete,
}

/// What the catalog can be asked to do.
#[derive(PartialEq, Eq, Clone, Copy, Debug, Structural)]
pub enum Command {
    CreateModule,
    GetModule,
    ListModules,
    SearchModules,
    DeleteModules,
    AuditModules,
    DiffModules,
    ValidateModule,
    GetModuleGraph,
    CallPlugin,
    InstallPlugin,
    UninstallPlugin,
}

impl Command {
    /// How the request for a command is sent: what creates or installs is
    /// put, what removes is deleted, everything else is posted.
    pub open spec fn spec_method(self) -> Method {
        match self {
            Command::CreateModule | Command::InstallPlugin => Method::Put,
            Command::DeleteModules | Command::UninstallPlugin => Method::Delete,
            _ => Method::Post,
        }
    }

    /// The route of the catalog that a command is sent to.
    pub open spec fn spec_route(self) -> Seq<char> {
        match self {
            Command::CreateModule | Command::GetModule => "/api/v1/module"@,
            Command::ListModules | Command::DeleteModules => "/api/v1/modules"@,
            Command::SearchModules => "/api/v1/search"@,
            Command::AuditModules => "/api/v1/audit"@,
            Command::DiffModules => "/api/v1/diff"@,
            Command::ValidateModule => "/api/v1/validate"@,
            Command::GetModuleGraph => "/api/v1/module_graph"@,
            Command::CallPlugin | Command::InstallPlugin | Command::UninstallPlugin =>
                "/api/v1/plugin"@,
        }
    }

    /// How the request for a command is sent.
    pub fn method(&self) -> (r: Method)
        ensures
            r == self.spec_method(),
    {
        match self {
            Command::CreateModule | Command::InstallPlugin => Method::Put,
            Command::DeleteModules | Command::UninstallPlugin => Method::Delete,
            _ => Method::Post,
        }
    }

    /// The route of the catalog that a command is sent to.
    pub fn route(&self) -> (r: &'static str)
        ensures
            r@ == self.spec_route(),
    {
        match self {
            Command::CreateModule | Command::GetModule => "/api/v1/module",
            Command::ListModules | Command::DeleteModules => "/api/v1/modules",
            Command::SearchModules => "/api/v1/search",
            Command::AuditModules => "/api/v1/audit",
            Command::DiffModules => "/api/v1/diff",
            Command::ValidateModule => "/api/v1/validate",
            Command::GetModuleGraph => "/api/v1/module_graph",
            Command::CallPlugin | Command::InstallPlugin | Command::UninstallPlugin =>
                "/api/v1/plugin",
        }
    }
}

/// A text without the slashes at its end.
pub open spec fn without_trailing_slashes(s: Seq<char>) -> Seq<char>
    decreases s.len(),
{
    if s.len() > 0 && s.last() == '/' {
        without_trailing_slashes(s.drop_last())
    } else {
        s
    }
}

/// The address of a route of the catalog: the base address without the
/// slashes at its end, and then the route.
pub fn make_endpoint(base_url: &str, route: &str) -> (r: String)
    ensures
        r@ == without_trailing_slashes(base_url@) + route@,
{
    let mut end: usize = base_url.unicode_len();
    assert(base_url@.take(end as int) =~= base_url@);
    while end > 0 && base_url.get_char(end - 1) == '/'
        invariant
            end <= base_url@.len(),
            without_trailing_slashes(base_url@) == without_trailing_slashes(
                base_url@.take(end as int),
            ),
        decreases end,
    {
        assert(base_url@.take(end as int).drop_last() =~= base_url@.take(end - 1));
        end -= 1;
    }
    let base = base_url.substring_char(0, end);
    assert(base@ =~= base_url@.take(end as int));
    let mut r = String::from_str(base);
    r.append(route);
    r
}

} // verus!
