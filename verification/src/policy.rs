//! The policy document: a tree of optional rule groups. A group that is
//! absent constrains nothing.

use crate::module::ValType;
use crate::risk::RiskLevel;
use vstd::prelude::*;

verus! {

/// Why a policy could not be evaluated at all. None of these is a finding
/// about the module: each says that the policy, or what is known of the
/// module, does not allow an evaluation.
#[derive(Clone, Copy, Debug, PartialEq, Eq, Structural)]
pub enum PolicyError {
    /// `size.max` is not a size.
    InvalidSize,
    /// The policy bounds the complexity, and the module's is not known.
    UnknownComplexity,
    /// The complexity group sets neither `max_risk` nor `max_score`.
    NoComplexityCheck,
    /// The complexity group sets `max_score`, which is not supported.
    UnsupportedComplexityCheck,
}

impl PolicyError {
    /// What to tell the person who wrote the policy.
    pub open spec fn message_text(self) -> Seq<char> {
        match self {
            PolicyError::InvalidSize => "Could not read `size.max` as a size."@,
            PolicyError::UnknownComplexity =>
                "Could not determine module complexity, please remove the complexity parameter from your checkfile."@,
            PolicyError::NoComplexityCheck => "No complexity check found."@,
            PolicyError::UnsupportedComplexityCheck =>
                "Only `complexity.max_risk` is currently supported."@,
        }
    }

    /// What to tell the person who wrote the policy.
    pub fn message(&self) -> (r: String)
        ensures
            r@ == self.message_text(),
    {
        match self {
            PolicyError::InvalidSize => String::from_str("Could not read `size.max` as a size."),
            PolicyError::UnknownComplexity => String::from_str(
                "Could not determine module complexity, please remove the complexity parameter from your checkfile.",
            ),
            PolicyError::NoComplexityCheck => String::from_str("No complexity check found."),
            PolicyError::UnsupportedComplexityCheck => String::from_str(
                "Only `complexity.max_risk` is currently supported.",
            ),
        }
    }
}

/// The view of an optional text.
pub open spec fn optional_text(o: Option<String>) -> Option<Seq<char>> {
    match o {
        Some(s) => Some(s@),
        None => None,
    }
}

/// The view of an optional list of types.
pub open spec fn optional_types(o: Option<Vec<ValType>>) -> Option<Seq<ValType>> {
    match o {
        Some(v) => Some(v@),
        None => None,
    }
}

/// A bound on the complexity of a module: by risk level or by score.
#[derive(Clone, Copy, Debug, Default, PartialEq, Eq)]
pub struct Complexity {
    pub max_risk: Option<RiskLevel>,
    pub max_score: Option<u32>,
}

/// The one bound that a complexity group sets.
#[derive(Clone, Copy, Debug, PartialEq, Eq)]
pub enum ComplexityKind {
    MaxRisk(RiskLevel),
    MaxScore(u32),
}

impl Complexity {
    /// The bound that the group sets, where it sets the one that is
    /// supported and no other.
    pub open spec fn spec_kind(self) -> Result<ComplexityKind, PolicyError> {
        match (self.max_risk, self.max_score) {
            (None, None) => Err(PolicyError::NoComplexityCheck),
            (None, Some(_)) => Err(PolicyError::UnsupportedComplexityCheck),
            (Some(risk), None) => Ok(ComplexityKind::MaxRisk(risk)),
            (Some(_), Some(_)) => Err(PolicyError::UnsupportedComplexityCheck),
        }
    }

    /// The bound that the group sets: the risk level, where only that is
    /// set. A group without a bound, and one that asks for a maximal score,
    /// are errors.
    pub fn kind(&self) -> (r: Result<ComplexityKind, PolicyError>)
        ensures
            r == self.spec_kind(),
    {
        match (self.max_risk, self.max_score) {
            (None, None) => Err(PolicyError::NoComplexityCheck),
            (None, Some(_)) => Err(PolicyError::UnsupportedComplexityCheck),
            (Some(risk), None) => Ok(ComplexityKind::MaxRisk(risk)),
            (Some(_), Some(_)) => Err(PolicyError::UnsupportedComplexityCheck),
        }
    }
}

/// A function named by a rule: by its bare name, or with the signature
/// that is expected of it.
#[derive(Clone, Debug, PartialEq, Eq)]
pub enum FunctionItem {
    Name(String),
    Item { name: String, params: Option<Vec<ValType>>, results: Option<Vec<ValType>> },
}

/// A `FunctionItem` as contracts speak of it.
pub enum FunctionItemView {
    Name(Seq<char>),
    Item { name: Seq<char>, params: Option<Seq<ValType>>, results: Option<Seq<ValType>> },
}

impl FunctionItemView {
    /// The name that the item states.
    pub open spec fn name(self) -> Seq<char> {
        match self {
            FunctionItemView::Name(name) => name,
            FunctionItemView::Item { name, .. } => name,
        }
    }

    /// The parameter types that the item expects, if it states them.
    pub open spec fn params(self) -> Option<Seq<ValType>> {
        match self {
            FunctionItemView::Name(_) => None,
            FunctionItemView::Item { params, .. } => params,
        }
    }

    /// The result types that the item expects, if it states them.
    pub open spec fn results(self) -> Option<Seq<ValType>> {
        match self {
            FunctionItemView::Name(_) => None,
            FunctionItemView::Item { results, .. } => results,
        }
    }
}

impl View for FunctionItem {
    type V = FunctionItemView;

    open spec fn view(&self) -> FunctionItemView {
        match *self {
            FunctionItem::Name(name) => FunctionItemView::Name(name@),
            FunctionItem::Item { name, params, results } => FunctionItemView::Item {
                name: name@,
                params: optional_types(params),
                results: optional_types(results),
            },
        }
    }
}

impl FunctionItem {
    /// The name of the function.
    pub fn name(&self) -> (r: &String)
        ensures
            r@ == self@.name(),
    {
        match self {
            FunctionItem::Name(name) => name,
            FunctionItem::Item { name, .. } => name,
        }
    }

    /// The result types expected of the function, if the rule states them.
    pub fn results(&self) -> (r: Option<&[ValType]>)
        ensures
            r is Some == self@.results() is Some,
            r is Some ==> r->0@ == self@.results()->0,
    {
        match self {
            FunctionItem::Name(_) => None,
            FunctionItem::Item { results, .. } => match results {
                Some(v) => Some(v.as_slice()),
                None => None,
            },
        }
    }

    /// The parameter types expected of the function, if the rule states them.
    pub fn params(&self) -> (r: Option<&[ValType]>)
        ensures
            r is Some == self@.params() is Some,
            r is Some ==> r->0@ == self@.params()->0,
    {
        match self {
            FunctionItem::Name(_) => None,
            FunctionItem::Item { params, .. } => match params {
                Some(v) => Some(v.as_slice()),
                None => None,
            },
        }
    }
}

/// An import named by a rule: by its bare name, or with its namespace and
/// the signature that is expected of it.
#[derive(Clone, Debug, PartialEq, Eq)]
pub enum ImportItem {
    Name(String),
    Item {
        namespace: Option<String>,
        name: String,
        params: Option<Vec<ValType>>,
        results: Option<Vec<ValType>>,
    },
}

/// An `ImportItem` as contracts speak of it.
pub enum ImportItemView {
    Name(Seq<char>),
    Item {
        namespace: Option<Seq<char>>,
        name: Seq<char>,
        params: Option<Seq<ValType>>,
        results: Option<Seq<ValType>>,
    },
}

impl ImportItemView {
    /// The name that the item states.
    pub open spec fn name(self) -> Seq<char> {
        match self {
            ImportItemView::Name(name) => name,
            ImportItemView::Item { name, .. } => name,
        }
    }

    /// The namespace that the item states, if any.
    pub open spec fn namespace(self) -> Option<Seq<char>> {
        match self {
            ImportItemView::Name(_) => None,
            ImportItemView::Item { namespace, .. } => namespace,
        }
    }

    /// The parameter types that the item expects, if it states them.
    pub open spec fn params(self) -> Option<Seq<ValType>> {
        match self {
            ImportItemView::Name(_) => None,
            ImportItemView::Item { params, .. } => params,
        }
    }

    /// The result types that the item expects, if it states them.
    pub open spec fn results(self) -> Option<Seq<ValType>> {
        match self {
            ImportItemView::Name(_) => None,
            ImportItemView::Item { results, .. } => results,
        }
    }
}

impl View for ImportItem {
    type V = ImportItemView;

    open spec fn view(&self) -> ImportItemView {
        match *self {
            ImportItem::Name(name) => ImportItemView::Name(name@),
            ImportItem::Item { namespace, name, params, results } => ImportItemView::Item {
                namespace: optional_text(namespace),
                name: name@,
                params: optional_types(params),
                results: optional_types(results),
            },
        }
    }
}

impl ImportItem {
    /// The name of the imported function.
    pub fn name(&self) -> (r: &String)
        ensures
            r@ == self@.name(),
    {
        match self {
            ImportItem::Name(name) => name,
            ImportItem::Item { name, .. } => name,
        }
    }

    /// The namespace of the import, if the rule states it.
    pub fn namespace(&self) -> (r: Option<&str>)
        ensures
            r is Some == self@.namespace() is Some,
            r is Some ==> r->0@ == self@.namespace()->0,
    {
        match self {
            ImportItem::Name(_) => None,
            ImportItem::Item { namespace, .. } => match namespace {
                Some(ns) => Some(ns.as_str()),
                None => None,
            },
        }
    }

    /// The result types expected of the import, if the rule states them.
    pub fn results(&self) -> (r: Option<&[ValType]>)
        ensures
            r is Some == self@.results() is Some,
            r is Some ==> r->0@ == self@.results()->0,
    {
        match self {
            ImportItem::Name(_) => None,
            ImportItem::Item { results, .. } => match results {
                Some(v) => Some(v.as_slice()),
                None => None,
            },
        }
    }

    /// The parameter types expected of the import, if the rule states them.
    pub fn params(&self) -> (r: Option<&[ValType]>)
        ensures
            r is Some == self@.params() is Some,
            r is Some ==> r->0@ == self@.params()->0,
    {
        match self {
            ImportItem::Name(_) => None,
            ImportItem::Item { params, .. } => match params {
                Some(v) => Some(v.as_slice()),
                None => None,
            },
        }
    }
}

/// The views of a list of function items.
pub open spec fn function_items(items: Seq<FunctionItem>) -> Seq<FunctionItemView> {
    items.map_values(|i: FunctionItem| i@)
}

/// The views of a list of import items.
pub open spec fn import_items(items: Seq<ImportItem>) -> Seq<ImportItemView> {
    items.map_values(|i: ImportItem| i@)
}

/// The views of a list of namespace items.
pub open spec fn namespace_items(items: Seq<NamespaceItem>) -> Seq<NamespaceItemView> {
    items.map_values(|i: NamespaceItem| i@)
}

/// A namespace named by a rule: by its bare name, or with functions of
/// it that the rule speaks of as well.
#[derive(Clone, Debug, PartialEq, Eq)]
pub enum NamespaceItem {
    Name(String),
    Item { name: String, functions: Vec<FunctionItem> },
}

/// A `NamespaceItem` as contracts speak of it.
pub enum NamespaceItemView {
    Name(Seq<char>),
    Item { name: Seq<char>, functions: Seq<FunctionItemView> },
}

impl NamespaceItemView {
    /// The name that the item states.
    pub open spec fn name(self) -> Seq<char> {
        match self {
            NamespaceItemView::Name(name) => name,
            NamespaceItemView::Item { name, .. } => name,
        }
    }

    /// The functions of the namespace that the item speaks of.
    pub open spec fn functions(self) -> Seq<FunctionItemView> {
        match self {
            NamespaceItemView::Name(_) => Seq::empty(),
            NamespaceItemView::Item { functions, .. } => functions,
        }
    }
}

impl View for NamespaceItem {
    type V = NamespaceItemView;

    open spec fn view(&self) -> NamespaceItemView {
        match *self {
            NamespaceItem::Name(name) => NamespaceItemView::Name(name@),
            NamespaceItem::Item { name, functions } => NamespaceItemView::Item {
                name: name@,
                functions: function_items(functions@),
            },
        }
    }
}

impl NamespaceItem {
    /// The name of the namespace.
    pub fn name(&self) -> (r: &String)
        ensures
            r@ == self@.name(),
    {
        match self {
            NamespaceItem::Name(name) => name,
            NamespaceItem::Item { name, .. } => name,
        }
    }

    /// The functions of the namespace that the rule speaks of; none for a
    /// bare name.
    pub fn functions(&self) -> (r: &[FunctionItem])
        ensures
            function_items(r@) == self@.functions(),
    {
        match self {
            NamespaceItem::Name(_) => {
                assert(function_items(Seq::<FunctionItem>::empty()) =~= Seq::empty());
                &[]
            },
            NamespaceItem::Item { functions, .. } => functions.as_slice(),
        }
    }
}

/// The views of an optional list of function items.
pub open spec fn optional_function_items(o: Option<Vec<FunctionItem>>) -> Option<
    Seq<FunctionItemView>,
> {
    match o {
        Some(v) => Some(function_items(v@)),
        None => None,
    }
}

/// The views of an optional list of import items.
pub open spec fn optional_import_items(o: Option<Vec<ImportItem>>) -> Option<Seq<ImportItemView>> {
    match o {
        Some(v) => Some(import_items(v@)),
        None => None,
    }
}

/// The views of an optional list of namespace items.
pub open spec fn optional_namespace_items(o: Option<Vec<NamespaceItem>>) -> Option<
    Seq<NamespaceItemView>,
> {
    match o {
        Some(v) => Some(namespace_items(v@)),
        None => None,
    }
}

/// Rules on the namespaces that a module imports from.
#[derive(Clone, Debug, Default, PartialEq, Eq)]
pub struct Namespace {
    /// Namespaces that the module must import from.
    pub included: Option<Vec<NamespaceItem>>,
    /// Namespaces that the module must not import from.
    pub exclude: Option<Vec<NamespaceItem>>,
}

/// A `Namespace` as contracts speak of it.
pub struct NamespaceView {
    pub included: Option<Seq<NamespaceItemView>>,
    pub exclude: Option<Seq<NamespaceItemView>>,
}

impl View for Namespace {
    type V = NamespaceView;

    open spec fn view(&self) -> NamespaceView {
        NamespaceView {
            included: optional_namespace_items(self.included),
            exclude: optional_namespace_items(self.exclude),
        }
    }
}

/// Rules on what a module imports.
#[derive(Clone, Debug, Default, PartialEq, Eq)]
pub struct Imports {
    /// The imports that the module may have: it must have no other.
    pub included: Option<Vec<ImportItem>>,
    /// Imports that the module must not have.
    pub exclude: Option<Vec<ImportItem>>,
    pub namespace: Option<Namespace>,
}

/// An `Imports` as contracts speak of it.
pub struct ImportsView {
    pub included: Option<Seq<ImportItemView>>,
    pub exclude: Option<Seq<ImportItemView>>,
    pub namespace: Option<NamespaceView>,
}

impl View for Imports {
    type V = ImportsView;

    open spec fn view(&self) -> ImportsView {
        ImportsView {
            included: optional_import_items(self.included),
            exclude: optional_import_items(self.exclude),
            namespace: match self.namespace {
                Some(n) => Some(n@),
                None => None,
            },
        }
    }
}

/// Rules on what a module exports.
#[derive(Clone, Debug, Default, PartialEq, Eq)]
pub struct Exports {
    /// Exports that the module must have.
    pub included: Option<Vec<FunctionItem>>,
    /// Exports that the module must not have.
    pub exclude: Option<Vec<FunctionItem>>,
    /// The highest number of exports that the module may have.
    pub max: Option<u32>,
}

/// An `Exports` as contracts speak of it.
pub struct ExportsView {
    pub included: Option<Seq<FunctionItemView>>,
    pub exclude: Option<Seq<FunctionItemView>>,
    pub max: Option<u32>,
}

impl View for Exports {
    type V = ExportsView;

    open spec fn view(&self) -> ExportsView {
        ExportsView {
            included: optional_function_items(self.included),
            exclude: optional_function_items(self.exclude),
            max: self.max,
        }
    }
}

/// A rule on the size of a module.
#[derive(Clone, Debug, Default, PartialEq, Eq)]
pub struct Size {
    /// The largest size that the module may have, as a person writes it
    /// (`4 MiB`).
    pub max: Option<String>,
}

/// A `Size` as contracts speak of it.
pub struct SizeView {
    pub max: Option<Seq<char>>,
}

impl View for Size {
    type V = SizeView;

    open spec fn view(&self) -> SizeView {
        SizeView { max: optional_text(self.max) }
    }
}

/// The rule groups of a policy.
#[derive(Clone, Debug, Default, PartialEq, Eq)]
pub struct Check {
    /// Where the policy itself is to be fetched from, if not from here.
    pub url: Option<String>,
    /// Whether the module may import the system interface.
    pub allow_wasi: Option<bool>,
    pub imports: Option<Imports>,
    pub exports: Option<Exports>,
    pub size: Option<Size>,
    pub complexity: Option<Complexity>,
}

/// A `Check` as contracts speak of it.
pub struct CheckView {
    pub url: Option<Seq<char>>,
    pub allow_wasi: Option<bool>,
    pub imports: Option<ImportsView>,
    pub exports: Option<ExportsView>,
    pub size: Option<SizeView>,
    pub complexity: Option<Complexity>,
}

impl View for Check {
    type V = CheckView;

    open spec fn view(&self) -> CheckView {
        CheckView {
            url: optional_text(self.url),
            allow_wasi: self.allow_wasi,
            imports: match self.imports {
                Some(i) => Some(i@),
                None => None,
            },
            exports: match self.exports {
                Some(e) => Some(e@),
                None => None,
            },
            size: match self.size {
                Some(s) => Some(s@),
                None => None,
            },
            complexity: self.complexity,
        }
    }
}

impl CheckView {
    /// The text of the size limit, where the policy sets one.
    pub open spec fn size_max(self) -> Option<Seq<char>> {
        match self.size {
            Some(size) => size.max,
            None => None,
        }
    }
}

/// A policy document.
#[derive(Clone, Debug, Default, PartialEq, Eq)]
pub struct Validation {
    pub validate: Check,
}

/// A `Validation` as contracts speak of it.
pub struct ValidationView {
    pub validate: CheckView,
}

impl View for Validation {
    type V = ValidationView;

    open spec fn view(&self) -> ValidationView {
        ValidationView { validate: self.validate@ }
    }
}

} // verus!
