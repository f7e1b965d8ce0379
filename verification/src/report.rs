//! The report of an evaluation: for each rule that the module breaks, the
//! path of the rule and what was expected and found. Rules that hold leave
//! no trace. The entries are kept in the byte order of their paths.

use crate::module::{same_types, type_list, type_list_text, FunctionType, FunctionTypeView, ValType};
use crate::score::{capped, SEVERITY_MAX};
use crate::text::{
    join2, lemma_text_before_irreflexive, lemma_text_before_transitive, rank, text_before, Rank,
};
use vstd::prelude::*;
use vstd::string::*;

verus! {

/// What kind of harm a broken rule stands for.
#[derive(Clone, Copy, Debug, PartialEq, Eq, Structural)]
pub enum Classification {
    AbiCompatibility,
    ResourceLimit,
    Security,
}

impl Classification {
    /// The classification as a report shows it.
    pub open spec fn label(self) -> Seq<char> {
        match self {
            Classification::AbiCompatibility => "ABI Compatibility"@,
            Classification::ResourceLimit => "Resource Limit"@,
            Classification::Security => "Security"@,
        }
    }

    /// The classification as a report shows it.
    pub fn as_str(&self) -> (r: &'static str)
        ensures
            r@ == self.label(),
    {
        match self {
            Classification::AbiCompatibility => "ABI Compatibility",
            Classification::ResourceLimit => "Resource Limit",
            Classification::Security => "Security",
        }
    }

    /// The classification as a report shows it, as an owned string.
    pub fn to_string(&self) -> (r: String)
        ensures
            r@ == self.label(),
    {
        String::from_str(self.as_str())
    }
}

/// The word for what is, or should be, part of a module (`true`) or not
/// part of it (`false`).
pub open spec fn presence(present: bool) -> Seq<char> {
    if present {
        "included"@
    } else {
        "excluded"@
    }
}

/// Writes the word for presence or absence.
pub fn presence_text(present: bool) -> (r: String)
    ensures
        r@ == presence(present),
{
    if present {
        String::from_str("included")
    } else {
        String::from_str("excluded")
    }
}

/// The headings of a report that is shown as a table.
pub fn table_header() -> (r: Vec<&'static str>)
    ensures
        r@.len() == 6,
        r@[0]@ == "Status"@,
        r@[1]@ == "Property"@,
        r@[2]@ == "Expected"@,
        r@[3]@ == "Actual"@,
        r@[4]@ == "Classification"@,
        r@[5]@ == "Severity"@,
{
    let mut r: Vec<&'static str> = Vec::new();
    r.push("Status");
    r.push("Property");
    r.push("Expected");
    r.push("Actual");
    r.push("Classification");
    r.push("Severity");
    r
}

/// A bar of `n` strokes.
pub open spec fn bar(n: nat) -> Seq<char> {
    Seq::new(n, |i: int| '|')
}

/// Draws a bar of `n` strokes.
pub fn bar_text(n: usize) -> (r: String)
    ensures
        r@ == bar(n as nat),
{
    let mut r = String::new();
    let mut i: usize = 0;
    proof {
        reveal_strlit("|");
    }
    while i < n
        invariant
            i <= n,
            r@ == bar(i as nat),
            "|"@ == seq!['|'],
        decreases n - i,
    {
        r.append("|");
        assert(r@ =~= bar((i + 1) as nat));
        i += 1;
    }
    r
}

/// What one entry of a report says.
pub struct FailureView {
    pub actual: Seq<char>,
    pub expected: Seq<char>,
    pub severity: nat,
    pub classification: Classification,
}

/// A rule that the module breaks: what was found, what was expected, and
/// how grave the difference is, from 0 to 10.
#[derive(Debug, PartialEq, Eq)]
pub struct FailureDetail {
    actual: String,
    expected: String,
    severity: usize,
    classification: Classification,
}

impl View for FailureDetail {
    type V = FailureView;

    closed spec fn view(&self) -> FailureView {
        FailureView {
            actual: self.actual@,
            expected: self.expected@,
            severity: self.severity as nat,
            classification: self.classification,
        }
    }
}

impl FailureDetail {
    #[verifier::type_invariant]
    spec fn severity_in_range(self) -> bool {
        self.severity <= SEVERITY_MAX
    }

    /// An entry with the given content; a severity above ten counts as ten.
    pub fn new(
        actual: String,
        expected: String,
        severity: usize,
        classification: Classification,
    ) -> (r: FailureDetail)
        ensures
            r@ == (FailureView {
                actual: actual@,
                expected: expected@,
                severity: capped(severity as nat),
                classification,
            }),
    {
        let severity = if severity <= SEVERITY_MAX {
            severity
        } else {
            SEVERITY_MAX
        };
        FailureDetail { actual, expected, severity, classification }
    }

    /// What was found in the module.
    pub fn actual(&self) -> (r: &str)
        ensures
            r@ == self@.actual,
    {
        self.actual.as_str()
    }

    /// What the policy asks for.
    pub fn expected(&self) -> (r: &str)
        ensures
            r@ == self@.expected,
    {
        self.expected.as_str()
    }

    /// How grave the difference is, from 0 to 10.
    pub fn severity(&self) -> (r: usize)
        ensures
            r == self@.severity,
            r <= SEVERITY_MAX,
    {
        proof {
            use_type_invariant(self);
        }
        self.severity
    }

    /// What kind of harm the broken rule stands for.
    pub fn classification(&self) -> (r: Classification)
        ensures
            r == self@.classification,
    {
        self.classification
    }

}

impl Clone for FailureDetail {
    fn clone(&self) -> (r: FailureDetail)
        ensures
            r@ == self@,
    {
        proof {
            use_type_invariant(self);
        }
        FailureDetail {
            actual: self.actual.clone(),
            expected: self.expected.clone(),
            severity: self.severity,
            classification: self.classification,
        }
    }
}

/// The paths stand in strictly rising byte order.
pub open spec fn sorted(entries: Seq<(Seq<char>, FailureView)>) -> bool {
    forall|i: int, j: int|
        0 <= i < j < entries.len() ==> text_before(#[trigger] entries[i].0, #[trigger] entries[j].0)
}

/// Some entry stands at `path`.
pub open spec fn has_path(entries: Seq<(Seq<char>, FailureView)>, path: Seq<char>) -> bool {
    exists|i: int| 0 <= i < entries.len() && #[trigger] entries[i].0 == path
}

/// The place of an entry that stands at `path`.
pub open spec fn index_of(entries: Seq<(Seq<char>, FailureView)>, path: Seq<char>) -> int {
    choose|i: int| 0 <= i < entries.len() && #[trigger] entries[i].0 == path
}

/// The entries as a mapping from path to content.
pub open spec fn map_of(entries: Seq<(Seq<char>, FailureView)>) -> Map<Seq<char>, FailureView> {
    Map::new(|p: Seq<char>| has_path(entries, p), |p: Seq<char>| entries[index_of(entries, p)].1)
}

/// In sorted entries each path leads to the content that stands with it.
pub proof fn lemma_map_of_at(entries: Seq<(Seq<char>, FailureView)>, i: int)
    requires
        sorted(entries),
        0 <= i < entries.len(),
    ensures
        map_of(entries).contains_key(entries[i].0),
        map_of(entries)[entries[i].0] == entries[i].1,
{
    let p = entries[i].0;
    assert(has_path(entries, p));
    let j = index_of(entries, p);
    lemma_text_before_irreflexive(p);
    if j < i {
        assert(text_before(entries[j].0, entries[i].0));
    } else if i < j {
        assert(text_before(entries[i].0, entries[j].0));
    }
}

/// Without entries the mapping is empty, and only then.
pub proof fn lemma_map_of_empty(entries: Seq<(Seq<char>, FailureView)>)
    ensures
        entries.len() == 0 <==> map_of(entries) == Map::<Seq<char>, FailureView>::empty(),
{
    if entries.len() == 0 {
        assert(map_of(entries) =~= Map::<Seq<char>, FailureView>::empty());
    } else {
        assert(has_path(entries, entries[0].0));
        assert(map_of(entries).contains_key(entries[0].0));
    }
}

proof fn lemma_replace(
    entries: Seq<(Seq<char>, FailureView)>,
    i: int,
    path: Seq<char>,
    detail: FailureView,
)
    requires
        sorted(entries),
        0 <= i < entries.len(),
        entries[i].0 == path,
    ensures
        sorted(entries.update(i, (path, detail))),
        map_of(entries.update(i, (path, detail))) == map_of(entries).insert(path, detail),
{
    let now = entries.update(i, (path, detail));
    assert forall|a: int, b: int| 0 <= a < b < now.len() implies text_before(
        #[trigger] now[a].0,
        #[trigger] now[b].0,
    ) by {
        assert(now[a].0 == entries[a].0);
        assert(now[b].0 == entries[b].0);
    }
    let target = map_of(entries).insert(path, detail);
    assert forall|p: Seq<char>| map_of(now).contains_key(p) <==> target.contains_key(p) by {
        if has_path(now, p) {
            let j = index_of(now, p);
            assert(entries[j].0 == p);
        }
        if has_path(entries, p) {
            let j = index_of(entries, p);
            assert(now[j].0 == p);
        }
        if p == path {
            assert(now[i].0 == p);
        }
    }
    assert forall|p: Seq<char>| map_of(now).contains_key(p) implies map_of(now)[p] == target[p] by {
        let j = index_of(now, p);
        lemma_map_of_at(now, j);
        if p == path {
            lemma_map_of_at(now, i);
        } else {
            assert(now[j] == entries[j]);
            lemma_map_of_at(entries, j);
        }
    }
    assert(map_of(now) =~= target);
}

proof fn lemma_insert(
    entries: Seq<(Seq<char>, FailureView)>,
    i: int,
    path: Seq<char>,
    detail: FailureView,
)
    requires
        sorted(entries),
        0 <= i <= entries.len(),
        forall|j: int| 0 <= j < i ==> text_before(#[trigger] entries[j].0, path),
        i < entries.len() ==> text_before(path, entries[i].0),
    ensures
        sorted(entries.insert(i, (path, detail))),
        map_of(entries.insert(i, (path, detail))) == map_of(entries).insert(path, detail),
{
    let now = entries.insert(i, (path, detail));
    assert forall|j: int| i <= j < entries.len() implies text_before(
        path,
        #[trigger] entries[j].0,
    ) by {
        if i < j {
            assert(text_before(entries[i].0, entries[j].0));
            lemma_text_before_transitive(path, entries[i].0, entries[j].0);
        }
    }
    assert forall|a: int, b: int| 0 <= a < b < now.len() implies text_before(
        #[trigger] now[a].0,
        #[trigger] now[b].0,
    ) by {
        if b < i {
            assert(now[a] == entries[a] && now[b] == entries[b]);
        } else if b == i {
            assert(now[a] == entries[a]);
        } else if a < i {
            assert(now[a] == entries[a] && now[b] == entries[b - 1]);
        } else if a == i {
            assert(now[b] == entries[b - 1]);
        } else {
            assert(now[a] == entries[a - 1] && now[b] == entries[b - 1]);
        }
    }
    lemma_text_before_irreflexive(path);
    let target = map_of(entries).insert(path, detail);
    assert forall|p: Seq<char>| map_of(now).contains_key(p) <==> target.contains_key(p) by {
        if has_path(now, p) {
            let j = index_of(now, p);
            if j < i {
                assert(entries[j].0 == p);
            } else if j > i {
                assert(entries[j - 1].0 == p);
            }
        }
        if has_path(entries, p) {
            let j = index_of(entries, p);
            if j < i {
                assert(now[j].0 == p);
            } else {
                assert(now[j + 1].0 == p);
            }
        }
        if p == path {
            assert(now[i].0 == p);
        }
    }
    assert forall|p: Seq<char>| map_of(now).contains_key(p) implies map_of(now)[p] == target[p] by {
        let j = index_of(now, p);
        lemma_map_of_at(now, j);
        if p == path {
            lemma_map_of_at(now, i);
        } else if j < i {
            assert(now[j] == entries[j]);
            lemma_map_of_at(entries, j);
        } else {
            assert(now[j] == entries[j - 1]);
            lemma_map_of_at(entries, j - 1);
        }
    }
    assert(map_of(now) =~= target);
}

/// One entry of a report with its path.
#[derive(Debug, PartialEq, Eq)]
struct Entry {
    path: String,
    detail: FailureDetail,
}

/// The outcome of an evaluation: the rules that the module breaks, by the
/// dot-separated path of each rule.
#[derive(Debug, PartialEq, Eq)]
pub struct Report {
    fails: Vec<Entry>,
}

/// What a list of entries says, path by path.
spec fn entries_of(fails: Seq<Entry>) -> Seq<(Seq<char>, FailureView)> {
    fails.map_values(|e: Entry| (e.path@, e.detail@))
}

/// Puts an entry at its place among sorted entries, in place of any that
/// stood at the same path.
fn place(fails: &mut Vec<Entry>, path: String, detail: FailureDetail)
    requires
        sorted(entries_of(old(fails)@)),
    ensures
        sorted(entries_of(final(fails)@)),
        map_of(entries_of(final(fails)@)) == map_of(entries_of(old(fails)@)).insert(
            path@,
            detail@,
        ),
{
    let ghost before = entries_of(fails@);
    let mut i: usize = 0;
    while i < fails.len()
        invariant
            i <= fails@.len(),
            entries_of(fails@) == before,
            before == entries_of(old(fails)@),
            before.len() == fails@.len(),
            sorted(before),
            forall|j: int| 0 <= j < i ==> text_before(#[trigger] before[j].0, path@),
        decreases fails@.len() - i,
    {
        match rank(fails[i].path.as_str(), path.as_str()) {
            Rank::Before => {
                i += 1;
            },
            Rank::Same => {
                proof {
                    lemma_replace(before, i as int, path@, detail@);
                }
                fails.set(i, Entry { path, detail });
                assert(entries_of(fails@) =~= before.update(i as int, (path@, detail@)));
                return ;
            },
            Rank::After => {
                proof {
                    lemma_insert(before, i as int, path@, detail@);
                }
                fails.insert(i, Entry { path, detail });
                assert(entries_of(fails@) =~= before.insert(i as int, (path@, detail@)));
                return ;
            },
        }
    }
    proof {
        lemma_insert(before, i as int, path@, detail@);
    }
    fails.insert(i, Entry { path, detail });
    assert(entries_of(fails@) =~= before.insert(i as int, (path@, detail@)));
}

/// What the type checks of one rule item add to a report: an entry for the
/// parameters, where the rule states them and they differ from the actual
/// ones, and one for the results likewise.
pub open spec fn with_type_checks(
    base: Map<Seq<char>, FailureView>,
    path: Seq<char>,
    actual: FunctionTypeView,
    params: Option<Seq<ValType>>,
    results: Option<Seq<ValType>>,
) -> Map<Seq<char>, FailureView> {
    let first = match params {
        Some(expected) if expected != actual.params => base.insert(
            path + ".params"@,
            type_mismatch(expected, actual.params),
        ),
        _ => base,
    };
    match results {
        Some(expected) if expected != actual.results => first.insert(
            path + ".results"@,
            type_mismatch(expected, actual.results),
        ),
        _ => first,
    }
}

/// The entry for types that differ from the expected ones.
pub open spec fn type_mismatch(expected: Seq<ValType>, actual: Seq<ValType>) -> FailureView {
    FailureView {
        actual: type_list(actual),
        expected: type_list(expected),
        severity: 8,
        classification: Classification::AbiCompatibility,
    }
}

impl View for Report {
    type V = Map<Seq<char>, FailureView>;

    closed spec fn view(&self) -> Map<Seq<char>, FailureView> {
        map_of(self.entries())
    }
}

impl Report {
    /// The entries in the order in which the report keeps them.
    pub closed spec fn entries(self) -> Seq<(Seq<char>, FailureView)> {
        entries_of(self.fails@)
    }

    #[verifier::type_invariant]
    spec fn in_order(self) -> bool {
        sorted(self.entries())
    }

    /// The mapping of a report is that of its entries, which are sorted.
    pub proof fn lemma_view(self)
        ensures
            self@ == map_of(self.entries()),
    {
    }

    /// A report without entries.
    pub fn new() -> (r: Report)
        ensures
            r@ == Map::<Seq<char>, FailureView>::empty(),
            r.entries().len() == 0,
    {
        let r = Report { fails: Vec::new() };
        proof {
            lemma_map_of_empty(r.entries());
        }
        r
    }

    /// A copy of the report.
    pub fn copy(&self) -> (r: Report)
        ensures
            r@ == self@,
            r.entries() == self.entries(),
    {
        proof {
            use_type_invariant(self);
        }
        let mut fails: Vec<Entry> = Vec::new();
        let mut i: usize = 0;
        while i < self.fails.len()
            invariant
                i <= self.fails@.len(),
                entries_of(fails@) == entries_of(self.fails@).take(i as int),
            decreases self.fails@.len() - i,
        {
            let ghost before = entries_of(fails@);
            let path = self.fails[i].path.clone();
            let detail = self.fails[i].detail.clone();
            fails.push(Entry { path, detail });
            assert(entries_of(fails@) =~= before.push((path@, detail@)));
            assert(entries_of(self.fails@)[i as int] == (path@, detail@));
            assert(entries_of(fails@) =~= entries_of(self.fails@).take(i + 1));
            i += 1;
        }
        assert(entries_of(self.fails@).take(i as int) =~= entries_of(self.fails@));
        Report { fails }
    }

    /// Whether the module breaks any rule.
    pub fn has_failures(&self) -> (r: bool)
        ensures
            r == (self.entries().len() > 0),
            r == (self@ != Map::<Seq<char>, FailureView>::empty()),
    {
        proof {
            lemma_map_of_empty(self.entries());
        }
        !(self.fails.len() == 0)
    }

    /// The number of rules that the module breaks.
    pub fn len(&self) -> (r: usize)
        ensures
            r == self.entries().len(),
    {
        self.fails.len()
    }

    /// The path of the entry at place `i`, counting in the order of paths.
    pub fn path_at(&self, i: usize) -> (r: &str)
        requires
            i < self.entries().len(),
        ensures
            r@ == self.entries()[i as int].0,
            sorted(self.entries()),
            self@.contains_key(r@),
    {
        proof {
            use_type_invariant(self);
            lemma_map_of_at(self.entries(), i as int);
        }
        self.fails[i].path.as_str()
    }

    /// The content of the entry at place `i`, counting in the order of paths.
    pub fn detail_at(&self, i: usize) -> (r: &FailureDetail)
        requires
            i < self.entries().len(),
        ensures
            r@ == self.entries()[i as int].1,
            self@[self.entries()[i as int].0] == r@,
    {
        proof {
            use_type_invariant(self);
            lemma_map_of_at(self.entries(), i as int);
        }
        &self.fails[i].detail
    }

    /// What the process that made the report ends with: 0 where the module
    /// broke no rule, 1 where it broke any.
    pub fn exit_status(&self) -> (r: u8)
        ensures
            r == if self.entries().len() == 0 {
                0u8
            } else {
                1u8
            },
    {
        if self.fails.len() == 0 {
            0
        } else {
            1
        }
    }

    /// The row of the table for the entry at place `i`: the status, the
    /// path, what was expected, what was found, the classification, and the
    /// severity as a bar of as many strokes.
    pub fn row_at(&self, i: usize) -> (r: Vec<String>)
        requires
            i < self.entries().len(),
        ensures
            r@.len() == 6,
            r@[0]@ == "FAIL"@,
            r@[1]@ == self.entries()[i as int].0,
            r@[2]@ == self.entries()[i as int].1.expected,
            r@[3]@ == self.entries()[i as int].1.actual,
            r@[4]@ == self.entries()[i as int].1.classification.label(),
            r@[5]@ == bar(self.entries()[i as int].1.severity),
    {
        let entry = &self.fails[i];
        let mut row: Vec<String> = Vec::new();
        row.push(String::from_str("FAIL"));
        row.push(entry.path.clone());
        row.push(String::from_str(entry.detail.expected()));
        row.push(String::from_str(entry.detail.actual()));
        row.push(entry.detail.classification().to_string());
        row.push(bar_text(entry.detail.severity()));
        row
    }

    /// The entry at `path`, if the report has one.
    pub fn get(&self, path: &str) -> (r: Option<&FailureDetail>)
        ensures
            r is Some == self@.contains_key(path@),
            r is Some ==> r->0@ == self@[path@],
    {
        proof {
            use_type_invariant(self);
        }
        let mut i: usize = 0;
        while i < self.fails.len()
            invariant
                i <= self.entries().len(),
                self.entries().len() == self.fails@.len(),
                sorted(self.entries()),
                forall|j: int| 0 <= j < i ==> (#[trigger] self.entries()[j]).0 != path@,
            decreases self.fails@.len() - i,
        {
            if let Rank::Same = rank(self.fails[i].path.as_str(), path) {
                proof {
                    lemma_map_of_at(self.entries(), i as int);
                }
                return Some(&self.fails[i].detail);
            }
            i += 1;
        }
        proof {
            if has_path(self.entries(), path@) {
                let j = index_of(self.entries(), path@);
                assert(self.entries()[j].0 == path@);
            }
        }
        None
    }

    fn put(&mut self, path: String, detail: FailureDetail)
        ensures
            final(self)@ == old(self)@.insert(path@, detail@),
    {
        proof {
            use_type_invariant(&*self);
        }
        let mut taken = Report { fails: Vec::new() };
        core::mem::swap(self, &mut taken);
        let mut fails = taken.fails;
        place(&mut fails, path, detail);
        self.fails = fails;
    }

    /// Records the outcome of one check: nothing where the check holds,
    /// and otherwise an entry at `name`, in place of any that stood there.
    /// A severity above ten counts as ten.
    pub fn validate_fn(
        &mut self,
        name: &str,
        expected: String,
        actual: String,
        valid: bool,
        severity: usize,
        classification: Classification,
    )
        ensures
            final(self)@ == if valid {
                old(self)@
            } else {
                old(self)@.insert(
                    name@,
                    FailureView {
                        actual: actual@,
                        expected: expected@,
                        severity: capped(severity as nat),
                        classification,
                    },
                )
            },
    {
        if !valid {
            let detail = FailureDetail::new(actual, expected, severity, classification);
            self.put(String::from_str(name), detail);
        }
    }

    /// Holds the signature of a function against the one that a rule
    /// expects of it. Each side that the rule states and that differs gets
    /// an entry of its own, at `name` followed by `.params` or `.results`.
    pub fn validate_fn_type(
        &mut self,
        name: &str,
        actual: &FunctionType,
        params: Option<&[ValType]>,
        results: Option<&[ValType]>,
    )
        ensures
            final(self)@ == with_type_checks(
                old(self)@,
                name@,
                actual@,
                match params {
                    Some(p) => Some(p@),
                    None => None,
                },
                match results {
                    Some(p) => Some(p@),
                    None => None,
                },
            ),
    {
        if let Some(expected) = params {
            let test_params = same_types(actual.params.as_slice(), expected);
            self.validate_fn(
                join2(name, ".params").as_str(),
                type_list_text(expected),
                type_list_text(actual.params.as_slice()),
                test_params,
                8,
                Classification::AbiCompatibility,
            );
        }
        if let Some(expected) = results {
            let test_results = same_types(actual.results.as_slice(), expected);
            self.validate_fn(
                join2(name, ".results").as_str(),
                type_list_text(expected),
                type_list_text(actual.results.as_slice()),
                test_results,
                8,
                Classification::AbiCompatibility,
            );
        }
    }
}

impl Clone for Report {
    fn clone(&self) -> (r: Report)
        ensures
            r@ == self@,
    {
        self.copy()
    }
}

} // verus!
