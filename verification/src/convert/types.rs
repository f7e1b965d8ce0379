//! What a request to the catalog asks for, in the library's own terms.

use crate::text::{lower, lowercase, same_text};
use vstd::prelude::*;

verus! {

/// The direction of a sort.
#[derive(Debug, Clone, Copy, PartialEq, Eq, Structural)]
pub enum Order {
    Asc,
    Desc,
}

/// The window of results that a request asks for.
#[derive(Debug, Clone, Copy, PartialEq, Eq, Structural)]
pub struct Pagination {
    pub offset: u32,
    pub limit: u32,
}

impl Default for Pagination {
    /// The first ten results.
    fn default() -> (r: Pagination)
        ensures
            r == (Pagination { offset: 0, limit: 10 }),
    {
        Self { offset: 0, limit: 10 }
    }
}

impl Pagination {
    /// The window that a message asks for.
    pub fn from_api(page: &crate::convert::api::Pagination) -> (r: Pagination)
        ensures
            r == (Pagination { offset: page.offset, limit: page.limit }),
    {
        Pagination { offset: page.offset, limit: page.limit }
    }
}

/// What a search is sorted by.
#[derive(Debug, Clone, Copy, PartialEq, Eq, Structural)]
pub enum SortField {
    CreatedAt,
    Name,
    Size,
    Language,
    ImportsCount,
    ExportsCount,
    Sha256,
    Complexity,
}

/// The order of the results of a search.
#[derive(Debug, Clone, Copy, PartialEq, Eq, Structural)]
pub struct Sort {
    pub order: Order,
    pub field: SortField,
}

/// How an audit came out for a module.
#[derive(Debug, Clone, Copy, PartialEq, Eq, Structural)]
pub enum AuditOutcome {
    Pass,
    Fail,
}

impl AuditOutcome {
    /// The outcome as it is written.
    pub open spec fn name(self) -> Seq<char> {
        match self {
            AuditOutcome::Pass => "pass"@,
            AuditOutcome::Fail => "fail"@,
        }
    }

    /// The outcome that a word in lower case stands for: a pass for `pass`,
    /// a failure for any other.
    pub open spec fn named(word: Seq<char>) -> AuditOutcome {
        if word == "pass"@ {
            AuditOutcome::Pass
        } else {
            AuditOutcome::Fail
        }
    }

    /// The outcome as it is written.
    pub fn as_str(&self) -> (r: &'static str)
        ensures
            r@ == self.name(),
    {
        match self {
            AuditOutcome::Pass => "pass",
            AuditOutcome::Fail => "fail",
        }
    }

    /// The outcome as it is written, as an owned string.
    pub fn to_string(&self) -> (r: String)
        ensures
            r@ == self.name(),
    {
        String::from_str(self.as_str())
    }

    /// The outcome that a word in lower case stands for.
    pub fn from_lowercase(word: &str) -> (r: AuditOutcome)
        ensures
            r == AuditOutcome::named(word@),
    {
        if same_text(word, "pass") {
            AuditOutcome::Pass
        } else {
            AuditOutcome::Fail
        }
    }

    /// The outcome that a word stands for, in whatever case it is written.
    pub fn from_word(value: &str) -> (r: AuditOutcome)
        ensures
            r == AuditOutcome::named(lowercase(value@)),
    {
        AuditOutcome::from_lowercase(lower(value).as_str())
    }

    /// The outcome that a message holds.
    pub fn from_api(outcome: crate::convert::api::AuditOutcome) -> (r: AuditOutcome)
        ensures
            r == match outcome {
                crate::convert::api::AuditOutcome::PASS => AuditOutcome::Pass,
                crate::convert::api::AuditOutcome::FAIL => AuditOutcome::Fail,
            },
    {
        match outcome {
            crate::convert::api::AuditOutcome::PASS => AuditOutcome::Pass,
            crate::convert::api::AuditOutcome::FAIL => AuditOutcome::Fail,
        }
    }

    /// The outcome as a message holds it.
    pub fn to_api(self) -> (r: crate::convert::api::AuditOutcome)
        ensures
            r == match self {
                AuditOutcome::Pass => crate::convert::api::AuditOutcome::PASS,
                AuditOutcome::Fail => crate::convert::api::AuditOutcome::FAIL,
            },
    {
        match self {
            AuditOutcome::Pass => crate::convert::api::AuditOutcome::PASS,
            AuditOutcome::Fail => crate::convert::api::AuditOutcome::FAIL,
        }
    }
}

impl Default for AuditOutcome {
    fn default() -> (r: AuditOutcome)
        ensures
            r == AuditOutcome::Fail,
    {
        AuditOutcome::Fail
    }
}

impl From<String> for AuditOutcome {
    fn from(value: String) -> (r: AuditOutcome) {
        AuditOutcome::from_word(value.as_str())
    }
}

impl vstd::std_specs::convert::FromSpecImpl<String> for AuditOutcome {
    open spec fn obeys_from_spec() -> bool {
        true
    }

    open spec fn from_spec(value: String) -> AuditOutcome {
        AuditOutcome::named(lowercase(value@))
    }
}

/// A request to audit the modules of the catalog against a policy.
#[derive(Debug, Clone, PartialEq, Eq)]
pub struct Audit {
    pub page: Pagination,
    pub outcome: AuditOutcome,
    pub checkfile: Vec<u8>,
}

} // verus!
