//! A policy may name a place from which the policy proper is to be
//! fetched. What is fetched is evaluated as it stands: a place that it names
//! in turn is not gone to.

use crate::checkfile::{read_document, DocumentError};
use crate::policy::{Validation, ValidationView};
use vstd::prelude::*;

verus! {

/// Where the policy at hand was read.
#[derive(Clone, Copy, Debug, PartialEq, Eq, Structural)]
pub enum Origin {
    /// It was handed in with the module.
    Local,
    /// It was fetched from the place that the local policy names.
    Remote,
}

/// What to do with the policy at hand.
#[derive(Clone, Debug, PartialEq, Eq)]
pub enum Step {
    /// Fetch the policy from this place, and come back with what is there.
    Fetch(String),
    /// Evaluate this policy.
    Evaluate(Validation),
}

/// A `Step` as contracts speak of it.
pub enum StepView {
    Fetch(Seq<char>),
    Evaluate(ValidationView),
}

impl View for Step {
    type V = StepView;

    open spec fn view(&self) -> StepView {
        match self {
            Step::Fetch(url) => StepView::Fetch(url@),
            Step::Evaluate(validation) => StepView::Evaluate(validation@),
        }
    }
}

/// The step that a policy calls for: a local policy that names a place is
/// fetched from there; every other policy is evaluated.
pub open spec fn planned(validation: ValidationView, origin: Origin) -> StepView {
    match (origin, validation.validate.url) {
        (Origin::Local, Some(url)) => StepView::Fetch(url),
        _ => StepView::Evaluate(validation),
    }
}

/// The policy that is evaluated in the end, given the local policy and
/// what would be fetched from the place that it names.
pub open spec fn resolved(local: ValidationView, fetched: ValidationView) -> ValidationView {
    match planned(local, Origin::Local) {
        StepView::Fetch(_) => fetched,
        StepView::Evaluate(validation) => validation,
    }
}

/// Decides what to do with the policy at hand.
pub fn next_step(validation: Validation, origin: Origin) -> (r: Step)
    ensures
        r@ == planned(validation@, origin),
{
    match origin {
        Origin::Local => {
            match &validation.validate.url {
                Some(url) => Step::Fetch(url.clone()),
                None => Step::Evaluate(validation),
            }
        },
        Origin::Remote => Step::Evaluate(validation),
    }
}

/// Reads the policy at hand from its text and decides what to do with it.
pub fn read_step(text: &[u8], origin: Origin) -> (r: Result<Step, DocumentError>)
    ensures
        match read_document(text@) {
            Ok(v) => r is Ok && r->Ok_0@ == planned(v, origin),
            Err(Some(e)) => r == Err::<Step, DocumentError>(DocumentError::Schema(e)),
            Err(None) => r is Err && r->Err_0 is Yaml,
        },
        origin is Remote && r is Ok ==> r->Ok_0 is Evaluate,
{
    match Validation::parse(text) {
        Ok(validation) => Ok(next_step(validation, origin)),
        Err(e) => Err(e),
    }
}

/// What came of fetching a policy.
#[derive(Clone, Debug, PartialEq, Eq)]
pub enum Fetched {
    /// The place answered: with the status of its answer and what it sent.
    Response { status: u16, body: Vec<u8> },
    /// The place could not be reached, or its answer not be read: with
    /// what the transport says of it.
    Failed(String),
}

/// Why a fetched policy is not evaluated.
#[derive(Clone, Debug, PartialEq, Eq)]
pub enum RemoteError {
    /// The place could not be reached: with what the transport says of it.
    Unreachable(String),
    /// The place answered with a status that is no success.
    Refused(u16),
    /// What the place sent is no policy document.
    Document(DocumentError),
}

/// Whether the status of an answer is a success: 200 to 299.
pub open spec fn is_success(status: u16) -> bool {
    200 <= status < 300
}

/// Decides what to do with what came of fetching a policy. A fetch that
/// failed ends the run, and so does an answer whose status is no success;
/// there is no second try. What a successful answer sent is read as a
/// policy and evaluated as it stands.
pub fn after_fetch(outcome: Fetched) -> (r: Result<Step, RemoteError>)
    ensures
        match outcome {
            Fetched::Failed(said) => r is Err && r->Err_0 is Unreachable
                && r->Err_0->Unreachable_0@ == said@,
            Fetched::Response { status, body } => if !is_success(status) {
                r == Err::<Step, RemoteError>(RemoteError::Refused(status))
            } else {
                match read_document(body@) {
                    Ok(v) => r is Ok && r->Ok_0@ == StepView::Evaluate(v),
                    Err(Some(e)) => r == Err::<Step, RemoteError>(
                        RemoteError::Document(DocumentError::Schema(e)),
                    ),
                    Err(None) => r is Err && r->Err_0 is Document && r->Err_0->Document_0 is Yaml,
                }
            },
        },
{
    match outcome {
        Fetched::Failed(said) => Err(RemoteError::Unreachable(said)),
        Fetched::Response { status, body } => {
            if status < 200 || status >= 300 {
                return Err(RemoteError::Refused(status));
            }
            match read_step(body.as_slice(), Origin::Remote) {
                Ok(step) => Ok(step),
                Err(e) => Err(RemoteError::Document(e)),
            }
        },
    }
}

/// A fetched policy is evaluated, whether or not it names a place itself:
/// nothing is fetched a second time.
pub proof fn lemma_fetched_policy_is_evaluated(fetched: ValidationView)
    ensures
        planned(fetched, Origin::Remote) == StepView::Evaluate(fetched),
{
}

/// However the local policy and the fetched one look, one step after the
/// first leads to an evaluation, and it is the resolved policy that is
/// evaluated.
pub proof fn lemma_at_most_one_fetch(local: ValidationView, fetched: ValidationView)
    ensures
        match planned(local, Origin::Local) {
            StepView::Fetch(url) => local.validate.url == Some(url) && planned(
                fetched,
                Origin::Remote,
            ) == StepView::Evaluate(resolved(local, fetched)),
            StepView::Evaluate(validation) => local.validate.url is None && validation
                == resolved(local, fetched),
        },
{
}

} // verus!
