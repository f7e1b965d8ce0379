//! Policy documents as YAML text: reading a checkfile, and writing one.

use crate::document::{validation_value, SchemaError};
use crate::policy::{Check, CheckView, Validation, ValidationView};
use crate::strict::{lemma_documents_are_strict, strict};
use crate::written::{check_tree, validation_tree};
use crate::yaml::{error_text, node_of, parse_value, write_value, yaml_document, yaml_text};
use vstd::prelude::*;

verus! {

/// Why a text is no policy document, or a policy document no text.
#[derive(Clone, Debug, PartialEq, Eq)]
pub enum DocumentError {
    /// The text is no YAML, or the document cannot be written as YAML:
    /// with what the YAML library says of it.
    Yaml(String),
    /// The text is YAML, but no policy document.
    Schema(SchemaError),
}

/// What a text is read as: the policy document that it holds, or why it
/// holds none. A text that is no YAML holds none, for no reason that the
/// schema could give.
pub open spec fn read_document(text: Seq<u8>) -> Result<ValidationView, Option<SchemaError>> {
    match yaml_document(text) {
        None => Err(None),
        Some(tree) => match validation_value(tree) {
            Ok(v) => Ok(v),
            Err(e) => Err(Some(e)),
        },
    }
}

/// The text of a policy document.
pub open spec fn document_text(validation: ValidationView) -> Option<Seq<char>> {
    yaml_text(validation_tree(validation))
}

/// The text of the rule groups of a policy.
pub open spec fn check_text(check: CheckView) -> Option<Seq<char>> {
    yaml_text(check_tree(check))
}

impl Validation {
    /// Reads a policy document from YAML text. The schema is strict: a key
    /// that it does not declare, at whatever depth, makes the document
    /// fail.
    pub fn parse(text: &[u8]) -> (r: Result<Validation, DocumentError>)
        ensures
            match read_document(text@) {
                Ok(v) => r is Ok && r->Ok_0@ == v,
                Err(Some(e)) => r == Err::<Validation, DocumentError>(DocumentError::Schema(e)),
                Err(None) => r is Err && r->Err_0 is Yaml,
            },
            r is Ok ==> yaml_document(text@) is Some && strict(yaml_document(text@)->0),
    {
        match parse_value(text) {
            Err(e) => Err(DocumentError::Yaml(error_text(&e))),
            Ok(value) => {
                let tree = node_of(&value);
                match Validation::from_tree(&tree) {
                    Ok(v) => {
                        proof {
                            lemma_documents_are_strict(tree@);
                        }
                        Ok(v)
                    },
                    Err(e) => Err(DocumentError::Schema(e)),
                }
            },
        }
    }

    /// Writes the policy document as YAML text.
    pub fn write(&self) -> (r: Result<String, DocumentError>)
        ensures
            match document_text(self@) {
                Some(text) => r is Ok && r->Ok_0@ == text,
                None => r is Err && r->Err_0 is Yaml,
            },
    {
        match write_value(&self.to_value()) {
            Ok(text) => Ok(text),
            Err(e) => Err(DocumentError::Yaml(error_text(&e))),
        }
    }
}

impl Check {
    /// Writes the rule groups of a policy as YAML text.
    pub fn write(&self) -> (r: Result<String, DocumentError>)
        ensures
            match check_text(self@) {
                Some(text) => r is Ok && r->Ok_0@ == text,
                None => r is Err && r->Err_0 is Yaml,
            },
    {
        match write_value(&self.to_value()) {
            Ok(text) => Ok(text),
            Err(e) => Err(DocumentError::Yaml(error_text(&e))),
        }
    }
}

} // verus!
