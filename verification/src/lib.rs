//! Admission control for WebAssembly modules.
//!
//! A policy, written down in a checkfile, says what shape a module may
//! have: what it may and must import and export, how large it may be, and
//! how complex its code. The engine holds a policy against the facts known
//! of a module and reports every rule that the module breaks, each with a
//! severity and a classification. The generator writes the policy that a
//! module satisfies as it stands, and the differ shows how two modules
//! differ by comparing the policies generated for them.
//!
//! The facts of a module are in `module`, the policy in `policy`, its
//! reading and writing in `document`, `written`, `checkfile` and `yaml`.
//! The engine is in `engine` with `lookup`, `score`, `risk`, `size` and
//! `report`; the generator in `generate`, the differ in `diff`, the
//! handling of policies that are fetched from elsewhere in `remote`. What
//! the catalog of modules and the command line need of the library is in
//! `api`, `convert` and `cli`.

pub mod api;
pub mod checkfile;
pub mod cli;
pub mod convert;
pub mod diff;
pub mod document;
pub mod engine;
pub mod generate;
pub mod lookup;
pub mod module;
pub mod number;
pub mod policy;
pub mod remote;
pub mod report;
pub mod risk;
pub mod roundtrip;
pub mod score;
pub mod size;
pub mod strict;
pub mod text;
pub mod written;
pub mod yaml;

pub use checkfile::DocumentError;
pub use diff::Diff;
pub use engine::{evaluate, validate};
pub use generate::generate_checkfile;
pub use module::{Export, Function, FunctionType, Import, Module, SourceLanguage, ValType};
pub use policy::{
    Check, Complexity, ComplexityKind, Exports, FunctionItem, ImportItem, Imports, Namespace,
    NamespaceItem, PolicyError, Size, Validation,
};
pub use report::{Classification, FailureDetail, Report};
pub use risk::{RiskBounds, RiskLevel};
