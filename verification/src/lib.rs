//! Index resolution over the sections of a WebAssembly module.
//!
//! Calls and exports refer to functions by an index into one combined space:
//! the function imports first, then the locally defined functions. This crate
//! answers, for a module, which signature an index of that space has, which
//! entity an export name refers to, and which imports the module declares.
//!
//! * [`model`] holds the sections as plain values, with their views.
//! * [`resolve`] holds the queries on those values and says what each answers.
//! * [`laws`] proves what holds of the queries on every module.
//! * [`decoded`] answers the same queries for a module that `parity_wasm`
//!   decoded.

pub mod decoded;
pub mod laws;
pub mod model;
pub mod resolve;

pub use decoded::{
    func_type_by_index, get_imports, has_export_section, has_import_section,
    imported_func_type_by_index, read_sections, resolve_export_by_name,
};
pub use model::{
    EntityKind, ExportEntry, FunctionSignature, ImportEntry, ImportKind, ModuleSections,
    ResolveError, TypeEntry, ValueType,
};
