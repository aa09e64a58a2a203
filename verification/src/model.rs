//! The sections of a module as plain values, and their mathematical views.
//!
//! A module holds up to four sections that the queries read: types,
//! functions, imports and exports. Each may be absent, which is not the same
//! as being present and empty. The executable types own their data; the
//! `*View` types are what contracts speak of.

use vstd::prelude::*;

verus! {

/// The type of one parameter or result of a function.
#[derive(Clone, Copy, Debug, PartialEq, Eq, Structural)]
pub enum ValueType {
    I32,
    I64,
    F32,
    F64,
}

/// The kind of entity that an export refers to.
#[derive(Clone, Copy, Debug, PartialEq, Eq, Structural)]
pub enum EntityKind {
    Function,
    Table,
    Memory,
    Global,
}

/// What an import entry binds. A function import carries the index of its
/// signature in the type section.
#[derive(Clone, Copy, Debug, PartialEq, Eq, Structural)]
pub enum ImportKind {
    Function(u32),
    Table,
    Memory,
    Global,
}

/// Why a signature could not be resolved.
#[derive(Clone, Copy, Debug, PartialEq, Eq, Structural)]
pub enum ResolveError {
    /// The function section or the type section is absent.
    MissingSection,
    /// An index points past the end of its section.
    IndexOutOfRange,
    /// The import entry that was asked for does not bind a function.
    NotAFunctionImport,
    /// The type section entry that was reached is not a function type.
    TypeMismatch,
}

/// A function signature: the types it takes and the types it gives back.
#[derive(Clone, Debug, PartialEq, Eq)]
pub struct FunctionSignature {
    pub params: Vec<ValueType>,
    pub results: Vec<ValueType>,
}

/// The mathematical value of a [`FunctionSignature`].
pub struct SignatureView {
    pub params: Seq<ValueType>,
    pub results: Seq<ValueType>,
}

impl View for FunctionSignature {
    type V = SignatureView;

    open spec fn view(&self) -> SignatureView {
        SignatureView { params: self.params@, results: self.results@ }
    }
}

/// One entry of the type section.
#[derive(Clone, Debug, PartialEq, Eq)]
pub enum TypeEntry {
    /// A function type.
    Function(FunctionSignature),
    /// A type of another category, which has no call signature.
    Other,
}

/// The mathematical value of a [`TypeEntry`].
pub enum TypeView {
    Function(SignatureView),
    Other,
}

impl TypeView {
    /// The parameter types, where the entry is a function type.
    pub open spec fn params(self) -> Option<Seq<ValueType>> {
        match self {
            TypeView::Function(signature) => Some(signature.params),
            TypeView::Other => None,
        }
    }

    /// The result types, where the entry is a function type.
    pub open spec fn results(self) -> Option<Seq<ValueType>> {
        match self {
            TypeView::Function(signature) => Some(signature.results),
            TypeView::Other => None,
        }
    }
}

impl View for TypeEntry {
    type V = TypeView;

    open spec fn view(&self) -> TypeView {
        match self {
            TypeEntry::Function(signature) => TypeView::Function(signature@),
            TypeEntry::Other => TypeView::Other,
        }
    }
}

/// One entry of the import section.
#[derive(Clone, Debug, PartialEq, Eq)]
pub struct ImportEntry {
    pub module: String,
    pub field: String,
    pub kind: ImportKind,
}

/// The mathematical value of an [`ImportEntry`].
pub struct ImportView {
    pub module: Seq<char>,
    pub field: Seq<char>,
    pub kind: ImportKind,
}

impl ImportView {
    /// Whether the entry binds a function.
    pub open spec fn is_function(self) -> bool {
        self.kind is Function
    }
}

impl View for ImportEntry {
    type V = ImportView;

    open spec fn view(&self) -> ImportView {
        ImportView { module: self.module@, field: self.field@, kind: self.kind }
    }
}

/// One entry of the export section: a name for the entity of the given kind
/// at the given index of that kind's index space.
#[derive(Clone, Debug, PartialEq, Eq)]
pub struct ExportEntry {
    pub field: String,
    pub kind: EntityKind,
    pub index: u32,
}

/// The mathematical value of an [`ExportEntry`].
pub struct ExportView {
    pub field: Seq<char>,
    pub kind: EntityKind,
    pub index: u32,
}

impl View for ExportEntry {
    type V = ExportView;

    open spec fn view(&self) -> ExportView {
        ExportView { field: self.field@, kind: self.kind, index: self.index }
    }
}

/// The four sections of a module that the queries read. `None` is an absent
/// section. The function section holds, for each locally defined function,
/// the index of its signature in the type section.
#[derive(Clone, Debug, PartialEq, Eq)]
pub struct ModuleSections {
    pub types: Option<Vec<TypeEntry>>,
    pub functions: Option<Vec<u32>>,
    pub imports: Option<Vec<ImportEntry>>,
    pub exports: Option<Vec<ExportEntry>>,
}

/// The mathematical value of a [`ModuleSections`].
pub struct SectionsView {
    pub types: Option<Seq<TypeView>>,
    pub functions: Option<Seq<u32>>,
    pub imports: Option<Seq<ImportView>>,
    pub exports: Option<Seq<ExportView>>,
}

/// The views of the entries of a type section, in order.
pub open spec fn type_views(entries: Seq<TypeEntry>) -> Seq<TypeView> {
    entries.map_values(|entry: TypeEntry| entry@)
}

/// The views of the entries of an import section, in order.
pub open spec fn import_views(entries: Seq<ImportEntry>) -> Seq<ImportView> {
    entries.map_values(|entry: ImportEntry| entry@)
}

/// The views of the entries of an export section, in order.
pub open spec fn export_views(entries: Seq<ExportEntry>) -> Seq<ExportView> {
    entries.map_values(|entry: ExportEntry| entry@)
}

impl View for ModuleSections {
    type V = SectionsView;

    open spec fn view(&self) -> SectionsView {
        SectionsView {
            types: match self.types {
                Some(entries) => Some(type_views(entries@)),
                None => None,
            },
            functions: match self.functions {
                Some(entries) => Some(entries@),
                None => None,
            },
            imports: match self.imports {
                Some(entries) => Some(import_views(entries@)),
                None => None,
            },
            exports: match self.exports {
                Some(entries) => Some(export_views(entries@)),
                None => None,
            },
        }
    }
}

/// The outcome of a signature query with the signature taken by its view.
pub open spec fn outcome_view(outcome: Result<FunctionSignature, ResolveError>) -> Result<
    SignatureView,
    ResolveError,
> {
    match outcome {
        Ok(signature) => Ok(signature@),
        Err(error) => Err(error),
    }
}

} // verus!
