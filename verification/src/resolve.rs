//! Resolution of indices and names against the sections of a module.
//!
//! Calls and exports number functions in one combined index space: the
//! function imports come first, in the order of the import section, and the
//! locally defined functions follow, in the order of the function section.
//! The spec functions on [`SectionsView`] say what each query answers; the
//! methods on [`ModuleSections`] compute it.

use vstd::prelude::*;
use crate::model::{
    export_views, import_views, outcome_view, EntityKind, ExportView, FunctionSignature,
    ImportKind, ImportView, ModuleSections, ResolveError, SectionsView, SignatureView, TypeEntry,
    TypeView,
};

verus! {

/// The predicate that holds of the import entries that bind a function.
pub open spec fn binds_function() -> spec_fn(ImportView) -> bool {
    |entry: ImportView| entry.is_function()
}

/// The number of entries of an import section that bind a function.
pub open spec fn count_function_imports(imports: Seq<ImportView>) -> nat {
    imports.filter(binds_function()).len()
}

/// The first entry of an export section with the given field name, if any.
pub open spec fn first_export_named(exports: Seq<ExportView>, name: Seq<char>) -> Option<
    ExportView,
>
    decreases exports.len(),
{
    if exports.len() == 0 {
        None
    } else if exports.first().field == name {
        Some(exports.first())
    } else {
        first_export_named(exports.drop_first(), name)
    }
}

impl SectionsView {
    /// The number of function imports: the length of the imported prefix of
    /// the combined function index space. An absent import section counts
    /// as an empty one.
    pub open spec fn function_import_count(self) -> nat {
        match self.imports {
            Some(imports) => count_function_imports(imports),
            None => 0,
        }
    }

    /// The number of locally defined functions. An absent function section
    /// counts as an empty one.
    pub open spec fn local_function_count(self) -> nat {
        match self.functions {
            Some(functions) => functions.len(),
            None => 0,
        }
    }

    /// The signature at `type_index` of the type section. It is
    /// `MissingSection` where there is no type section, `IndexOutOfRange`
    /// where the index is past the end of the section, and `TypeMismatch`
    /// where the entry is not a function type.
    pub open spec fn resolve_type(self, type_index: int) -> Result<SignatureView, ResolveError> {
        match self.types {
            None => Err(ResolveError::MissingSection),
            Some(types) => if 0 <= type_index < types.len() {
                match types[type_index] {
                    TypeView::Function(signature) => Ok(signature),
                    TypeView::Other => Err(ResolveError::TypeMismatch),
                }
            } else {
                Err(ResolveError::IndexOutOfRange)
            },
        }
    }

    /// The signature of the function that the import entry at position
    /// `import_index` of the import section binds. It is `IndexOutOfRange`
    /// where there is no such entry, `NotAFunctionImport` where the entry
    /// binds something else, and otherwise what the entry's type index
    /// resolves to.
    pub open spec fn imported_function_type(self, import_index: int) -> Result<
        SignatureView,
        ResolveError,
    > {
        match self.imports {
            None => Err(ResolveError::IndexOutOfRange),
            Some(imports) => if 0 <= import_index < imports.len() {
                match imports[import_index].kind {
                    ImportKind::Function(type_index) => self.resolve_type(type_index as int),
                    _ => Err(ResolveError::NotAFunctionImport),
                }
            } else {
                Err(ResolveError::IndexOutOfRange)
            },
        }
    }

    /// The signature of the locally defined function at position
    /// `local_index` of the function section. It is `MissingSection` where
    /// there is no function section, `IndexOutOfRange` where the position is
    /// past the end of the section, and otherwise what the entry's type index
    /// resolves to.
    pub open spec fn local_function_type(self, local_index: int) -> Result<
        SignatureView,
        ResolveError,
    > {
        match self.functions {
            None => Err(ResolveError::MissingSection),
            Some(functions) => if 0 <= local_index < functions.len() {
                self.resolve_type(functions[local_index] as int)
            } else {
                Err(ResolveError::IndexOutOfRange)
            },
        }
    }

    /// The signature of the function at `index` of the combined function
    /// index space. It is `MissingSection` unless both the function section
    /// and the type section are there. An index below the number of function
    /// imports is looked up, unchanged, in the import section; any other
    /// index is looked up in the function section, after that number is
    /// taken off it.
    pub open spec fn function_type_by_combined_index(self, index: int) -> Result<
        SignatureView,
        ResolveError,
    > {
        if self.functions is None || self.types is None {
            Err(ResolveError::MissingSection)
        } else if index < self.function_import_count() {
            self.imported_function_type(index)
        } else {
            self.local_function_type(index - self.function_import_count())
        }
    }

    /// The index and kind of the first export entry named `name`; `None`
    /// where there is no export section or no entry of that name.
    pub open spec fn resolve_export_by_name(self, name: Seq<char>) -> Option<(u32, EntityKind)> {
        match self.exports {
            None => None,
            Some(exports) => match first_export_named(exports, name) {
                Some(entry) => Some((entry.index, entry.kind)),
                None => None,
            },
        }
    }
}

/// Counting the function imports of a prefix, one entry at a time: taking
/// one more entry adds one to the count exactly when that entry binds a
/// function, and the count never exceeds the length of the prefix.
pub proof fn lemma_count_function_imports_step(imports: Seq<ImportView>, position: int)
    requires
        0 <= position < imports.len(),
    ensures
        count_function_imports(imports.take(position + 1)) == count_function_imports(
            imports.take(position),
        ) + (if imports[position].is_function() {
            1nat
        } else {
            0nat
        }),
        count_function_imports(imports.take(position + 1)) <= position + 1,
{
    let prefix = imports.take(position);
    assert(imports.take(position + 1) =~= prefix.push(imports[position]));
    prefix.lemma_filter_len_push(binds_function(), imports[position]);
    prefix.lemma_filter_len(binds_function());
}

impl ModuleSections {
    /// Whether the module has an import section.
    pub fn has_import_section(&self) -> (present: bool)
        ensures
            present == (self@.imports is Some),
    {
        self.imports.is_some()
    }

    /// Whether the module has an export section.
    pub fn has_export_section(&self) -> (present: bool)
        ensures
            present == (self@.exports is Some),
    {
        self.exports.is_some()
    }

    /// Counts the entries of the import section that bind a function.
    pub fn function_import_count(&self) -> (count: usize)
        ensures
            count == self@.function_import_count(),
    {
        match &self.imports {
            None => 0,
            Some(imports) => {
                let ghost all = import_views(imports@);
                let mut count: usize = 0;
                let mut position: usize = 0;
                while position < imports.len()
                    invariant
                        all == import_views(imports@),
                        position <= imports.len(),
                        count <= position,
                        count == count_function_imports(all.take(position as int)),
                    decreases imports.len() - position,
                {
                    proof {
                        lemma_count_function_imports_step(all, position as int);
                    }
                    match imports[position].kind {
                        ImportKind::Function(_) => {
                            count = count + 1;
                        },
                        _ => {},
                    }
                    position = position + 1;
                }
                proof {
                    assert(all.take(position as int) =~= all);
                }
                count
            },
        }
    }

    /// Looks up the signature at `type_index` of the type section.
    pub fn resolve_type(&self, type_index: u32) -> (outcome: Result<
        FunctionSignature,
        ResolveError,
    >)
        ensures
            outcome_view(outcome) == self@.resolve_type(type_index as int),
    {
        match &self.types {
            None => Err(ResolveError::MissingSection),
            Some(types) => {
                let position: usize = type_index as usize;
                if position < types.len() {
                    match &types[position] {
                        TypeEntry::Function(signature) => Ok(
                            FunctionSignature {
                                params: signature.params.clone(),
                                results: signature.results.clone(),
                            },
                        ),
                        TypeEntry::Other => Err(ResolveError::TypeMismatch),
                    }
                } else {
                    Err(ResolveError::IndexOutOfRange)
                }
            },
        }
    }

    /// Looks up the signature of the function that the import entry at
    /// position `import_index` of the import section binds.
    pub fn imported_function_type(&self, import_index: usize) -> (outcome: Result<
        FunctionSignature,
        ResolveError,
    >)
        ensures
            outcome_view(outcome) == self@.imported_function_type(import_index as int),
    {
        match &self.imports {
            None => Err(ResolveError::IndexOutOfRange),
            Some(imports) => {
                if import_index < imports.len() {
                    match imports[import_index].kind {
                        ImportKind::Function(type_index) => self.resolve_type(type_index),
                        _ => Err(ResolveError::NotAFunctionImport),
                    }
                } else {
                    Err(ResolveError::IndexOutOfRange)
                }
            },
        }
    }

    /// Looks up the signature of the locally defined function at position
    /// `local_index` of the function section.
    pub fn local_function_type(&self, local_index: usize) -> (outcome: Result<
        FunctionSignature,
        ResolveError,
    >)
        ensures
            outcome_view(outcome) == self@.local_function_type(local_index as int),
    {
        match &self.functions {
            None => Err(ResolveError::MissingSection),
            Some(functions) => {
                if local_index < functions.len() {
                    self.resolve_type(functions[local_index])
                } else {
                    Err(ResolveError::IndexOutOfRange)
                }
            },
        }
    }

    /// Looks up the signature of the function at `index` of the combined
    /// function index space.
    pub fn function_type_by_combined_index(&self, index: usize) -> (outcome: Result<
        FunctionSignature,
        ResolveError,
    >)
        ensures
            outcome_view(outcome) == self@.function_type_by_combined_index(index as int),
    {
        if self.functions.is_none() || self.types.is_none() {
            return Err(ResolveError::MissingSection);
        }
        let imported = self.function_import_count();
        if index < imported {
            self.imported_function_type(index)
        } else {
            self.local_function_type(index - imported)
        }
    }

    /// Finds the first export entry named `name` and gives its index and
    /// kind, whatever the kind is.
    pub fn resolve_export_by_name(&self, name: &str) -> (found: Option<(u32, EntityKind)>)
        ensures
            found == self@.resolve_export_by_name(name@),
    {
        match &self.exports {
            None => None,
            Some(exports) => {
                let ghost all = export_views(exports@);
                let wanted = name.to_owned();
                let mut position: usize = 0;
                proof {
                    assert(all.skip(0) =~= all);
                }
                while position < exports.len()
                    invariant
                        self@.exports == Some(all),
                        all == export_views(exports@),
                        wanted@ == name@,
                        position <= exports.len(),
                        first_export_named(all, name@) == first_export_named(
                            all.skip(position as int),
                            name@,
                        ),
                    decreases exports.len() - position,
                {
                    let entry = &exports[position];
                    proof {
                        assert(all.skip(position as int).drop_first() =~= all.skip(position + 1));
                    }
                    if entry.field == wanted {
                        return Some((entry.index, entry.kind));
                    }
                    position = position + 1;
                }
                None
            },
        }
    }

    /// Lists the module name and field name of each import entry, in the
    /// order of the import section and whatever the entry binds.
    pub fn list_imports(&self) -> (listed: Option<Vec<(&str, &str)>>)
        ensures
            listed is None <==> self@.imports is None,
            listed matches Some(pairs) ==> pairs.len() == self@.imports.unwrap().len(),
            listed matches Some(pairs) ==> forall|i: int|
                0 <= i < pairs.len() ==> (#[trigger] pairs[i]).0@ == self@.imports.unwrap()[i].module
                    && pairs[i].1@ == self@.imports.unwrap()[i].field,
    {
        match &self.imports {
            None => None,
            Some(imports) => {
                let mut pairs: Vec<(&str, &str)> = Vec::new();
                let mut position: usize = 0;
                while position < imports.len()
                    invariant
                        position <= imports.len(),
                        pairs.len() == position,
                        forall|i: int|
                            0 <= i < position ==> (#[trigger] pairs[i]).0@ == imports[i].module@
                                && pairs[i].1@ == imports[i].field@,
                    decreases imports.len() - position,
                {
                    let entry = &imports[position];
                    pairs.push((entry.module.as_str(), entry.field.as_str()));
                    position = position + 1;
                }
                Some(pairs)
            },
        }
    }
}

} // verus!
