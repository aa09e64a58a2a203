//! What holds of the queries on every module.
//!
//! The laws are stated over [`SectionsView`], so they hold alike of a
//! [`crate::model::ModuleSections`] and of a decoded module, whose queries
//! answer what the spec functions of the view say.

use vstd::prelude::*;
use crate::model::{ExportView, ImportKind, ResolveError, SectionsView, SignatureView};
use crate::resolve::{binds_function, first_export_named};

verus! {

impl SectionsView {
    /// Whether `type_index` is the index of a function type of the type
    /// section.
    pub open spec fn names_function_type(self, type_index: int) -> bool {
        self.types matches Some(types) && 0 <= type_index < types.len()
            && types[type_index] is Function
    }

    /// The length of the combined function index space: the function imports
    /// and the locally defined functions together.
    pub open spec fn function_space_len(self) -> nat {
        self.function_import_count() + self.local_function_count()
    }

    /// Whether every type reference has a target: each function import and
    /// each locally defined function names a function type of the type
    /// section.
    pub open spec fn type_references_resolve(self) -> bool {
        &&& self.imports matches Some(imports) ==> forall|i: int|
            0 <= i < imports.len() ==> ((#[trigger] imports[i]).kind matches ImportKind::Function(
                type_index,
            ) ==> self.names_function_type(type_index as int))
        &&& self.functions matches Some(functions) ==> forall|i: int|
            0 <= i < functions.len() ==> self.names_function_type(#[trigger] functions[i] as int)
    }

    /// Whether each function export refers to an index of the combined
    /// function index space.
    pub open spec fn function_exports_in_range(self) -> bool {
        self.exports matches Some(exports) ==> forall|i: int|
            0 <= i < exports.len() ==> ((#[trigger] exports[i]).kind is Function
                ==> exports[i].index < self.function_space_len())
    }

    /// Whether the function imports stand before every other import entry,
    /// so that a function import's position in the import section is its
    /// index in the combined function index space.
    pub open spec fn function_imports_lead(self) -> bool {
        self.imports matches Some(imports) ==> forall|i: int|
            0 <= i < self.function_import_count() ==> (#[trigger] imports[i]).is_function()
    }
}

/// There are no more function imports than import entries.
pub proof fn lemma_function_imports_fit(sections: SectionsView)
    ensures
        sections.imports matches Some(imports) ==> sections.function_import_count()
            <= imports.len(),
{
    if let Some(imports) = sections.imports {
        imports.lemma_filter_len(binds_function());
    }
}

/// In a module that has a function section and a type section, whose type
/// references resolve and whose function imports lead, every index of the
/// combined function index space resolves to a signature.
pub proof fn lemma_index_within_space_resolves(sections: SectionsView, index: int)
    requires
        sections.functions is Some,
        sections.types is Some,
        sections.type_references_resolve(),
        sections.function_imports_lead(),
        0 <= index < sections.function_space_len(),
    ensures
        sections.function_type_by_combined_index(index) is Ok,
{
    lemma_function_imports_fit(sections);
}

/// In a module that has a function section and a type section, an index at
/// or past the end of the combined function index space is out of range.
pub proof fn lemma_index_beyond_space_is_out_of_range(sections: SectionsView, index: int)
    requires
        sections.functions is Some,
        sections.types is Some,
        index >= sections.function_space_len(),
    ensures
        sections.function_type_by_combined_index(index) == Err::<SignatureView, ResolveError>(
            ResolveError::IndexOutOfRange,
        ),
{
}

/// In a module without function imports, a combined index within the
/// function section resolves as the entry at that position of the function
/// section does.
pub proof fn lemma_without_function_imports_index_is_local(sections: SectionsView, index: int)
    requires
        sections.function_import_count() == 0,
        sections.functions matches Some(functions) && 0 <= index < functions.len(),
    ensures
        sections.function_type_by_combined_index(index) == sections.local_function_type(index),
        sections.function_type_by_combined_index(index) == sections.resolve_type(
            sections.functions.unwrap()[index] as int,
        ),
{
}

/// A name is searched for without success exactly when no entry of the
/// export section bears it.
pub proof fn lemma_no_entry_named(exports: Seq<ExportView>, name: Seq<char>)
    ensures
        first_export_named(exports, name) is None <==> forall|i: int|
            0 <= i < exports.len() ==> (#[trigger] exports[i]).field != name,
    decreases exports.len(),
{
    if exports.len() > 0 {
        let rest = exports.drop_first();
        lemma_no_entry_named(rest, name);
        if exports.first().field != name {
            if first_export_named(rest, name) is None {
                assert forall|i: int| 0 <= i < exports.len() implies (#[trigger] exports[i]).field
                    != name by {
                    if i > 0 {
                        assert(exports[i] == rest[i - 1]);
                    }
                }
            } else {
                let found = choose|i: int|
                    0 <= i < rest.len() && (#[trigger] rest[i]).field == name;
                assert(exports[found + 1].field == name);
            }
        }
    }
}

/// A search gives the entry that bears the name and is preceded by no entry
/// that bears it.
pub proof fn lemma_first_entry_named(exports: Seq<ExportView>, name: Seq<char>, first: int)
    requires
        0 <= first < exports.len(),
        exports[first].field == name,
        forall|i: int| 0 <= i < first ==> (#[trigger] exports[i]).field != name,
    ensures
        first_export_named(exports, name) == Some(exports[first]),
    decreases exports.len(),
{
    if first > 0 {
        let rest = exports.drop_first();
        assert forall|i: int| 0 <= i < first - 1 implies (#[trigger] rest[i]).field != name by {
            assert(rest[i] == exports[i + 1]);
        }
        lemma_first_entry_named(rest, name, first - 1);
    }
}

/// An export is not found exactly when the module has no export section or
/// no entry of the section bears the name.
pub proof fn lemma_export_not_found(sections: SectionsView, name: Seq<char>)
    ensures
        sections.resolve_export_by_name(name) is None <==> (sections.exports matches Some(exports)
            ==> forall|i: int| 0 <= i < exports.len() ==> (#[trigger] exports[i]).field != name),
{
    if let Some(exports) = sections.exports {
        lemma_no_entry_named(exports, name);
    }
}

/// Where several export entries bear one name, the first of them in the
/// order of the section is the one resolved.
pub proof fn lemma_first_export_wins(sections: SectionsView, name: Seq<char>, first: int)
    requires
        sections.exports matches Some(exports) && 0 <= first < exports.len() && exports[first].field
            == name && forall|i: int| 0 <= i < first ==> (#[trigger] exports[i]).field != name,
    ensures
        sections.resolve_export_by_name(name) == Some(
            (sections.exports.unwrap()[first].index, sections.exports.unwrap()[first].kind),
        ),
{
    lemma_first_entry_named(sections.exports.unwrap(), name, first);
}

/// An entry that a search finds stands in the section and bears the name.
pub proof fn lemma_found_entry_is_in_section(exports: Seq<ExportView>, name: Seq<char>)
    requires
        first_export_named(exports, name) is Some,
    ensures
        exists|i: int|
            0 <= i < exports.len() && (#[trigger] exports[i]).field == name && Some(exports[i])
                == first_export_named(exports, name),
    decreases exports.len(),
{
    if exports.first().field != name {
        let rest = exports.drop_first();
        lemma_found_entry_is_in_section(rest, name);
        let found = choose|i: int|
            0 <= i < rest.len() && (#[trigger] rest[i]).field == name && Some(rest[i])
                == first_export_named(rest, name);
        assert(exports[found + 1] == rest[found]);
    }
}

/// What is resolved for a name is the index and kind of an entry of the
/// export section that bears the name.
pub proof fn lemma_resolved_export_is_an_entry(sections: SectionsView, name: Seq<char>)
    requires
        sections.resolve_export_by_name(name) is Some,
    ensures
        sections.exports matches Some(exports) && exists|i: int|
            0 <= i < exports.len() && (#[trigger] exports[i]).field == name && Some(
                (exports[i].index, exports[i].kind),
            ) == sections.resolve_export_by_name(name),
{
    lemma_found_entry_is_in_section(sections.exports.unwrap(), name);
}

/// In a module that has a function section and a type section, the index
/// that a name resolves to as a function export resolves in turn to what
/// the section entry at that position gives: the import entry at the index
/// where it is below the number of function imports, else the function
/// section entry at the index with that number taken off. Where moreover
/// the type references resolve, the function exports are in range and the
/// function imports lead, that is a signature.
pub proof fn lemma_exported_function_round_trip(sections: SectionsView, name: Seq<char>)
    requires
        sections.functions is Some,
        sections.types is Some,
        sections.resolve_export_by_name(name) matches Some((_, kind)) && kind is Function,
    ensures
        ({
            let index = sections.resolve_export_by_name(name).unwrap().0 as int;
            let imported = sections.function_import_count() as int;
            &&& sections.function_type_by_combined_index(index) == if index < imported {
                sections.imported_function_type(index)
            } else {
                sections.local_function_type(index - imported)
            }
            &&& sections.type_references_resolve() && sections.function_exports_in_range()
                && sections.function_imports_lead() ==> sections.function_type_by_combined_index(
                index,
            ) is Ok
        }),
{
    lemma_resolved_export_is_an_entry(sections, name);
    let index = sections.resolve_export_by_name(name).unwrap().0 as int;
    if sections.type_references_resolve() && sections.function_exports_in_range()
        && sections.function_imports_lead() {
        lemma_index_within_space_resolves(sections, index);
    }
}

} // verus!
