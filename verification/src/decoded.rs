//! The queries on a module as `parity_wasm` decodes it.
//!
//! A decoded [`Module`] is opaque to the verifier. [`sections_of`] names what
//! its four sections hold, and a handful of trusted accessors, one for each
//! thing that is read out of a module, relate the decoder's own accessors to
//! that name. Everything else here is verified against those accessors:
//! [`read_sections`] copies a module into a [`ModuleSections`], and the
//! queries answer for a module what the spec functions on [`SectionsView`]
//! say of its sections.

use vstd::prelude::*;
use parity_wasm::elements::{External, Internal, Module, Type};
use crate::model::{
    export_views, import_views, outcome_view, type_views, EntityKind, ExportEntry,
    FunctionSignature, ImportEntry, ImportKind, ModuleSections, ResolveError, SectionsView,
    TypeEntry, ValueType,
};

verus! {

/// Makes the decoder's module type known to the verifier, as a value that
/// it cannot look into.
#[verifier::external_type_specification]
#[verifier::external_body]
pub struct ExModule(Module);

/// What the type, function, import and export sections of a decoded module
/// hold: for each, `None` where the module has no such section, else its
/// entries in order.
pub uninterp spec fn sections_of(module: Module) -> SectionsView;

/// Trusted: `Module::type_section` and `TypeSection::types`. Gives the number
/// of entries of the type section, `None` where the module has none.
#[verifier::external_body]
fn type_count(module: &Module) -> (count: Option<usize>)
    ensures
        count is Some <==> sections_of(*module).types is Some,
        count matches Some(n) ==> sections_of(*module).types.unwrap().len() == n,
{
    match module.type_section() {
        Some(section) => Some(section.types().len()),
        None => None,
    }
}

/// Trusted: `FunctionType::params` on entry `position` of the type section,
/// each value type mapped to ours. The decoder's type entries are all
/// function types; the parameters of this one are as returned.
#[verifier::external_body]
fn signature_params(module: &Module, position: usize) -> (converted: Vec<ValueType>)
    requires
        sections_of(*module).types matches Some(types) && position < types.len(),
    ensures
        sections_of(*module).types.unwrap()[position as int].params() == Some(converted@),
{
    let Type::Function(signature) = &module.type_section().unwrap().types()[position];
    signature.params().iter().map(|value| match value {
        parity_wasm::elements::ValueType::I32 => ValueType::I32,
        parity_wasm::elements::ValueType::I64 => ValueType::I64,
        parity_wasm::elements::ValueType::F32 => ValueType::F32,
        parity_wasm::elements::ValueType::F64 => ValueType::F64,
    }).collect()
}

/// Trusted: `FunctionType::results` on entry `position` of the type section,
/// each value type mapped to ours. The decoder's type entries are all
/// function types; the results of this one are as returned.
#[verifier::external_body]
fn signature_results(module: &Module, position: usize) -> (converted: Vec<ValueType>)
    requires
        sections_of(*module).types matches Some(types) && position < types.len(),
    ensures
        sections_of(*module).types.unwrap()[position as int].results() == Some(converted@),
{
    let Type::Function(signature) = &module.type_section().unwrap().types()[position];
    signature.results().iter().map(|value| match value {
        parity_wasm::elements::ValueType::I32 => ValueType::I32,
        parity_wasm::elements::ValueType::I64 => ValueType::I64,
        parity_wasm::elements::ValueType::F32 => ValueType::F32,
        parity_wasm::elements::ValueType::F64 => ValueType::F64,
    }).collect()
}

/// Trusted: `Module::function_section` and `FunctionSection::entries`. Gives
/// the number of entries of the function section, `None` where the module
/// has none.
#[verifier::external_body]
fn function_count(module: &Module) -> (count: Option<usize>)
    ensures
        count is Some <==> sections_of(*module).functions is Some,
        count matches Some(n) ==> sections_of(*module).functions.unwrap().len() == n,
{
    match module.function_section() {
        Some(section) => Some(section.entries().len()),
        None => None,
    }
}

/// Trusted: `Func::type_ref` on entry `position` of the function section.
#[verifier::external_body]
fn function_type_ref(module: &Module, position: usize) -> (type_index: u32)
    requires
        sections_of(*module).functions matches Some(functions) && position < functions.len(),
    ensures
        sections_of(*module).functions.unwrap()[position as int] == type_index,
{
    module.function_section().unwrap().entries()[position].type_ref()
}

/// Trusted: `Module::import_section` and `ImportSection::entries`. Gives the
/// number of entries of the import section, `None` where the module has
/// none.
#[verifier::external_body]
fn import_count(module: &Module) -> (count: Option<usize>)
    ensures
        count is Some <==> sections_of(*module).imports is Some,
        count matches Some(n) ==> sections_of(*module).imports.unwrap().len() == n,
{
    match module.import_section() {
        Some(section) => Some(section.entries().len()),
        None => None,
    }
}

/// Trusted: `ImportEntry::module` on entry `position` of the import section.
#[verifier::external_body]
fn import_module_name(module: &Module, position: usize) -> (name: &str)
    requires
        sections_of(*module).imports matches Some(imports) && position < imports.len(),
    ensures
        sections_of(*module).imports.unwrap()[position as int].module == name@,
{
    module.import_section().unwrap().entries()[position].module()
}

/// Trusted: `ImportEntry::field` on entry `position` of the import section.
#[verifier::external_body]
fn import_field_name(module: &Module, position: usize) -> (name: &str)
    requires
        sections_of(*module).imports matches Some(imports) && position < imports.len(),
    ensures
        sections_of(*module).imports.unwrap()[position as int].field == name@,
{
    module.import_section().unwrap().entries()[position].field()
}

/// Trusted: `ImportEntry::external` on entry `position` of the import
/// section, mapped variant by variant; of a function import the type index
/// is kept.
#[verifier::external_body]
fn import_kind(module: &Module, position: usize) -> (kind: ImportKind)
    requires
        sections_of(*module).imports matches Some(imports) && position < imports.len(),
    ensures
        sections_of(*module).imports.unwrap()[position as int].kind == kind,
{
    match module.import_section().unwrap().entries()[position].external() {
        External::Function(type_index) => ImportKind::Function(*type_index),
        External::Table(_) => ImportKind::Table,
        External::Memory(_) => ImportKind::Memory,
        External::Global(_) => ImportKind::Global,
    }
}

/// Trusted: `Module::export_section` and `ExportSection::entries`. Gives the
/// number of entries of the export section, `None` where the module has
/// none.
#[verifier::external_body]
fn export_count(module: &Module) -> (count: Option<usize>)
    ensures
        count is Some <==> sections_of(*module).exports is Some,
        count matches Some(n) ==> sections_of(*module).exports.unwrap().len() == n,
{
    match module.export_section() {
        Some(section) => Some(section.entries().len()),
        None => None,
    }
}

/// Trusted: `ExportEntry::field` on entry `position` of the export section.
#[verifier::external_body]
fn export_field_name(module: &Module, position: usize) -> (name: &str)
    requires
        sections_of(*module).exports matches Some(exports) && position < exports.len(),
    ensures
        sections_of(*module).exports.unwrap()[position as int].field == name@,
{
    module.export_section().unwrap().entries()[position].field()
}

/// Trusted: `ExportEntry::internal` on entry `position` of the export
/// section, split into the index it carries and the kind of its variant.
#[verifier::external_body]
fn export_target(module: &Module, position: usize) -> (target: (u32, EntityKind))
    requires
        sections_of(*module).exports matches Some(exports) && position < exports.len(),
    ensures
        sections_of(*module).exports.unwrap()[position as int].index == target.0
            && sections_of(*module).exports.unwrap()[position as int].kind == target.1,
{
    match module.export_section().unwrap().entries()[position].internal() {
        Internal::Function(index) => (*index, EntityKind::Function),
        Internal::Table(index) => (*index, EntityKind::Table),
        Internal::Memory(index) => (*index, EntityKind::Memory),
        Internal::Global(index) => (*index, EntityKind::Global),
    }
}

/// Copies the type section out of a module.
fn read_types(module: &Module) -> (section: Option<Vec<TypeEntry>>)
    ensures
        section is None <==> sections_of(*module).types is None,
        section matches Some(entries) ==> sections_of(*module).types == Some(type_views(entries@)),
{
    match type_count(module) {
        None => None,
        Some(count) => {
            let ghost types = sections_of(*module).types.unwrap();
            let mut entries: Vec<TypeEntry> = Vec::new();
            let mut position: usize = 0;
            while position < count
                invariant
                    sections_of(*module).types == Some(types),
                    types.len() == count,
                    position <= count,
                    entries.len() == position,
                    forall|i: int| 0 <= i < position ==> (#[trigger] entries[i])@ == types[i],
                decreases count - position,
            {
                let params = signature_params(module, position);
                let results = signature_results(module, position);
                entries.push(TypeEntry::Function(FunctionSignature { params, results }));
                position = position + 1;
            }
            Some(entries)
        },
    }
}

/// Copies the function section out of a module.
fn read_functions(module: &Module) -> (section: Option<Vec<u32>>)
    ensures
        section is None <==> sections_of(*module).functions is None,
        section matches Some(entries) ==> sections_of(*module).functions == Some(entries@),
{
    match function_count(module) {
        None => None,
        Some(count) => {
            let ghost functions = sections_of(*module).functions.unwrap();
            let mut entries: Vec<u32> = Vec::new();
            let mut position: usize = 0;
            while position < count
                invariant
                    sections_of(*module).functions == Some(functions),
                    functions.len() == count,
                    position <= count,
                    entries.len() == position,
                    forall|i: int| 0 <= i < position ==> #[trigger] entries[i] == functions[i],
                decreases count - position,
            {
                entries.push(function_type_ref(module, position));
                position = position + 1;
            }
            Some(entries)
        },
    }
}

/// Copies the import section out of a module.
fn read_imports(module: &Module) -> (section: Option<Vec<ImportEntry>>)
    ensures
        section is None <==> sections_of(*module).imports is None,
        section matches Some(entries) ==> sections_of(*module).imports == Some(
            import_views(entries@),
        ),
{
    match import_count(module) {
        None => None,
        Some(count) => {
            let ghost imports = sections_of(*module).imports.unwrap();
            let mut entries: Vec<ImportEntry> = Vec::new();
            let mut position: usize = 0;
            while position < count
                invariant
                    sections_of(*module).imports == Some(imports),
                    imports.len() == count,
                    position <= count,
                    entries.len() == position,
                    forall|i: int| 0 <= i < position ==> (#[trigger] entries[i])@ == imports[i],
                decreases count - position,
            {
                entries.push(
                    ImportEntry {
                        module: import_module_name(module, position).to_owned(),
                        field: import_field_name(module, position).to_owned(),
                        kind: import_kind(module, position),
                    },
                );
                position = position + 1;
            }
            Some(entries)
        },
    }
}

/// Copies the export section out of a module.
fn read_exports(module: &Module) -> (section: Option<Vec<ExportEntry>>)
    ensures
        section is None <==> sections_of(*module).exports is None,
        section matches Some(entries) ==> sections_of(*module).exports == Some(
            export_views(entries@),
        ),
{
    match export_count(module) {
        None => None,
        Some(count) => {
            let ghost exports = sections_of(*module).exports.unwrap();
            let mut entries: Vec<ExportEntry> = Vec::new();
            let mut position: usize = 0;
            while position < count
                invariant
                    sections_of(*module).exports == Some(exports),
                    exports.len() == count,
                    position <= count,
                    entries.len() == position,
                    forall|i: int| 0 <= i < position ==> (#[trigger] entries[i])@ == exports[i],
                decreases count - position,
            {
                let (index, kind) = export_target(module, position);
                let field = export_field_name(module, position).to_owned();
                entries.push(ExportEntry { field, kind, index });
                position = position + 1;
            }
            Some(entries)
        },
    }
}

/// Copies out of a module the four sections that the queries read.
pub fn read_sections(module: &Module) -> (sections: ModuleSections)
    ensures
        sections@ == sections_of(*module),
{
    ModuleSections {
        types: read_types(module),
        functions: read_functions(module),
        imports: read_imports(module),
        exports: read_exports(module),
    }
}

/// Resolves a function's signature from its index in the combined function
/// index space.
pub fn func_type_by_index(module: &Module, index: usize) -> (outcome: Result<
    FunctionSignature,
    ResolveError,
>)
    ensures
        outcome_view(outcome) == sections_of(*module).function_type_by_combined_index(
            index as int,
        ),
{
    read_sections(module).function_type_by_combined_index(index)
}

/// Resolves the signature of the function that the import entry at position
/// `index` of the import section binds.
pub fn imported_func_type_by_index(module: &Module, index: usize) -> (outcome: Result<
    FunctionSignature,
    ResolveError,
>)
    ensures
        outcome_view(outcome) == sections_of(*module).imported_function_type(index as int),
{
    read_sections(module).imported_function_type(index)
}

/// Resolves an export name to the index and the kind of the entity that its
/// first entry in the export section refers to.
pub fn resolve_export_by_name(module: &Module, name: &str) -> (found: Option<(u32, EntityKind)>)
    ensures
        found == sections_of(*module).resolve_export_by_name(name@),
{
    read_sections(module).resolve_export_by_name(name)
}

/// Lists the module name and field name of each entry of a module's import
/// section, in order; `None` where the module has no import section.
pub fn get_imports(module: &Module) -> (listed: Option<Vec<(&str, &str)>>)
    ensures
        listed is None <==> sections_of(*module).imports is None,
        listed matches Some(pairs) ==> pairs.len() == sections_of(*module).imports.unwrap().len(),
        listed matches Some(pairs) ==> forall|i: int|
            0 <= i < pairs.len() ==> (#[trigger] pairs[i]).0@ == sections_of(
                *module,
            ).imports.unwrap()[i].module && pairs[i].1@ == sections_of(
                *module,
            ).imports.unwrap()[i].field,
{
    match import_count(module) {
        None => None,
        Some(count) => {
            let ghost imports = sections_of(*module).imports.unwrap();
            let mut pairs: Vec<(&str, &str)> = Vec::new();
            let mut position: usize = 0;
            while position < count
                invariant
                    sections_of(*module).imports == Some(imports),
                    imports.len() == count,
                    position <= count,
                    pairs.len() == position,
                    forall|i: int|
                        0 <= i < position ==> (#[trigger] pairs[i]).0@ == imports[i].module
                            && pairs[i].1@ == imports[i].field,
                decreases count - position,
            {
                pairs.push(
                    (import_module_name(module, position), import_field_name(module, position)),
                );
                position = position + 1;
            }
            Some(pairs)
        },
    }
}

/// Determines whether a module has an import section.
pub fn has_import_section(module: &Module) -> (present: bool)
    ensures
        present == (sections_of(*module).imports is Some),
{
    import_count(module).is_some()
}

/// Determines whether a module has an export section.
pub fn has_export_section(module: &Module) -> (present: bool)
    ensures
        present == (sections_of(*module).exports is Some),
{
    export_count(module).is_some()
}

} // verus!
