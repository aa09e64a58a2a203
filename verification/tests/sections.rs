use wasm_introspect::{
    EntityKind, ExportEntry, FunctionSignature, ImportEntry, ImportKind, ModuleSections,
    ResolveError, TypeEntry, ValueType,
};

fn signature(params: Vec<ValueType>, results: Vec<ValueType>) -> FunctionSignature {
    FunctionSignature { params, results }
}

fn import(module: &str, field: &str, kind: ImportKind) -> ImportEntry {
    ImportEntry { module: module.to_string(), field: field.to_string(), kind }
}

fn export(field: &str, kind: EntityKind, index: u32) -> ExportEntry {
    ExportEntry { field: field.to_string(), kind, index }
}

fn empty() -> ModuleSections {
    ModuleSections { types: None, functions: None, imports: None, exports: None }
}

/// Types: 0 is `(i32, i32) -> ()`, 1 is `(i32) -> ()`, 2 is `() -> (i64)`.
/// Imports: two functions of types 0 and 2, then a memory.
/// Functions: three, of types 1, 2 and 1.
fn sample() -> ModuleSections {
    ModuleSections {
        types: Some(vec![
            TypeEntry::Function(signature(vec![ValueType::I32, ValueType::I32], vec![])),
            TypeEntry::Function(signature(vec![ValueType::I32], vec![])),
            TypeEntry::Function(signature(vec![], vec![ValueType::I64])),
        ]),
        functions: Some(vec![1, 2, 1]),
        imports: Some(vec![
            import("env", "abort", ImportKind::Function(0)),
            import("env", "now", ImportKind::Function(2)),
            import("env", "memory", ImportKind::Memory),
        ]),
        exports: Some(vec![
            export("memory", EntityKind::Memory, 0),
            export("main", EntityKind::Function, 2),
            export("now", EntityKind::Function, 1),
            export("main", EntityKind::Function, 4),
        ]),
    }
}

#[test]
fn imported_then_local_then_out_of_range() {
    let sections = ModuleSections {
        types: Some(vec![
            TypeEntry::Function(signature(vec![ValueType::I32; 4], vec![])),
            TypeEntry::Function(signature(vec![ValueType::I32], vec![])),
        ]),
        functions: Some(vec![1]),
        imports: Some(vec![import("env", "abort", ImportKind::Function(0))]),
        exports: None,
    };
    assert_eq!(
        sections.function_type_by_combined_index(0),
        Ok(signature(vec![ValueType::I32; 4], vec![]))
    );
    assert_eq!(
        sections.function_type_by_combined_index(1),
        Ok(signature(vec![ValueType::I32], vec![]))
    );
    assert_eq!(sections.function_type_by_combined_index(2), Err(ResolveError::IndexOutOfRange));
}

#[test]
fn every_index_of_the_space_resolves_and_no_other() {
    let sections = sample();
    assert_eq!(sections.function_import_count(), 2);
    let expected = [0u32, 2, 1, 2, 1];
    for (index, type_index) in expected.iter().enumerate() {
        assert_eq!(
            sections.function_type_by_combined_index(index),
            sections.resolve_type(*type_index)
        );
        assert!(sections.function_type_by_combined_index(index).is_ok());
    }
    for index in [5usize, 6, 100, usize::MAX] {
        assert_eq!(
            sections.function_type_by_combined_index(index),
            Err(ResolveError::IndexOutOfRange)
        );
    }
}

#[test]
fn local_index_is_the_combined_index_less_the_function_imports() {
    let sections = sample();
    assert_eq!(
        sections.function_type_by_combined_index(2),
        Ok(signature(vec![ValueType::I32], vec![]))
    );
    assert_eq!(
        sections.function_type_by_combined_index(3),
        Ok(signature(vec![], vec![ValueType::I64]))
    );
    assert_eq!(sections.function_type_by_combined_index(3), sections.local_function_type(1));
}

#[test]
fn without_function_imports_combined_index_is_local_index() {
    let mut sections = sample();
    sections.imports = Some(vec![
        import("env", "memory", ImportKind::Memory),
        import("env", "table", ImportKind::Table),
        import("env", "base", ImportKind::Global),
    ]);
    assert_eq!(sections.function_import_count(), 0);
    for index in 0..3usize {
        assert_eq!(
            sections.function_type_by_combined_index(index),
            sections.local_function_type(index)
        );
    }
    assert_eq!(
        sections.function_type_by_combined_index(1),
        Ok(signature(vec![], vec![ValueType::I64]))
    );
    sections.imports = None;
    assert_eq!(sections.function_import_count(), 0);
    assert_eq!(
        sections.function_type_by_combined_index(0),
        Ok(signature(vec![ValueType::I32], vec![]))
    );
    assert_eq!(sections.function_type_by_combined_index(3), Err(ResolveError::IndexOutOfRange));
}

#[test]
fn missing_function_or_type_section_is_reported_first() {
    let mut sections = sample();
    sections.functions = None;
    assert_eq!(sections.function_type_by_combined_index(0), Err(ResolveError::MissingSection));
    assert_eq!(sections.function_type_by_combined_index(99), Err(ResolveError::MissingSection));
    assert_eq!(sections.local_function_type(0), Err(ResolveError::MissingSection));
    let mut sections = sample();
    sections.types = None;
    assert_eq!(sections.function_type_by_combined_index(0), Err(ResolveError::MissingSection));
    assert_eq!(sections.function_type_by_combined_index(99), Err(ResolveError::MissingSection));
    assert_eq!(sections.resolve_type(0), Err(ResolveError::MissingSection));
    assert_eq!(empty().function_type_by_combined_index(0), Err(ResolveError::MissingSection));
}

#[test]
fn import_position_is_read_unchanged() {
    let mut sections = sample();
    sections.imports = Some(vec![
        import("env", "memory", ImportKind::Memory),
        import("env", "abort", ImportKind::Function(0)),
    ]);
    assert_eq!(sections.function_import_count(), 1);
    assert_eq!(
        sections.function_type_by_combined_index(0),
        Err(ResolveError::NotAFunctionImport)
    );
    assert_eq!(
        sections.function_type_by_combined_index(1),
        Ok(signature(vec![ValueType::I32], vec![]))
    );
}

#[test]
fn resolve_type_checks_bounds_and_category() {
    let sections = ModuleSections {
        types: Some(vec![
            TypeEntry::Other,
            TypeEntry::Function(signature(vec![ValueType::F32], vec![ValueType::F64])),
        ]),
        functions: Some(vec![0, 1, 2]),
        imports: None,
        exports: None,
    };
    assert_eq!(sections.resolve_type(0), Err(ResolveError::TypeMismatch));
    assert_eq!(
        sections.resolve_type(1),
        Ok(signature(vec![ValueType::F32], vec![ValueType::F64]))
    );
    assert_eq!(sections.resolve_type(2), Err(ResolveError::IndexOutOfRange));
    assert_eq!(sections.resolve_type(u32::MAX), Err(ResolveError::IndexOutOfRange));
    assert_eq!(sections.function_type_by_combined_index(0), Err(ResolveError::TypeMismatch));
    assert_eq!(
        sections.function_type_by_combined_index(1),
        Ok(signature(vec![ValueType::F32], vec![ValueType::F64]))
    );
    assert_eq!(sections.function_type_by_combined_index(2), Err(ResolveError::IndexOutOfRange));
}

#[test]
fn empty_type_section_has_no_index_in_range() {
    let mut sections = empty();
    sections.types = Some(vec![]);
    assert_eq!(sections.resolve_type(0), Err(ResolveError::IndexOutOfRange));
}

#[test]
fn imported_function_type_reads_the_entry_at_the_position() {
    let sections = sample();
    assert_eq!(
        sections.imported_function_type(0),
        Ok(signature(vec![ValueType::I32, ValueType::I32], vec![]))
    );
    assert_eq!(sections.imported_function_type(1), Ok(signature(vec![], vec![ValueType::I64])));
    assert_eq!(sections.imported_function_type(2), Err(ResolveError::NotAFunctionImport));
    assert_eq!(sections.imported_function_type(3), Err(ResolveError::IndexOutOfRange));
    assert_eq!(empty().imported_function_type(0), Err(ResolveError::IndexOutOfRange));
}

#[test]
fn imported_function_type_follows_the_type_index() {
    let mut sections = sample();
    sections.imports = Some(vec![
        import("env", "far", ImportKind::Function(3)),
        import("env", "table", ImportKind::Table),
        import("env", "base", ImportKind::Global),
    ]);
    assert_eq!(sections.imported_function_type(0), Err(ResolveError::IndexOutOfRange));
    assert_eq!(sections.imported_function_type(1), Err(ResolveError::NotAFunctionImport));
    assert_eq!(sections.imported_function_type(2), Err(ResolveError::NotAFunctionImport));
    sections.types = None;
    assert_eq!(sections.imported_function_type(0), Err(ResolveError::MissingSection));
    assert_eq!(sections.imported_function_type(1), Err(ResolveError::NotAFunctionImport));
}

#[test]
fn local_function_type_checks_bounds() {
    let sections = sample();
    assert_eq!(sections.local_function_type(0), Ok(signature(vec![ValueType::I32], vec![])));
    assert_eq!(sections.local_function_type(2), Ok(signature(vec![ValueType::I32], vec![])));
    assert_eq!(sections.local_function_type(3), Err(ResolveError::IndexOutOfRange));
    let mut sections = sample();
    sections.functions = Some(vec![7]);
    assert_eq!(sections.local_function_type(0), Err(ResolveError::IndexOutOfRange));
}

#[test]
fn function_imports_are_counted_whatever_their_place() {
    let mut sections = empty();
    assert_eq!(sections.function_import_count(), 0);
    sections.imports = Some(vec![]);
    assert_eq!(sections.function_import_count(), 0);
    sections.imports = Some(vec![
        import("a", "m", ImportKind::Memory),
        import("a", "f", ImportKind::Function(0)),
        import("a", "g", ImportKind::Global),
        import("a", "h", ImportKind::Function(5)),
        import("a", "t", ImportKind::Table),
        import("a", "i", ImportKind::Function(1)),
    ]);
    assert_eq!(sections.function_import_count(), 3);
}

#[test]
fn export_found_with_index_and_kind() {
    let mut sections = empty();
    sections.exports = Some(vec![export("main", EntityKind::Function, 1)]);
    assert_eq!(sections.resolve_export_by_name("main"), Some((1, EntityKind::Function)));
    assert_eq!(sections.resolve_export_by_name("missing"), None);
}

#[test]
fn export_absent_without_section_or_without_entry() {
    assert_eq!(empty().resolve_export_by_name("main"), None);
    let mut sections = empty();
    sections.exports = Some(vec![]);
    assert_eq!(sections.resolve_export_by_name("main"), None);
    let sections = sample();
    assert_eq!(sections.resolve_export_by_name("mai"), None);
    assert_eq!(sections.resolve_export_by_name("main "), None);
    assert_eq!(sections.resolve_export_by_name("Main"), None);
    assert_eq!(sections.resolve_export_by_name(""), None);
}

#[test]
fn first_of_two_exports_with_one_name_wins() {
    let sections = sample();
    assert_eq!(sections.resolve_export_by_name("main"), Some((2, EntityKind::Function)));
    let mut sections = empty();
    sections.exports = Some(vec![
        export("x", EntityKind::Global, 9),
        export("x", EntityKind::Function, 0),
        export("x", EntityKind::Table, 3),
    ]);
    assert_eq!(sections.resolve_export_by_name("x"), Some((9, EntityKind::Global)));
}

#[test]
fn export_of_any_kind_is_returned_unchanged() {
    let mut sections = empty();
    sections.exports = Some(vec![
        export("f", EntityKind::Function, 10),
        export("t", EntityKind::Table, 11),
        export("m", EntityKind::Memory, 12),
        export("g", EntityKind::Global, u32::MAX),
        export("", EntityKind::Memory, 13),
    ]);
    assert_eq!(sections.resolve_export_by_name("f"), Some((10, EntityKind::Function)));
    assert_eq!(sections.resolve_export_by_name("t"), Some((11, EntityKind::Table)));
    assert_eq!(sections.resolve_export_by_name("m"), Some((12, EntityKind::Memory)));
    assert_eq!(sections.resolve_export_by_name("g"), Some((u32::MAX, EntityKind::Global)));
    assert_eq!(sections.resolve_export_by_name(""), Some((13, EntityKind::Memory)));
}

#[test]
fn exported_function_resolves_to_the_entry_at_its_index() {
    let sections = sample();
    let (index, kind) = sections.resolve_export_by_name("now").unwrap();
    assert_eq!(kind, EntityKind::Function);
    assert_eq!(
        sections.function_type_by_combined_index(index as usize),
        sections.imported_function_type(1)
    );
    assert_eq!(
        sections.function_type_by_combined_index(index as usize),
        Ok(signature(vec![], vec![ValueType::I64]))
    );
    let (index, kind) = sections.resolve_export_by_name("main").unwrap();
    assert_eq!(kind, EntityKind::Function);
    assert_eq!(
        sections.function_type_by_combined_index(index as usize),
        sections.local_function_type(0)
    );
    assert_eq!(
        sections.function_type_by_combined_index(index as usize),
        Ok(signature(vec![ValueType::I32], vec![]))
    );
}

#[test]
fn imports_listed_in_order_whatever_they_bind() {
    let sections = sample();
    assert_eq!(
        sections.list_imports(),
        Some(vec![("env", "abort"), ("env", "now"), ("env", "memory")])
    );
    assert!(sections.has_import_section());
}

#[test]
fn no_import_section_lists_nothing_and_empty_section_lists_none() {
    let mut sections = empty();
    assert_eq!(sections.list_imports(), None);
    assert!(!sections.has_import_section());
    sections.imports = Some(vec![]);
    assert_eq!(sections.list_imports(), Some(vec![]));
    assert!(sections.has_import_section());
}

#[test]
fn export_section_presence() {
    let mut sections = empty();
    assert!(!sections.has_export_section());
    sections.exports = Some(vec![]);
    assert!(sections.has_export_section());
    assert!(!sections.has_import_section());
}
