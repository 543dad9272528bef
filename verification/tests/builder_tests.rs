use component_builder::builder::ComponentBuilder;
use component_builder::kinds::{
    CanonOpt, ComponentItemKind, CoreExportKind, DefinedType, InstantiationArg, PrimitiveType,
    TypeRef, ValueType, supports_core_alias_kind, supports_export_kind, supports_import_ref,
};

// A minimal, already-encoded core module: just the wasm header.
const EMPTY_MODULE: [u8; 8] = [0x00, 0x61, 0x73, 0x6d, 0x01, 0x00, 0x00, 0x00];

#[test]
fn empty_builder_yields_bare_header() {
    let b = ComponentBuilder::new();
    let bytes = b.finish();
    let expected = wasm_encoder::Component::new().finish();
    assert_eq!(bytes, expected);
}

#[test]
fn default_equals_new() {
    let a: ComponentBuilder = Default::default();
    let b = ComponentBuilder::new();
    assert_eq!(a.finish(), b.finish());
}

#[test]
fn import_import_export_scenario() {
    // Two function imports coalesce into one import section; the export that
    // follows seals it and opens an export section, sealed by finish: exactly
    // two content sections.
    let mut b = ComponentBuilder::new();
    assert_eq!(b.import("a", TypeRef::Func(0)), 0);
    assert_eq!(b.import("b", TypeRef::Func(0)), 1);
    assert_eq!(b.func_count(), 2);
    assert_eq!(b.export("t", ComponentItemKind::Type, 0, None), 0);
    let bytes = b.finish();

    let mut imports = wasm_encoder::ComponentImportSection::new();
    imports.import("a", wasm_encoder::ComponentTypeRef::Func(0));
    imports.import("b", wasm_encoder::ComponentTypeRef::Func(0));
    let mut exports = wasm_encoder::ComponentExportSection::new();
    exports.export("t", wasm_encoder::ComponentExportKind::Type, 0, None);
    let mut c = wasm_encoder::Component::new();
    c.section(&imports);
    c.section(&exports);
    assert_eq!(bytes, c.finish());
}

#[test]
fn trace_is_deterministic() {
    let build = || {
        let mut b = ComponentBuilder::new();
        b.core_module_raw(&EMPTY_MODULE);
        b.instantiate(0, vec![]);
        b.alias_core_item(0, CoreExportKind::Memory, "mem");
        b.alias_core_item(0, CoreExportKind::Func, "run");
        b.lift_func(0, 0, vec![CanonOpt::UTF8, CanonOpt::Memory(0)]);
        b.export("run", ComponentItemKind::Func, 0, None);
        b.finish()
    };
    assert_eq!(build(), build());
}

#[test]
fn indices_are_zero_based_and_independent() {
    let mut b = ComponentBuilder::new();
    assert_eq!(b.alias_func(0, "f"), 0);
    assert_eq!(b.lower_func(0, vec![]), 0);
    assert_eq!(b.lower_func(0, vec![]), 1);
    assert_eq!(b.lift_func(0, 0, vec![]), 1);
    assert_eq!(b.alias_core_item(0, CoreExportKind::Table, "t"), 0);
    assert_eq!(b.alias_core_item(0, CoreExportKind::Memory, "m"), 0);
    assert_eq!(b.alias_core_item(0, CoreExportKind::Func, "g"), 2);
    assert_eq!(b.func_count(), 2);
    assert_eq!(b.core_func_count(), 3);
    assert_eq!(b.core_table_count(), 1);
    assert_eq!(b.core_memory_count(), 1);
    assert_eq!(b.core_module_count(), 0);
    assert_eq!(b.type_count(), 0);
    let _ = b.finish();
}

#[test]
fn consecutive_same_kind_registrations_coalesce() {
    let mut b = ComponentBuilder::new();
    assert_eq!(b.lower_func(0, vec![]), 0);
    assert_eq!(b.lower_func(1, vec![CanonOpt::Memory(0)]), 1);
    assert_eq!(b.lift_func(2, 3, vec![CanonOpt::UTF8]), 0);
    let bytes = b.finish();

    let mut canon = wasm_encoder::CanonicalFunctionSection::new();
    canon.lower(0, Vec::<wasm_encoder::CanonicalOption>::new());
    canon.lower(1, vec![wasm_encoder::CanonicalOption::Memory(0)]);
    canon.lift(2, 3, vec![wasm_encoder::CanonicalOption::UTF8]);
    let mut c = wasm_encoder::Component::new();
    c.section(&canon);
    assert_eq!(bytes, c.finish());
}

#[test]
fn kind_transition_splits_sections() {
    // alias, import, alias: two alias sections around one import section,
    // never one merged alias section.
    let mut b = ComponentBuilder::new();
    assert_eq!(b.alias_func(0, "f"), 0);
    assert_eq!(b.import("i", TypeRef::Instance(0)), 0);
    assert_eq!(b.alias_func(1, "g"), 1);
    let bytes = b.finish();

    let mut aliases1 = wasm_encoder::ComponentAliasSection::new();
    aliases1.alias(wasm_encoder::Alias::InstanceExport {
        instance: 0,
        kind: wasm_encoder::ComponentExportKind::Func,
        name: "f",
    });
    let mut imports = wasm_encoder::ComponentImportSection::new();
    imports.import("i", wasm_encoder::ComponentTypeRef::Instance(0));
    let mut aliases2 = wasm_encoder::ComponentAliasSection::new();
    aliases2.alias(wasm_encoder::Alias::InstanceExport {
        instance: 1,
        kind: wasm_encoder::ComponentExportKind::Func,
        name: "g",
    });
    let mut c = wasm_encoder::Component::new();
    c.section(&aliases1);
    c.section(&imports);
    c.section(&aliases2);
    assert_eq!(bytes, c.finish());
}

#[test]
fn submodules_never_merge() {
    let mut b = ComponentBuilder::new();
    assert_eq!(b.core_module_raw(&EMPTY_MODULE), 0);
    assert_eq!(b.core_module_raw(&EMPTY_MODULE), 1);
    assert_eq!(b.core_module_count(), 2);
    let bytes = b.finish();

    let mut c = wasm_encoder::Component::new();
    let raw = wasm_encoder::RawSection {
        id: wasm_encoder::ComponentSectionId::CoreModule.into(),
        data: &EMPTY_MODULE,
    };
    c.section(&raw);
    c.section(&raw);
    assert_eq!(bytes, c.finish());
}

#[test]
fn structured_module_matches_raw_encoding() {
    let module = wasm_encoder::Module::new();
    let mut b = ComponentBuilder::new();
    assert_eq!(b.core_module(&module), 0);
    let bytes = b.finish();

    let mut c = wasm_encoder::Component::new();
    c.section(&wasm_encoder::ModuleSection(&module));
    assert_eq!(bytes, c.finish());
}

#[test]
fn finish_flushes_open_section() {
    // The import section is still open when finish is called; it must be
    // sealed into the output, not dropped.
    let mut b = ComponentBuilder::new();
    assert_eq!(b.import("only", TypeRef::Func(7)), 0);
    let bytes = b.finish();

    let mut imports = wasm_encoder::ComponentImportSection::new();
    imports.import("only", wasm_encoder::ComponentTypeRef::Func(7));
    let mut c = wasm_encoder::Component::new();
    c.section(&imports);
    assert_eq!(bytes, c.finish());
    assert!(bytes.len() > wasm_encoder::Component::new().finish().len());
}

#[test]
fn explicit_flush_splits_sections() {
    let mut b = ComponentBuilder::new();
    b.alias_func(0, "f");
    b.flush();
    b.alias_func(1, "g");
    let bytes = b.finish();

    let mut aliases1 = wasm_encoder::ComponentAliasSection::new();
    aliases1.alias(wasm_encoder::Alias::InstanceExport {
        instance: 0,
        kind: wasm_encoder::ComponentExportKind::Func,
        name: "f",
    });
    let mut aliases2 = wasm_encoder::ComponentAliasSection::new();
    aliases2.alias(wasm_encoder::Alias::InstanceExport {
        instance: 1,
        kind: wasm_encoder::ComponentExportKind::Func,
        name: "g",
    });
    let mut c = wasm_encoder::Component::new();
    c.section(&aliases1);
    c.section(&aliases2);
    assert_eq!(bytes, c.finish());
}

#[test]
fn unsupported_kinds_are_rejected_up_front() {
    assert!(supports_core_alias_kind(CoreExportKind::Func));
    assert!(supports_core_alias_kind(CoreExportKind::Table));
    assert!(supports_core_alias_kind(CoreExportKind::Memory));
    assert!(!supports_core_alias_kind(CoreExportKind::Global));
    assert!(!supports_core_alias_kind(CoreExportKind::Tag));

    assert!(supports_export_kind(ComponentItemKind::Type));
    assert!(supports_export_kind(ComponentItemKind::Func));
    assert!(supports_export_kind(ComponentItemKind::Module));
    assert!(supports_export_kind(ComponentItemKind::Instance));
    assert!(!supports_export_kind(ComponentItemKind::Value));
    assert!(!supports_export_kind(ComponentItemKind::Component));

    assert!(supports_import_ref(&TypeRef::Instance(0)));
    assert!(supports_import_ref(&TypeRef::Func(0)));
    assert!(!supports_import_ref(&TypeRef::Module(0)));
    assert!(!supports_import_ref(&TypeRef::Component(0)));
    assert!(!supports_import_ref(&TypeRef::Value(ValueType::Primitive(PrimitiveType::Bool))));
}

#[test]
fn instantiate_with_arguments() {
    let mut b = ComponentBuilder::new();
    b.core_module_raw(&EMPTY_MODULE);
    assert_eq!(b.instantiate(0, vec![("mem".to_string(), InstantiationArg::Instance(3))]), 0);
    assert_eq!(b.core_instance_count(), 1);
    let bytes = b.finish();

    let mut c = wasm_encoder::Component::new();
    c.section(&wasm_encoder::RawSection {
        id: wasm_encoder::ComponentSectionId::CoreModule.into(),
        data: &EMPTY_MODULE,
    });
    let mut instances = wasm_encoder::InstanceSection::new();
    instances.instantiate(0, [("mem", wasm_encoder::ModuleArg::Instance(3))]);
    c.section(&instances);
    assert_eq!(bytes, c.finish());
}

#[test]
fn instances_from_export_lists() {
    let mut b = ComponentBuilder::new();
    assert_eq!(
        b.instantiate_core_exports(vec![("f".to_string(), CoreExportKind::Func, 4)]),
        0,
    );
    assert_eq!(
        b.instantiate_exports(vec![("g".to_string(), ComponentItemKind::Instance, 2)]),
        0,
    );
    assert_eq!(b.core_instance_count(), 1);
    assert_eq!(b.instance_count(), 1);
    let bytes = b.finish();

    let mut core_instances = wasm_encoder::InstanceSection::new();
    core_instances.export_items([("f", wasm_encoder::ExportKind::Func, 4)]);
    let mut instances = wasm_encoder::ComponentInstanceSection::new();
    instances.export_items([("g", wasm_encoder::ComponentExportKind::Instance, 2)]);
    let mut c = wasm_encoder::Component::new();
    c.section(&core_instances);
    c.section(&instances);
    assert_eq!(bytes, c.finish());
}

#[test]
fn export_with_declared_type() {
    let mut b = ComponentBuilder::new();
    assert_eq!(b.export("f", ComponentItemKind::Func, 5, Some(TypeRef::Func(2))), 0);
    assert_eq!(b.export("m", ComponentItemKind::Module, 1, None), 0);
    assert_eq!(b.func_count(), 1);
    assert_eq!(b.core_module_count(), 1);
    let bytes = b.finish();

    let mut exports = wasm_encoder::ComponentExportSection::new();
    exports.export(
        "f",
        wasm_encoder::ComponentExportKind::Func,
        5,
        Some(wasm_encoder::ComponentTypeRef::Func(2)),
    );
    exports.export("m", wasm_encoder::ComponentExportKind::Module, 1, None);
    let mut c = wasm_encoder::Component::new();
    c.section(&exports);
    assert_eq!(bytes, c.finish());
}

#[test]
fn type_registrations_share_one_section() {
    let mut instance_ty = wasm_encoder::InstanceType::new();
    instance_ty.export("f", wasm_encoder::ComponentTypeRef::Func(0));
    let mut b = ComponentBuilder::new();
    assert_eq!(b.instance_type(&instance_ty), 0);
    assert_eq!(
        b.function_type(
            vec![("x".to_string(), ValueType::Primitive(PrimitiveType::U32))],
            Some(ValueType::Primitive(PrimitiveType::String)),
        ),
        1,
    );
    assert_eq!(b.type_count(), 2);
    let bytes = b.finish();

    let mut types = wasm_encoder::ComponentTypeSection::new();
    let mut expected_ty = wasm_encoder::InstanceType::new();
    expected_ty.export("f", wasm_encoder::ComponentTypeRef::Func(0));
    types.instance(&expected_ty);
    types.function().params([(
        "x",
        wasm_encoder::ComponentValType::Primitive(wasm_encoder::PrimitiveValType::U32),
    )]).result(Some(wasm_encoder::ComponentValType::Primitive(
        wasm_encoder::PrimitiveValType::String,
    )));
    let mut c = wasm_encoder::Component::new();
    c.section(&types);
    assert_eq!(bytes, c.finish());
}

#[test]
fn type_aliases_advance_the_type_space() {
    let mut b = ComponentBuilder::new();
    assert_eq!(b.alias_type_export(2, "t"), 0);
    assert_eq!(b.alias_outer_type(1, 4), 1);
    assert_eq!(b.type_count(), 2);
    let bytes = b.finish();

    let mut aliases = wasm_encoder::ComponentAliasSection::new();
    aliases.alias(wasm_encoder::Alias::InstanceExport {
        instance: 2,
        kind: wasm_encoder::ComponentExportKind::Type,
        name: "t",
    });
    aliases.alias(wasm_encoder::Alias::Outer {
        count: 1,
        kind: wasm_encoder::ComponentOuterAliasKind::Type,
        index: 4,
    });
    let mut c = wasm_encoder::Component::new();
    c.section(&aliases);
    assert_eq!(bytes, c.finish());
}

#[test]
fn core_aliases_by_kind() {
    let mut b = ComponentBuilder::new();
    assert_eq!(b.alias_core_item(0, CoreExportKind::Func, "f"), 0);
    assert_eq!(b.alias_core_item(0, CoreExportKind::Memory, "m"), 0);
    assert_eq!(b.alias_core_item(1, CoreExportKind::Table, "t"), 0);
    let bytes = b.finish();

    let mut aliases = wasm_encoder::ComponentAliasSection::new();
    aliases.alias(wasm_encoder::Alias::CoreInstanceExport {
        instance: 0,
        kind: wasm_encoder::ExportKind::Func,
        name: "f",
    });
    aliases.alias(wasm_encoder::Alias::CoreInstanceExport {
        instance: 0,
        kind: wasm_encoder::ExportKind::Memory,
        name: "m",
    });
    aliases.alias(wasm_encoder::Alias::CoreInstanceExport {
        instance: 1,
        kind: wasm_encoder::ExportKind::Table,
        name: "t",
    });
    let mut c = wasm_encoder::Component::new();
    c.section(&aliases);
    assert_eq!(bytes, c.finish());
}

#[test]
fn module_seals_open_section_first() {
    let mut b = ComponentBuilder::new();
    b.lower_func(0, vec![]);
    b.core_module_raw(&EMPTY_MODULE);
    b.lower_func(1, vec![]);
    let bytes = b.finish();

    let mut canon1 = wasm_encoder::CanonicalFunctionSection::new();
    canon1.lower(0, Vec::<wasm_encoder::CanonicalOption>::new());
    let mut canon2 = wasm_encoder::CanonicalFunctionSection::new();
    canon2.lower(1, Vec::<wasm_encoder::CanonicalOption>::new());
    let mut c = wasm_encoder::Component::new();
    c.section(&canon1);
    c.section(&wasm_encoder::RawSection {
        id: wasm_encoder::ComponentSectionId::CoreModule.into(),
        data: &EMPTY_MODULE,
    });
    c.section(&canon2);
    assert_eq!(bytes, c.finish());
}

#[test]
fn defined_types_batch_into_the_type_section() {
    let mut b = ComponentBuilder::new();
    assert_eq!(b.defined_type(DefinedType::Primitive(PrimitiveType::Bool)), 0);
    assert_eq!(
        b.defined_type(DefinedType::Record(vec![(
            "a".to_string(),
            ValueType::Primitive(PrimitiveType::U8),
        )])),
        1,
    );
    assert_eq!(
        b.defined_type(DefinedType::Variant(vec![
            ("none".to_string(), None),
            ("some".to_string(), Some(ValueType::Type(1))),
        ])),
        2,
    );
    assert_eq!(
        b.defined_type(DefinedType::Tuple(vec![ValueType::Primitive(PrimitiveType::S64)])),
        3,
    );
    assert_eq!(b.defined_type(DefinedType::Flags(vec!["f".to_string()])), 4);
    assert_eq!(b.defined_type(DefinedType::Enum(vec!["e".to_string()])), 5);
    assert_eq!(b.defined_type(DefinedType::OptionOf(ValueType::Type(0))), 6);
    assert_eq!(
        b.defined_type(DefinedType::ResultOf(
            Some(ValueType::Primitive(PrimitiveType::U32)),
            None,
        )),
        7,
    );
    assert_eq!(b.defined_type(DefinedType::List(ValueType::Primitive(PrimitiveType::Char))), 8);
    assert_eq!(b.defined_type(DefinedType::Own(3)), 9);
    assert_eq!(b.defined_type(DefinedType::Borrow(3)), 10);
    assert_eq!(b.type_count(), 11);
    let bytes = b.finish();

    let mut types = wasm_encoder::ComponentTypeSection::new();
    types.defined_type().primitive(wasm_encoder::PrimitiveValType::Bool);
    types.defined_type().record([(
        "a",
        wasm_encoder::ComponentValType::Primitive(wasm_encoder::PrimitiveValType::U8),
    )]);
    types.defined_type().variant([
        ("none", None),
        ("some", Some(wasm_encoder::ComponentValType::Type(1))),
    ]);
    types.defined_type().tuple([wasm_encoder::ComponentValType::Primitive(
        wasm_encoder::PrimitiveValType::S64,
    )]);
    types.defined_type().flags(["f"]);
    types.defined_type().enum_type(["e"]);
    types.defined_type().option(wasm_encoder::ComponentValType::Type(0));
    types.defined_type().result(
        Some(wasm_encoder::ComponentValType::Primitive(wasm_encoder::PrimitiveValType::U32)),
        None,
    );
    types.defined_type().list(wasm_encoder::ComponentValType::Primitive(
        wasm_encoder::PrimitiveValType::Char,
    ));
    types.defined_type().own(3);
    types.defined_type().borrow(3);
    let mut c = wasm_encoder::Component::new();
    c.section(&types);
    assert_eq!(bytes, c.finish());
}
