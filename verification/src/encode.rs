//! The trusted boundary to `wasm_encoder`.
//!
//! The builder's logic never reads the bytes a section encoder accumulates;
//! it only needs to know *which* entries, in *which* order, each encoder and
//! the output component hold. Those contents are given names
//! (`component_sections`, `alias_entries`, ...), and each wrapper around an
//! encoder method states how the call changes them, exactly as the crate's
//! source shows. Everything else in the crate is verified against these
//! contracts.
//!
//! The encoder writes every length through a 32-bit field and aborts past
//! `u32::MAX` (its `usize` encoding asserts the bound). Each wrapper's
//! `requires` therefore keeps what the call encodes — names, item lists, a
//! module's bytes, a sealed section's accumulated payload and entry count —
//! within that bound, so a wrapper admitted by its contract returns
//! normally.

use vstd::prelude::*;
use crate::kinds::{
    CanonOpt, ComponentItemKind, CoreExportKind, InstantiationArg, PrimitiveType, TypeBound,
    TypeRef, ValueType,
};
use crate::model::{
    AliasEntry, CanonEntry, CoreInstanceEntry, DefinedTypeSpec, EntrySpec, ExportEntry,
    ImportEntry, InstanceEntry, SectionKind, SectionSpec, TypeEntry, component_exports_view,
    core_exports_view, entries_size, entry_size, module_args_view, names_view, params_view,
    variant_cases_view,
};

verus! {

#[verifier::external_type_specification]
#[verifier::external_body]
pub struct ExComponent(wasm_encoder::Component);

#[verifier::external_type_specification]
#[verifier::external_body]
pub struct ExModule(wasm_encoder::Module);

#[verifier::external_type_specification]
#[verifier::external_body]
pub struct ExInstanceSection(wasm_encoder::InstanceSection);

#[verifier::external_type_specification]
#[verifier::external_body]
pub struct ExComponentInstanceSection(wasm_encoder::ComponentInstanceSection);

#[verifier::external_type_specification]
#[verifier::external_body]
pub struct ExCanonicalFunctionSection(wasm_encoder::CanonicalFunctionSection);

#[verifier::external_type_specification]
#[verifier::external_body]
pub struct ExComponentAliasSection(wasm_encoder::ComponentAliasSection);

#[verifier::external_type_specification]
#[verifier::external_body]
pub struct ExComponentExportSection(wasm_encoder::ComponentExportSection);

#[verifier::external_type_specification]
#[verifier::external_body]
pub struct ExComponentImportSection(wasm_encoder::ComponentImportSection);

#[verifier::external_type_specification]
#[verifier::external_body]
pub struct ExComponentTypeSection(wasm_encoder::ComponentTypeSection);

#[verifier::external_type_specification]
#[verifier::external_body]
pub struct ExInstanceType(wasm_encoder::InstanceType);

#[verifier::external_type_specification]
#[verifier::external_body]
pub struct ExModuleArg(wasm_encoder::ModuleArg);

#[verifier::external_type_specification]
#[verifier::external_body]
pub struct ExExportKind(wasm_encoder::ExportKind);

#[verifier::external_type_specification]
#[verifier::external_body]
pub struct ExComponentExportKind(wasm_encoder::ComponentExportKind);

#[verifier::external_type_specification]
#[verifier::external_body]
pub struct ExCanonicalOption(wasm_encoder::CanonicalOption);

#[verifier::external_type_specification]
#[verifier::external_body]
pub struct ExPrimitiveValType(wasm_encoder::PrimitiveValType);

#[verifier::external_type_specification]
#[verifier::external_body]
pub struct ExComponentValType(wasm_encoder::ComponentValType);

#[verifier::external_type_specification]
#[verifier::external_body]
pub struct ExTypeBounds(wasm_encoder::TypeBounds);

#[verifier::external_type_specification]
#[verifier::external_body]
pub struct ExComponentTypeRef(wasm_encoder::ComponentTypeRef);

/// The sections a component under construction holds, oldest first.
pub uninterp spec fn component_sections(c: wasm_encoder::Component) -> Seq<SectionSpec>;

/// The bytes an encoded core module holds.
pub uninterp spec fn module_repr(m: wasm_encoder::Module) -> Seq<u8>;

/// The bytes an encoded instance type holds.
pub uninterp spec fn instance_type_repr(t: wasm_encoder::InstanceType) -> Seq<u8>;

/// The entries a core-instance section encoder holds.
pub uninterp spec fn core_instance_entries(s: wasm_encoder::InstanceSection) -> Seq<EntrySpec>;

/// The entries a component-instance section encoder holds.
pub uninterp spec fn instance_entries(s: wasm_encoder::ComponentInstanceSection) -> Seq<EntrySpec>;

/// The entries a canonical-function section encoder holds.
pub uninterp spec fn canon_entries(s: wasm_encoder::CanonicalFunctionSection) -> Seq<EntrySpec>;

/// The entries an alias section encoder holds.
pub uninterp spec fn alias_entries(s: wasm_encoder::ComponentAliasSection) -> Seq<EntrySpec>;

/// The entries an export section encoder holds.
pub uninterp spec fn export_entries(s: wasm_encoder::ComponentExportSection) -> Seq<EntrySpec>;

/// The entries an import section encoder holds.
pub uninterp spec fn import_entries(s: wasm_encoder::ComponentImportSection) -> Seq<EntrySpec>;

/// The entries a type section encoder holds.
pub uninterp spec fn type_entries(s: wasm_encoder::ComponentTypeSection) -> Seq<EntrySpec>;

/// The bytes `Component::finish` returns for a component holding the given
/// sections: header plus each section's deterministic encoding, in order.
pub uninterp spec fn encoded_component(sections: Seq<SectionSpec>) -> Seq<u8>;

/// Converts the library's module-argument mirror one-for-one.
#[verifier::external_body]
fn conv_module_arg(a: InstantiationArg) -> wasm_encoder::ModuleArg {
    match a {
        InstantiationArg::Instance(i) => wasm_encoder::ModuleArg::Instance(i),
    }
}

/// Converts the library's core-export-kind mirror one-for-one.
#[verifier::external_body]
fn conv_core_export_kind(k: CoreExportKind) -> wasm_encoder::ExportKind {
    match k {
        CoreExportKind::Func => wasm_encoder::ExportKind::Func,
        CoreExportKind::Table => wasm_encoder::ExportKind::Table,
        CoreExportKind::Memory => wasm_encoder::ExportKind::Memory,
        CoreExportKind::Global => wasm_encoder::ExportKind::Global,
        CoreExportKind::Tag => wasm_encoder::ExportKind::Tag,
    }
}

/// Converts the library's component-export-kind mirror one-for-one.
#[verifier::external_body]
fn conv_component_export_kind(k: ComponentItemKind) -> wasm_encoder::ComponentExportKind {
    match k {
        ComponentItemKind::Module => wasm_encoder::ComponentExportKind::Module,
        ComponentItemKind::Func => wasm_encoder::ComponentExportKind::Func,
        ComponentItemKind::Value => wasm_encoder::ComponentExportKind::Value,
        ComponentItemKind::Type => wasm_encoder::ComponentExportKind::Type,
        ComponentItemKind::Instance => wasm_encoder::ComponentExportKind::Instance,
        ComponentItemKind::Component => wasm_encoder::ComponentExportKind::Component,
    }
}

/// Converts the library's canonical-option mirror one-for-one.
#[verifier::external_body]
fn conv_canonical_option(o: CanonOpt) -> wasm_encoder::CanonicalOption {
    match o {
        CanonOpt::UTF8 => wasm_encoder::CanonicalOption::UTF8,
        CanonOpt::UTF16 => wasm_encoder::CanonicalOption::UTF16,
        CanonOpt::CompactUTF16 => wasm_encoder::CanonicalOption::CompactUTF16,
        CanonOpt::Memory(i) => wasm_encoder::CanonicalOption::Memory(i),
        CanonOpt::Realloc(i) => wasm_encoder::CanonicalOption::Realloc(i),
        CanonOpt::PostReturn(i) => wasm_encoder::CanonicalOption::PostReturn(i),
        CanonOpt::Async => wasm_encoder::CanonicalOption::Async,
        CanonOpt::Callback(i) => wasm_encoder::CanonicalOption::Callback(i),
        CanonOpt::CoreType(i) => wasm_encoder::CanonicalOption::CoreType(i),
        CanonOpt::Gc => wasm_encoder::CanonicalOption::Gc,
    }
}

/// Converts the library's primitive-value-type mirror one-for-one.
#[verifier::external_body]
fn conv_prim_val_type(p: PrimitiveType) -> wasm_encoder::PrimitiveValType {
    match p {
        PrimitiveType::Bool => wasm_encoder::PrimitiveValType::Bool,
        PrimitiveType::S8 => wasm_encoder::PrimitiveValType::S8,
        PrimitiveType::U8 => wasm_encoder::PrimitiveValType::U8,
        PrimitiveType::S16 => wasm_encoder::PrimitiveValType::S16,
        PrimitiveType::U16 => wasm_encoder::PrimitiveValType::U16,
        PrimitiveType::S32 => wasm_encoder::PrimitiveValType::S32, PrimitiveType::U32 => wasm_encoder::PrimitiveValType::U32,
        PrimitiveType::S64 => wasm_encoder::PrimitiveValType::S64,
        PrimitiveType::U64 => wasm_encoder::PrimitiveValType::U64,
        PrimitiveType::F32 => wasm_encoder::PrimitiveValType::F32,
        PrimitiveType::F64 => wasm_encoder::PrimitiveValType::F64,
        PrimitiveType::Char => wasm_encoder::PrimitiveValType::Char,
        PrimitiveType::String => wasm_encoder::PrimitiveValType::String,
        PrimitiveType::ErrorContext => wasm_encoder::PrimitiveValType::ErrorContext,
    }
}

/// Converts the library's value-type mirror one-for-one.
#[verifier::external_body]
fn conv_val_type(v: ValueType) -> wasm_encoder::ComponentValType {
    match v {
        ValueType::Primitive(p) => {
            wasm_encoder::ComponentValType::Primitive(conv_prim_val_type(p))
        },
        ValueType::Type(i) => wasm_encoder::ComponentValType::Type(i),
    }
}

/// Converts the library's type-bounds mirror one-for-one.
#[verifier::external_body]
fn conv_type_bounds(b: TypeBound) -> wasm_encoder::TypeBounds {
    match b {
        TypeBound::Eq(i) => wasm_encoder::TypeBounds::Eq(i),
        TypeBound::SubResource => wasm_encoder::TypeBounds::SubResource,
    }
}

/// Converts the library's type-reference mirror one-for-one.
#[verifier::external_body]
fn conv_type_ref(t: TypeRef) -> wasm_encoder::ComponentTypeRef {
    match t {
        TypeRef::Module(i) => wasm_encoder::ComponentTypeRef::Module(i),
        TypeRef::Func(i) => wasm_encoder::ComponentTypeRef::Func(i),
        TypeRef::Value(v) => wasm_encoder::ComponentTypeRef::Value(conv_val_type(v)),
        TypeRef::Type(b) => wasm_encoder::ComponentTypeRef::Type(conv_type_bounds(b)),
        TypeRef::Instance(i) => wasm_encoder::ComponentTypeRef::Instance(i),
        TypeRef::Component(i) => wasm_encoder::ComponentTypeRef::Component(i),
    }
}

/// Relies on `Component::new`: a fresh component holds no sections.
#[verifier::external_body]
pub(crate) fn component_new() -> (c: wasm_encoder::Component)
    ensures
        component_sections(c) == Seq::<SectionSpec>::empty(),
{
    wasm_encoder::Component::new()
}

/// Relies on `Component::finish`: returns the accumulated bytes, a
/// function of the sections appended, in order.
#[verifier::external_body]
pub(crate) fn component_finish(c: wasm_encoder::Component) -> (r: Vec<u8>)
    ensures
        r@ == encoded_component(component_sections(c)),
{
    c.finish()
}

/// Relies on `InstanceSection::new`: a fresh section holds no entries.
#[verifier::external_body]
pub(crate) fn instance_section_new() -> (s: wasm_encoder::InstanceSection)
    ensures
        core_instance_entries(s) == Seq::<EntrySpec>::empty(),
{
    wasm_encoder::InstanceSection::new()
}

/// Relies on `ComponentInstanceSection::new`: a fresh section holds no entries.
#[verifier::external_body]
pub(crate) fn component_instance_section_new() -> (s: wasm_encoder::ComponentInstanceSection)
    ensures
        instance_entries(s) == Seq::<EntrySpec>::empty(),
{
    wasm_encoder::ComponentInstanceSection::new()
}

/// Relies on `CanonicalFunctionSection::new`: a fresh section holds no entries.
#[verifier::external_body]
pub(crate) fn canon_section_new() -> (s: wasm_encoder::CanonicalFunctionSection)
    ensures
        canon_entries(s) == Seq::<EntrySpec>::empty(),
{
    wasm_encoder::CanonicalFunctionSection::new()
}

/// Relies on `ComponentAliasSection::new`: a fresh section holds no entries.
#[verifier::external_body]
pub(crate) fn alias_section_new() -> (s: wasm_encoder::ComponentAliasSection)
    ensures
        alias_entries(s) == Seq::<EntrySpec>::empty(),
{
    wasm_encoder::ComponentAliasSection::new()
}

/// Relies on `ComponentExportSection::new`: a fresh section holds no entries.
#[verifier::external_body]
pub(crate) fn export_section_new() -> (s: wasm_encoder::ComponentExportSection)
    ensures
        export_entries(s) == Seq::<EntrySpec>::empty(),
{
    wasm_encoder::ComponentExportSection::new()
}

/// Relies on `ComponentImportSection::new`: a fresh section holds no entries.
#[verifier::external_body]
pub(crate) fn import_section_new() -> (s: wasm_encoder::ComponentImportSection)
    ensures
        import_entries(s) == Seq::<EntrySpec>::empty(),
{
    wasm_encoder::ComponentImportSection::new()
}

/// Relies on `ComponentTypeSection::new`: a fresh section holds no entries.
#[verifier::external_body]
pub(crate) fn type_section_new() -> (s: wasm_encoder::ComponentTypeSection)
    ensures
        type_entries(s) == Seq::<EntrySpec>::empty(),
{
    wasm_encoder::ComponentTypeSection::new()
}

/// Relies on `InstanceSection::instantiate`: appends exactly one
/// instantiation entry with the given module index and named arguments.
#[verifier::external_body]
pub(crate) fn instance_section_instantiate(
    s: &mut wasm_encoder::InstanceSection,
    module_index: u32,
    args: &Vec<(String, InstantiationArg)>,
)
    requires
        entry_size(
            EntrySpec::CoreInstance(CoreInstanceEntry::Instantiate {
                module_index,
                args: module_args_view(args@),
            }),
        ) <= u32::MAX,
        core_instance_entries(*old(s)).len() < u32::MAX,
    ensures
        core_instance_entries(*final(s)) == core_instance_entries(*old(s)).push(
            EntrySpec::CoreInstance(CoreInstanceEntry::Instantiate {
                module_index,
                args: module_args_view(args@),
            }),
        ),
{
    s.instantiate(module_index, args.iter().map(|p| (p.0.as_str(), conv_module_arg(p.1))));
}

/// Relies on `InstanceSection::export_items`: appends exactly one
/// from-exports entry with the given items in order.
#[verifier::external_body]
pub(crate) fn instance_section_export_items(
    s: &mut wasm_encoder::InstanceSection,
    exports: &Vec<(String, CoreExportKind, u32)>,
)
    requires
        entry_size(
            EntrySpec::CoreInstance(CoreInstanceEntry::FromExports {
                exports: core_exports_view(exports@),
            }),
        ) <= u32::MAX,
        core_instance_entries(*old(s)).len() < u32::MAX,
    ensures
        core_instance_entries(*final(s)) == core_instance_entries(*old(s)).push(
            EntrySpec::CoreInstance(CoreInstanceEntry::FromExports {
                exports: core_exports_view(exports@),
            }),
        ),
{
    s.export_items(exports.iter().map(|p| (p.0.as_str(), conv_core_export_kind(p.1), p.2)));
}

/// Relies on `ComponentInstanceSection::export_items`: appends exactly one
/// from-exports entry with the given items in order.
#[verifier::external_body]
pub(crate) fn component_instance_section_export_items(
    s: &mut wasm_encoder::ComponentInstanceSection,
    exports: &Vec<(String, ComponentItemKind, u32)>,
)
    requires
        entry_size(
            EntrySpec::Instance(InstanceEntry::FromExports {
                exports: component_exports_view(exports@),
            }),
        ) <= u32::MAX,
        instance_entries(*old(s)).len() < u32::MAX,
    ensures
        instance_entries(*final(s)) == instance_entries(*old(s)).push(
            EntrySpec::Instance(InstanceEntry::FromExports {
                exports: component_exports_view(exports@),
            }),
        ),
{
    s.export_items(
        exports.iter().map(|p| (p.0.as_str(), conv_component_export_kind(p.1), p.2)),
    );
}

/// Relies on `CanonicalFunctionSection::lower`: appends exactly one lower
/// entry with the given function index and options in order.
#[verifier::external_body]
pub(crate) fn canon_section_lower(
    s: &mut wasm_encoder::CanonicalFunctionSection,
    func_index: u32,
    options: &Vec<CanonOpt>,
)
    requires
        entry_size(
            EntrySpec::Canon(CanonEntry::Lower { func_index, options: options@ }),
        ) <= u32::MAX,
        canon_entries(*old(s)).len() < u32::MAX,
    ensures
        canon_entries(*final(s)) == canon_entries(*old(s)).push(
            EntrySpec::Canon(CanonEntry::Lower { func_index, options: options@ }),
        ),
{
    s.lower(func_index, options.iter().map(|o| conv_canonical_option(*o)));
}

/// Relies on `CanonicalFunctionSection::lift`: appends exactly one lift
/// entry with the given indices and options in order.
#[verifier::external_body]
pub(crate) fn canon_section_lift(
    s: &mut wasm_encoder::CanonicalFunctionSection,
    core_func_index: u32,
    type_index: u32,
    options: &Vec<CanonOpt>,
)
    requires
        entry_size(
            EntrySpec::Canon(CanonEntry::Lift {
                core_func_index,
                type_index,
                options: options@,
            }),
        ) <= u32::MAX,
        canon_entries(*old(s)).len() < u32::MAX,
    ensures
        canon_entries(*final(s)) == canon_entries(*old(s)).push(
            EntrySpec::Canon(CanonEntry::Lift {
                core_func_index,
                type_index,
                options: options@,
            }),
        ),
{
    s.lift(core_func_index, type_index, options.iter().map(|o| conv_canonical_option(*o)));
}

/// Relies on `ComponentAliasSection::alias` with `Alias::InstanceExport`:
/// appends exactly one such alias entry.
#[verifier::external_body]
pub(crate) fn alias_section_instance_export(
    s: &mut wasm_encoder::ComponentAliasSection,
    instance: u32,
    kind: ComponentItemKind,
    name: &str,
)
    requires
        entry_size(EntrySpec::Alias(AliasEntry::InstanceExport { instance, kind, name: name@ })) <= u32::MAX,
        alias_entries(*old(s)).len() < u32::MAX,
    ensures
        alias_entries(*final(s)) == alias_entries(*old(s)).push(
            EntrySpec::Alias(AliasEntry::InstanceExport { instance, kind, name: name@ }),
        ),
{
    s.alias(wasm_encoder::Alias::InstanceExport {
        instance,
        kind: conv_component_export_kind(kind),
        name,
    });
}

/// Relies on `ComponentAliasSection::alias` with `Alias::CoreInstanceExport`:
/// appends exactly one such alias entry.
#[verifier::external_body]
pub(crate) fn alias_section_core_instance_export(
    s: &mut wasm_encoder::ComponentAliasSection,
    instance: u32,
    kind: CoreExportKind,
    name: &str,
)
    requires
        entry_size(EntrySpec::Alias(AliasEntry::CoreInstanceExport { instance, kind, name: name@ })) <= u32::MAX,
        alias_entries(*old(s)).len() < u32::MAX,
    ensures
        alias_entries(*final(s)) == alias_entries(*old(s)).push(
            EntrySpec::Alias(AliasEntry::CoreInstanceExport { instance, kind, name: name@ }),
        ),
{
    s.alias(wasm_encoder::Alias::CoreInstanceExport {
        instance,
        kind: conv_core_export_kind(kind),
        name,
    });
}

/// Relies on `ComponentAliasSection::alias` with `Alias::Outer` of kind
/// type: appends exactly one outer-type alias entry.
#[verifier::external_body]
pub(crate) fn alias_section_outer_type(
    s: &mut wasm_encoder::ComponentAliasSection,
    count: u32,
    index: u32,
)
    requires
        entry_size(EntrySpec::Alias(AliasEntry::OuterType { count, index })) <= u32::MAX,
        alias_entries(*old(s)).len() < u32::MAX,
    ensures
        alias_entries(*final(s)) == alias_entries(*old(s)).push(
            EntrySpec::Alias(AliasEntry::OuterType { count, index }),
        ),
{
    s.alias(wasm_encoder::Alias::Outer {
        count,
        kind: wasm_encoder::ComponentOuterAliasKind::Type,
        index,
    });
}

/// Relies on `ComponentExportSection::export`: appends exactly one export
/// entry with the given name, kind, index and optional declared type.
#[verifier::external_body]
pub(crate) fn export_section_export(
    s: &mut wasm_encoder::ComponentExportSection,
    name: &str,
    kind: ComponentItemKind,
    index: u32,
    ty: &Option<TypeRef>,
)
    requires
        entry_size(EntrySpec::Export(ExportEntry { name: name@, kind, index, ty: *ty })) <= u32::MAX,
        export_entries(*old(s)).len() < u32::MAX,
    ensures
        export_entries(*final(s)) == export_entries(*old(s)).push(
            EntrySpec::Export(ExportEntry { name: name@, kind, index, ty: *ty }),
        ),
{
    let t = match ty {
        Some(t) => Some(conv_type_ref(*t)),
        None => None,
    };
    s.export(name, conv_component_export_kind(kind), index, t);
}

/// Relies on `ComponentImportSection::import`: appends exactly one import
/// entry with the given name and type reference.
#[verifier::external_body]
pub(crate) fn import_section_import(
    s: &mut wasm_encoder::ComponentImportSection,
    name: &str,
    ty: TypeRef,
)
    requires
        entry_size(EntrySpec::Import(ImportEntry { name: name@, ty })) <= u32::MAX,
        import_entries(*old(s)).len() < u32::MAX,
    ensures
        import_entries(*final(s)) == import_entries(*old(s)).push(
            EntrySpec::Import(ImportEntry { name: name@, ty }),
        ),
{
    s.import(name, conv_type_ref(ty));
}

/// Relies on `ComponentTypeSection::instance`: appends exactly one
/// instance-type entry carrying the given encoded instance type.
#[verifier::external_body]
pub(crate) fn type_section_instance(
    s: &mut wasm_encoder::ComponentTypeSection,
    ty: &wasm_encoder::InstanceType,
)
    requires
        entry_size(EntrySpec::Type(TypeEntry::Instance { repr: instance_type_repr(*ty) })) <= u32::MAX,
        type_entries(*old(s)).len() < u32::MAX,
    ensures
        type_entries(*final(s)) == type_entries(*old(s)).push(
            EntrySpec::Type(TypeEntry::Instance { repr: instance_type_repr(*ty) }),
        ),
{
    s.instance(ty);
}

/// Relies on `ComponentTypeSection::function` with
/// `ComponentFuncTypeEncoder::params` and `result`: appends exactly one
/// function-type entry with the given parameters in order and result.
#[verifier::external_body]
pub(crate) fn type_section_function(
    s: &mut wasm_encoder::ComponentTypeSection,
    params: &Vec<(String, ValueType)>,
    result: &Option<ValueType>,
)
    requires
        entry_size(
            EntrySpec::Type(TypeEntry::Function {
                params: params_view(params@),
                result: *result,
            }),
        ) <= u32::MAX,
        type_entries(*old(s)).len() < u32::MAX,
    ensures
        type_entries(*final(s)) == type_entries(*old(s)).push(
            EntrySpec::Type(TypeEntry::Function { params: params_view(params@), result: *result }),
        ),
{
    let r = match result {
        Some(v) => Some(conv_val_type(*v)),
        None => None,
    };
    s.function().params(params.iter().map(|p| (p.0.as_str(), conv_val_type(p.1)))).result(r);
}

/// Relies on `ComponentDefinedTypeEncoder::primitive`: appends exactly one
/// primitive defined-type entry.
#[verifier::external_body]
pub(crate) fn type_section_defined_primitive(
    s: &mut wasm_encoder::ComponentTypeSection,
    p: PrimitiveType,
)
    requires
        entry_size(EntrySpec::Type(TypeEntry::Defined { ty: DefinedTypeSpec::Primitive(p) })) <= u32::MAX,
        type_entries(*old(s)).len() < u32::MAX,
    ensures
        type_entries(*final(s)) == type_entries(*old(s)).push(
            EntrySpec::Type(TypeEntry::Defined { ty: DefinedTypeSpec::Primitive(p) }),
        ),
{
    s.defined_type().primitive(conv_prim_val_type(p));
}

/// Relies on `ComponentDefinedTypeEncoder::record`: appends exactly one
/// record defined-type entry with the given fields in order.
#[verifier::external_body]
pub(crate) fn type_section_defined_record(
    s: &mut wasm_encoder::ComponentTypeSection,
    fields: &Vec<(String, ValueType)>,
)
    requires
        entry_size(
            EntrySpec::Type(TypeEntry::Defined {
                ty: DefinedTypeSpec::Record(params_view(fields@)),
            }),
        ) <= u32::MAX,
        type_entries(*old(s)).len() < u32::MAX,
    ensures
        type_entries(*final(s)) == type_entries(*old(s)).push(
            EntrySpec::Type(TypeEntry::Defined {
                ty: DefinedTypeSpec::Record(params_view(fields@)),
            }),
        ),
{
    s.defined_type().record(fields.iter().map(|p| (p.0.as_str(), conv_val_type(p.1))));
}

/// Relies on `ComponentDefinedTypeEncoder::variant`: appends exactly one
/// variant defined-type entry with the given cases in order.
#[verifier::external_body]
pub(crate) fn type_section_defined_variant(
    s: &mut wasm_encoder::ComponentTypeSection,
    cases: &Vec<(String, Option<ValueType>)>,
)
    requires
        entry_size(
            EntrySpec::Type(TypeEntry::Defined {
                ty: DefinedTypeSpec::Variant(variant_cases_view(cases@)),
            }),
        ) <= u32::MAX,
        type_entries(*old(s)).len() < u32::MAX,
    ensures
        type_entries(*final(s)) == type_entries(*old(s)).push(
            EntrySpec::Type(TypeEntry::Defined {
                ty: DefinedTypeSpec::Variant(variant_cases_view(cases@)),
            }),
        ),
{
    s.defined_type().variant(cases.iter().map(|c| (c.0.as_str(), c.1.map(conv_val_type))));
}

/// Relies on `ComponentDefinedTypeEncoder::list`: appends exactly one list
/// defined-type entry.
#[verifier::external_body]
pub(crate) fn type_section_defined_list(s: &mut wasm_encoder::ComponentTypeSection, t: ValueType)
    requires
        entry_size(EntrySpec::Type(TypeEntry::Defined { ty: DefinedTypeSpec::List(t) })) <= u32::MAX,
        type_entries(*old(s)).len() < u32::MAX,
    ensures
        type_entries(*final(s)) == type_entries(*old(s)).push(
            EntrySpec::Type(TypeEntry::Defined { ty: DefinedTypeSpec::List(t) }),
        ),
{
    s.defined_type().list(conv_val_type(t));
}

/// Relies on `ComponentDefinedTypeEncoder::map`: appends exactly one map
/// defined-type entry.
#[verifier::external_body]
pub(crate) fn type_section_defined_map(
    s: &mut wasm_encoder::ComponentTypeSection,
    key: ValueType,
    value: ValueType,
)
    requires
        entry_size(EntrySpec::Type(TypeEntry::Defined { ty: DefinedTypeSpec::MapOf(key, value) })) <= u32::MAX,
        type_entries(*old(s)).len() < u32::MAX,
    ensures
        type_entries(*final(s)) == type_entries(*old(s)).push(
            EntrySpec::Type(TypeEntry::Defined { ty: DefinedTypeSpec::MapOf(key, value) }),
        ),
{
    s.defined_type().map(conv_val_type(key), conv_val_type(value));
}

/// Relies on `ComponentDefinedTypeEncoder::fixed_length_list`: appends
/// exactly one fixed-length-list defined-type entry.
#[verifier::external_body]
pub(crate) fn type_section_defined_fixed_list(
    s: &mut wasm_encoder::ComponentTypeSection,
    t: ValueType,
    elements: u32,
)
    requires
        entry_size(
            EntrySpec::Type(TypeEntry::Defined {
                ty: DefinedTypeSpec::FixedLengthList(t, elements),
            }),
        ) <= u32::MAX,
        type_entries(*old(s)).len() < u32::MAX,
    ensures
        type_entries(*final(s)) == type_entries(*old(s)).push(
            EntrySpec::Type(TypeEntry::Defined {
                ty: DefinedTypeSpec::FixedLengthList(t, elements),
            }),
        ),
{
    s.defined_type().fixed_length_list(conv_val_type(t), elements);
}

/// Relies on `ComponentDefinedTypeEncoder::tuple`: appends exactly one
/// tuple defined-type entry with the given types in order.
#[verifier::external_body]
pub(crate) fn type_section_defined_tuple(
    s: &mut wasm_encoder::ComponentTypeSection,
    types: &Vec<ValueType>,
)
    requires
        entry_size(EntrySpec::Type(TypeEntry::Defined { ty: DefinedTypeSpec::Tuple(types@) })) <= u32::MAX,
        type_entries(*old(s)).len() < u32::MAX,
    ensures
        type_entries(*final(s)) == type_entries(*old(s)).push(
            EntrySpec::Type(TypeEntry::Defined { ty: DefinedTypeSpec::Tuple(types@) }),
        ),
{
    s.defined_type().tuple(types.iter().map(|t| conv_val_type(*t)));
}

/// Relies on `ComponentDefinedTypeEncoder::flags`: appends exactly one
/// flags defined-type entry with the given names in order.
#[verifier::external_body]
pub(crate) fn type_section_defined_flags(
    s: &mut wasm_encoder::ComponentTypeSection,
    names: &Vec<String>,
)
    requires
        entry_size(
            EntrySpec::Type(TypeEntry::Defined {
                ty: DefinedTypeSpec::Flags(names_view(names@)),
            }),
        ) <= u32::MAX,
        type_entries(*old(s)).len() < u32::MAX,
    ensures
        type_entries(*final(s)) == type_entries(*old(s)).push(
            EntrySpec::Type(TypeEntry::Defined { ty: DefinedTypeSpec::Flags(names_view(names@)) }),
        ),
{
    s.defined_type().flags(names.iter().map(|n| n.as_str()));
}

/// Relies on `ComponentDefinedTypeEncoder::enum_type`: appends exactly one
/// enum defined-type entry with the given tags in order.
#[verifier::external_body]
pub(crate) fn type_section_defined_enum(
    s: &mut wasm_encoder::ComponentTypeSection,
    tags: &Vec<String>,
)
    requires
        entry_size(EntrySpec::Type(TypeEntry::Defined { ty: DefinedTypeSpec::Enum(names_view(tags@)) })) <= u32::MAX,
        type_entries(*old(s)).len() < u32::MAX,
    ensures
        type_entries(*final(s)) == type_entries(*old(s)).push(
            EntrySpec::Type(TypeEntry::Defined { ty: DefinedTypeSpec::Enum(names_view(tags@)) }),
        ),
{
    s.defined_type().enum_type(tags.iter().map(|n| n.as_str()));
}

/// Relies on `ComponentDefinedTypeEncoder::option`: appends exactly one
/// option defined-type entry.
#[verifier::external_body]
pub(crate) fn type_section_defined_option(
    s: &mut wasm_encoder::ComponentTypeSection,
    t: ValueType,
)
    requires
        entry_size(EntrySpec::Type(TypeEntry::Defined { ty: DefinedTypeSpec::OptionOf(t) })) <= u32::MAX,
        type_entries(*old(s)).len() < u32::MAX,
    ensures
        type_entries(*final(s)) == type_entries(*old(s)).push(
            EntrySpec::Type(TypeEntry::Defined { ty: DefinedTypeSpec::OptionOf(t) }),
        ),
{
    s.defined_type().option(conv_val_type(t));
}

/// Relies on `ComponentDefinedTypeEncoder::result`: appends exactly one
/// result defined-type entry.
#[verifier::external_body]
pub(crate) fn type_section_defined_result(
    s: &mut wasm_encoder::ComponentTypeSection,
    ok: Option<ValueType>,
    err: Option<ValueType>,
)
    requires
        entry_size(EntrySpec::Type(TypeEntry::Defined { ty: DefinedTypeSpec::ResultOf(ok, err) })) <= u32::MAX,
        type_entries(*old(s)).len() < u32::MAX,
    ensures
        type_entries(*final(s)) == type_entries(*old(s)).push(
            EntrySpec::Type(TypeEntry::Defined { ty: DefinedTypeSpec::ResultOf(ok, err) }),
        ),
{
    s.defined_type().result(ok.map(conv_val_type), err.map(conv_val_type));
}

/// Relies on `ComponentDefinedTypeEncoder::own`: appends exactly one own
/// handle defined-type entry.
#[verifier::external_body]
pub(crate) fn type_section_defined_own(s: &mut wasm_encoder::ComponentTypeSection, idx: u32)
    requires
        entry_size(EntrySpec::Type(TypeEntry::Defined { ty: DefinedTypeSpec::Own(idx) })) <= u32::MAX,
        type_entries(*old(s)).len() < u32::MAX,
    ensures
        type_entries(*final(s)) == type_entries(*old(s)).push(
            EntrySpec::Type(TypeEntry::Defined { ty: DefinedTypeSpec::Own(idx) }),
        ),
{
    s.defined_type().own(idx);
}

/// Relies on `ComponentDefinedTypeEncoder::borrow`: appends exactly one
/// borrow handle defined-type entry.
#[verifier::external_body]
pub(crate) fn type_section_defined_borrow(s: &mut wasm_encoder::ComponentTypeSection, idx: u32)
    requires
        entry_size(EntrySpec::Type(TypeEntry::Defined { ty: DefinedTypeSpec::Borrow(idx) })) <= u32::MAX,
        type_entries(*old(s)).len() < u32::MAX,
    ensures
        type_entries(*final(s)) == type_entries(*old(s)).push(
            EntrySpec::Type(TypeEntry::Defined { ty: DefinedTypeSpec::Borrow(idx) }),
        ),
{
    s.defined_type().borrow(idx);
}

/// Relies on `ComponentDefinedTypeEncoder::future`: appends exactly one
/// future defined-type entry.
#[verifier::external_body]
pub(crate) fn type_section_defined_future(
    s: &mut wasm_encoder::ComponentTypeSection,
    payload: Option<ValueType>,
)
    requires
        entry_size(EntrySpec::Type(TypeEntry::Defined { ty: DefinedTypeSpec::Future(payload) })) <= u32::MAX,
        type_entries(*old(s)).len() < u32::MAX,
    ensures
        type_entries(*final(s)) == type_entries(*old(s)).push(
            EntrySpec::Type(TypeEntry::Defined { ty: DefinedTypeSpec::Future(payload) }),
        ),
{
    s.defined_type().future(payload.map(conv_val_type));
}

/// Relies on `ComponentDefinedTypeEncoder::stream`: appends exactly one
/// stream defined-type entry.
#[verifier::external_body]
pub(crate) fn type_section_defined_stream(
    s: &mut wasm_encoder::ComponentTypeSection,
    payload: Option<ValueType>,
)
    requires
        entry_size(EntrySpec::Type(TypeEntry::Defined { ty: DefinedTypeSpec::Stream(payload) })) <= u32::MAX,
        type_entries(*old(s)).len() < u32::MAX,
    ensures
        type_entries(*final(s)) == type_entries(*old(s)).push(
            EntrySpec::Type(TypeEntry::Defined { ty: DefinedTypeSpec::Stream(payload) }),
        ),
{
    s.defined_type().stream(payload.map(conv_val_type));
}

/// Relies on `Component::section` with `InstanceSection`'s section
/// encoding: appends that section's entries as one core-instance section.
#[verifier::external_body]
pub(crate) fn component_append_core_instances(
    c: &mut wasm_encoder::Component,
    s: &wasm_encoder::InstanceSection,
)
    requires
        entries_size(core_instance_entries(*s)) <= u32::MAX,
    ensures
        component_sections(*final(c)) == component_sections(*old(c)).push(
            SectionSpec::Batch { kind: SectionKind::CoreInstance, entries: core_instance_entries(*s) },
        ),
{
    c.section(s);
}

/// Relies on `Component::section` with `ComponentInstanceSection`'s section
/// encoding: appends that section's entries as one instance section.
#[verifier::external_body]
pub(crate) fn component_append_instances(
    c: &mut wasm_encoder::Component,
    s: &wasm_encoder::ComponentInstanceSection,
)
    requires
        entries_size(instance_entries(*s)) <= u32::MAX,
    ensures
        component_sections(*final(c)) == component_sections(*old(c)).push(
            SectionSpec::Batch { kind: SectionKind::Instance, entries: instance_entries(*s) },
        ),
{
    c.section(s);
}

/// Relies on `Component::section` with `CanonicalFunctionSection`'s section
/// encoding: appends that section's entries as one canonical-function section.
#[verifier::external_body]
pub(crate) fn component_append_canon(
    c: &mut wasm_encoder::Component,
    s: &wasm_encoder::CanonicalFunctionSection,
)
    requires
        entries_size(canon_entries(*s)) <= u32::MAX,
    ensures
        component_sections(*final(c)) == component_sections(*old(c)).push(
            SectionSpec::Batch { kind: SectionKind::Canon, entries: canon_entries(*s) },
        ),
{
    c.section(s);
}

/// Relies on `Component::section` with `ComponentAliasSection`'s section
/// encoding: appends that section's entries as one alias section.
#[verifier::external_body]
pub(crate) fn component_append_aliases(
    c: &mut wasm_encoder::Component,
    s: &wasm_encoder::ComponentAliasSection,
)
    requires
        entries_size(alias_entries(*s)) <= u32::MAX,
    ensures
        component_sections(*final(c)) == component_sections(*old(c)).push(
            SectionSpec::Batch { kind: SectionKind::Alias, entries: alias_entries(*s) },
        ),
{
    c.section(s);
}

/// Relies on `Component::section` with `ComponentExportSection`'s section
/// encoding: appends that section's entries as one export section.
#[verifier::external_body]
pub(crate) fn component_append_exports(
    c: &mut wasm_encoder::Component,
    s: &wasm_encoder::ComponentExportSection,
)
    requires
        entries_size(export_entries(*s)) <= u32::MAX,
    ensures
        component_sections(*final(c)) == component_sections(*old(c)).push(
            SectionSpec::Batch { kind: SectionKind::Export, entries: export_entries(*s) },
        ),
{
    c.section(s);
}

/// Relies on `Component::section` with `ComponentImportSection`'s section
/// encoding: appends that section's entries as one import section.
#[verifier::external_body]
pub(crate) fn component_append_imports(
    c: &mut wasm_encoder::Component,
    s: &wasm_encoder::ComponentImportSection,
)
    requires
        entries_size(import_entries(*s)) <= u32::MAX,
    ensures
        component_sections(*final(c)) == component_sections(*old(c)).push(
            SectionSpec::Batch { kind: SectionKind::Import, entries: import_entries(*s) },
        ),
{
    c.section(s);
}

/// Relies on `Component::section` with `ComponentTypeSection`'s section
/// encoding: appends that section's entries as one type section.
#[verifier::external_body]
pub(crate) fn component_append_types(
    c: &mut wasm_encoder::Component,
    s: &wasm_encoder::ComponentTypeSection,
)
    requires
        entries_size(type_entries(*s)) <= u32::MAX,
    ensures
        component_sections(*final(c)) == component_sections(*old(c)).push(
            SectionSpec::Batch { kind: SectionKind::Type, entries: type_entries(*s) },
        ),
{
    c.section(s);
}

/// Relies on `Component::section` with `ModuleSection`: appends one
/// standalone core-module section holding the module's bytes.
#[verifier::external_body]
pub(crate) fn component_append_module(
    c: &mut wasm_encoder::Component,
    m: &wasm_encoder::Module,
)
    requires
        module_repr(*m).len() <= u32::MAX,
    ensures
        component_sections(*final(c)) == component_sections(*old(c)).push(
            SectionSpec::Module { bytes: module_repr(*m) },
        ),
{
    c.section(&wasm_encoder::ModuleSection(m));
}

/// Relies on `Component::section` with `RawSection` under the core-module
/// section id, whose encoding equals `ModuleSection`'s for the same bytes:
/// appends one standalone core-module section holding the given bytes.
#[verifier::external_body]
pub(crate) fn component_append_module_raw(c: &mut wasm_encoder::Component, module: &[u8])
    requires
        module@.len() <= u32::MAX,
    ensures
        component_sections(*final(c)) == component_sections(*old(c)).push(
            SectionSpec::Module { bytes: module@ },
        ),
{
    c.section(&wasm_encoder::RawSection {
        id: wasm_encoder::ComponentSectionId::CoreModule.into(),
        data: module,
    });
}

} // verus!
