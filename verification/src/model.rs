//! The mathematical model of the builder.
//!
//! A builder state is a sequence of sealed sections, at most one open batch
//! section, and eight index-space counters. Every registration operation's
//! contract states that the new state equals `step` applied to the old state
//! and a `CallSpec` describing the call, so the whole output is a function of
//! the call trace.

use vstd::prelude::*;
use crate::kinds::{
    CanonOpt, ComponentItemKind, CoreExportKind, DefinedType, InstantiationArg, PrimitiveType,
    TypeRef, ValueType, core_alias_kind_supported, export_kind_supported, import_ref_supported,
};

verus! {

/// One entry of a core-instance section.
pub enum CoreInstanceEntry {
    /// Instantiate the core module at `module_index` with named arguments.
    Instantiate { module_index: u32, args: Seq<(Seq<char>, InstantiationArg)> },
    /// Form an instance from a list of core items.
    FromExports { exports: Seq<(Seq<char>, CoreExportKind, u32)> },
}

/// One entry of a component-instance section.
pub enum InstanceEntry {
    /// Form an instance from a list of component-level items.
    FromExports { exports: Seq<(Seq<char>, ComponentItemKind, u32)> },
}

/// One entry of a canonical-function section.
pub enum CanonEntry {
    /// Lower the component function at `func_index` to a core function.
    Lower { func_index: u32, options: Seq<CanonOpt> },
    /// Lift the core function at `core_func_index` to a component function
    /// of the type at `type_index`.
    Lift { core_func_index: u32, type_index: u32, options: Seq<CanonOpt> },
}

/// One entry of an alias section.
pub enum AliasEntry {
    /// Alias an export of a component instance.
    InstanceExport { instance: u32, kind: ComponentItemKind, name: Seq<char> },
    /// Alias an export of a core instance.
    CoreInstanceExport { instance: u32, kind: CoreExportKind, name: Seq<char> },
    /// Alias a type of an enclosing scope, `count` levels up.
    OuterType { count: u32, index: u32 },
}

/// One entry of an export section.
pub struct ExportEntry {
    pub name: Seq<char>,
    pub kind: ComponentItemKind,
    pub index: u32,
    pub ty: Option<TypeRef>,
}

/// One entry of an import section.
pub struct ImportEntry {
    pub name: Seq<char>,
    pub ty: TypeRef,
}

/// A defined type at the level of the model.
pub enum DefinedTypeSpec {
    Primitive(PrimitiveType),
    Record(Seq<(Seq<char>, ValueType)>),
    Variant(Seq<(Seq<char>, Option<ValueType>)>),
    List(ValueType),
    MapOf(ValueType, ValueType),
    FixedLengthList(ValueType, u32),
    Tuple(Seq<ValueType>),
    Flags(Seq<Seq<char>>),
    Enum(Seq<Seq<char>>),
    OptionOf(ValueType),
    ResultOf(Option<ValueType>, Option<ValueType>),
    Own(u32),
    Borrow(u32),
    Future(Option<ValueType>),
    Stream(Option<ValueType>),
}

/// View of a vector of named variant cases.
pub open spec fn variant_cases_view(
    cases: Seq<(String, Option<ValueType>)>,
) -> Seq<(Seq<char>, Option<ValueType>)> {
    cases.map_values(|c: (String, Option<ValueType>)| (c.0@, c.1))
}

/// View of a vector of names.
pub open spec fn names_view(names: Seq<String>) -> Seq<Seq<char>> {
    names.map_values(|n: String| n@)
}

/// The model-level value of a defined type.
pub open spec fn defined_type_view(d: DefinedType) -> DefinedTypeSpec {
    match d {
        DefinedType::Primitive(p) => DefinedTypeSpec::Primitive(p),
        DefinedType::Record(fields) => DefinedTypeSpec::Record(params_view(fields@)),
        DefinedType::Variant(cases) => DefinedTypeSpec::Variant(variant_cases_view(cases@)),
        DefinedType::List(t) => DefinedTypeSpec::List(t),
        DefinedType::MapOf(k, v) => DefinedTypeSpec::MapOf(k, v),
        DefinedType::FixedLengthList(t, n) => DefinedTypeSpec::FixedLengthList(t, n),
        DefinedType::Tuple(ts) => DefinedTypeSpec::Tuple(ts@),
        DefinedType::Flags(ns) => DefinedTypeSpec::Flags(names_view(ns@)),
        DefinedType::Enum(ns) => DefinedTypeSpec::Enum(names_view(ns@)),
        DefinedType::OptionOf(t) => DefinedTypeSpec::OptionOf(t),
        DefinedType::ResultOf(ok, err) => DefinedTypeSpec::ResultOf(ok, err),
        DefinedType::Own(i) => DefinedTypeSpec::Own(i),
        DefinedType::Borrow(i) => DefinedTypeSpec::Borrow(i),
        DefinedType::Future(t) => DefinedTypeSpec::Future(t),
        DefinedType::Stream(t) => DefinedTypeSpec::Stream(t),
    }
}

/// One entry of a type section. An instance type is carried through
/// opaquely and stands here as its encoded representation.
pub enum TypeEntry {
    Instance { repr: Seq<u8> },
    Function { params: Seq<(Seq<char>, ValueType)>, result: Option<ValueType> },
    Defined { ty: DefinedTypeSpec },
}

/// One entry of any batchable section.
pub enum EntrySpec {
    CoreInstance(CoreInstanceEntry),
    Instance(InstanceEntry),
    Canon(CanonEntry),
    Alias(AliasEntry),
    Export(ExportEntry),
    Import(ImportEntry),
    Type(TypeEntry),
}

/// The seven batchable section kinds.
#[derive(Clone, Copy, Debug, PartialEq, Eq, Structural)]
pub enum SectionKind {
    CoreInstance,
    Instance,
    Canon,
    Alias,
    Export,
    Import,
    Type,
}

/// The batchable section kind an entry belongs to.
pub open spec fn entry_kind(e: EntrySpec) -> SectionKind {
    match e {
        EntrySpec::CoreInstance(_) => SectionKind::CoreInstance,
        EntrySpec::Instance(_) => SectionKind::Instance,
        EntrySpec::Canon(_) => SectionKind::Canon,
        EntrySpec::Alias(_) => SectionKind::Alias,
        EntrySpec::Export(_) => SectionKind::Export,
        EntrySpec::Import(_) => SectionKind::Import,
        EntrySpec::Type(_) => SectionKind::Type,
    }
}

/// A sealed section of the output stream: either a standalone core-module
/// section, or a batch of same-kind entries in registration order.
#[verifier::ext_equal]
pub enum SectionSpec {
    Module { bytes: Seq<u8> },
    Batch { kind: SectionKind, entries: Seq<EntrySpec> },
}

/// The eight independent index spaces.
#[derive(PartialEq, Eq, Structural)]
pub enum IndexSpace {
    CoreModule,
    CoreFunc,
    CoreMemory,
    CoreTable,
    CoreInstance,
    Func,
    Instance,
    Type,
}

/// The abstract state of a builder.
#[verifier::ext_equal]
pub struct BuilderView {
    /// Sealed sections, oldest first.
    pub sections: Seq<SectionSpec>,
    /// The open batch accumulation, if any.
    pub open: Option<SectionSpec>,
    pub core_modules: nat,
    pub core_funcs: nat,
    pub core_memories: nat,
    pub core_tables: nat,
    pub core_instances: nat,
    pub funcs: nat,
    pub instances: nat,
    pub types: nat,
}

/// The empty builder: no sections, nothing open, all counters zero.
pub open spec fn empty_view() -> BuilderView {
    BuilderView {
        sections: Seq::empty(),
        open: None,
        core_modules: 0,
        core_funcs: 0,
        core_memories: 0,
        core_tables: 0,
        core_instances: 0,
        funcs: 0,
        instances: 0,
        types: 0,
    }
}

/// The value of one index-space counter.
pub open spec fn counter(v: BuilderView, s: IndexSpace) -> nat {
    match s {
        IndexSpace::CoreModule => v.core_modules,
        IndexSpace::CoreFunc => v.core_funcs,
        IndexSpace::CoreMemory => v.core_memories,
        IndexSpace::CoreTable => v.core_tables,
        IndexSpace::CoreInstance => v.core_instances,
        IndexSpace::Func => v.funcs,
        IndexSpace::Instance => v.instances,
        IndexSpace::Type => v.types,
    }
}

/// Advance one index-space counter by one.
pub open spec fn bump(v: BuilderView, s: IndexSpace) -> BuilderView {
    match s {
        IndexSpace::CoreModule => BuilderView { core_modules: v.core_modules + 1, ..v },
        IndexSpace::CoreFunc => BuilderView { core_funcs: v.core_funcs + 1, ..v },
        IndexSpace::CoreMemory => BuilderView { core_memories: v.core_memories + 1, ..v },
        IndexSpace::CoreTable => BuilderView { core_tables: v.core_tables + 1, ..v },
        IndexSpace::CoreInstance => BuilderView { core_instances: v.core_instances + 1, ..v },
        IndexSpace::Func => BuilderView { funcs: v.funcs + 1, ..v },
        IndexSpace::Instance => BuilderView { instances: v.instances + 1, ..v },
        IndexSpace::Type => BuilderView { types: v.types + 1, ..v },
    }
}

/// The sections of the output once the open accumulation (if any) is sealed.
pub open spec fn sealed(v: BuilderView) -> Seq<SectionSpec> {
    match v.open {
        None => v.sections,
        Some(s) => v.sections.push(s),
    }
}

/// Seal the open accumulation into the output stream.
pub open spec fn flushed(v: BuilderView) -> BuilderView {
    BuilderView { sections: sealed(v), open: None, ..v }
}

/// The kind of the open batch accumulation, if one is open.
pub open spec fn open_kind(v: BuilderView) -> Option<SectionKind> {
    match v.open {
        Some(SectionSpec::Batch { kind, entries }) => Some(kind),
        _ => None,
    }
}

/// The entries of an open accumulation.
pub open spec fn batch_entries(o: Option<SectionSpec>) -> Seq<EntrySpec> {
    match o {
        Some(SectionSpec::Batch { kind, entries }) => entries,
        _ => Seq::empty(),
    }
}

/// The state with an open accumulation of kind `k`: unchanged if one of
/// that kind is already open, otherwise the old accumulation is sealed and
/// an empty one of kind `k` is opened.
pub open spec fn opened(v: BuilderView, k: SectionKind) -> BuilderView {
    if open_kind(v) == Some(k) {
        v
    } else {
        BuilderView {
            sections: sealed(v),
            open: Some(SectionSpec::Batch { kind: k, entries: Seq::empty() }),
            ..v
        }
    }
}

/// Append one batchable entry: extend the open section of its kind if there
/// is one, otherwise seal the open section and start a new one with it.
pub open spec fn with_entry(v: BuilderView, e: EntrySpec) -> BuilderView {
    let o = opened(v, entry_kind(e));
    BuilderView {
        open: Some(SectionSpec::Batch {
            kind: entry_kind(e),
            entries: batch_entries(o.open).push(e),
        }),
        ..o
    }
}

/// Append one standalone core-module section: the open accumulation is
/// sealed first, and the module never joins a batch.
pub open spec fn with_module(v: BuilderView, bytes: Seq<u8>) -> BuilderView {
    BuilderView {
        sections: sealed(v).push(SectionSpec::Module { bytes }),
        open: None,
        ..v
    }
}

/// A bound, in bytes, on the encoded size of a name: its length prefix and
/// any name-encoding prefix take at most sixteen bytes, and a character
/// takes at most four bytes of UTF-8.
pub open spec fn str_size(s: Seq<char>) -> nat {
    16 + 4 * s.len()
}

/// Summed sizes of a list's items, under the given measure.
pub open spec fn total_size<A>(items: Seq<A>, f: spec_fn(A) -> nat) -> nat
    decreases items.len(),
{
    if items.len() == 0 {
        0
    } else {
        f(items[0]) + total_size(items.subrange(1, items.len() as int), f)
    }
}

/// A bound on the encoded size of one defined type, past its entry tag.
pub open spec fn defined_size(d: DefinedTypeSpec) -> nat {
    match d {
        DefinedTypeSpec::Record(fields) => total_size(
            fields,
            |p: (Seq<char>, ValueType)| str_size(p.0) + 16,
        ),
        DefinedTypeSpec::Variant(cases) => total_size(
            cases,
            |c: (Seq<char>, Option<ValueType>)| str_size(c.0) + 16,
        ),
        DefinedTypeSpec::Tuple(ts) => 16 * ts.len(),
        DefinedTypeSpec::Flags(ns) => total_size(ns, |n: Seq<char>| str_size(n)),
        DefinedTypeSpec::Enum(ns) => total_size(ns, |n: Seq<char>| str_size(n)),
        _ => 16,
    }
}

/// A bound on the bytes one entry adds to its section's payload. Every
/// tag, index and count the encoder writes for an entry fits in the flat
/// allowance; a name costs `str_size`; list items cost sixteen bytes each
/// on top of their name; an instance type contributes its own encoding.
pub open spec fn entry_size(e: EntrySpec) -> nat {
    32 + match e {
        EntrySpec::CoreInstance(CoreInstanceEntry::Instantiate { args, .. }) => total_size(
            args,
            |p: (Seq<char>, InstantiationArg)| str_size(p.0) + 16,
        ),
        EntrySpec::CoreInstance(CoreInstanceEntry::FromExports { exports }) => total_size(
            exports,
            |p: (Seq<char>, CoreExportKind, u32)| str_size(p.0) + 16,
        ),
        EntrySpec::Instance(InstanceEntry::FromExports { exports }) => total_size(
            exports,
            |p: (Seq<char>, ComponentItemKind, u32)| str_size(p.0) + 16,
        ),
        EntrySpec::Canon(CanonEntry::Lower { options, .. }) => 16 * options.len(),
        EntrySpec::Canon(CanonEntry::Lift { options, .. }) => 16 * options.len(),
        EntrySpec::Alias(AliasEntry::InstanceExport { name, .. }) => str_size(name),
        EntrySpec::Alias(AliasEntry::CoreInstanceExport { name, .. }) => str_size(name),
        EntrySpec::Alias(AliasEntry::OuterType { .. }) => 0,
        EntrySpec::Export(entry) => str_size(entry.name),
        EntrySpec::Import(entry) => str_size(entry.name),
        EntrySpec::Type(TypeEntry::Instance { repr }) => repr.len(),
        EntrySpec::Type(TypeEntry::Function { params, .. }) => total_size(
            params,
            |p: (Seq<char>, ValueType)| str_size(p.0) + 16,
        ),
        EntrySpec::Type(TypeEntry::Defined { ty }) => defined_size(ty),
    }
}

/// Summed entry-size bounds of a section accumulation.
pub open spec fn entries_size(es: Seq<EntrySpec>) -> nat
    decreases es.len(),
{
    if es.len() == 0 {
        0
    } else {
        entry_size(es[0]) + entries_size(es.subrange(1, es.len() as int))
    }
}

/// The open accumulation, if any, fits the format's 32-bit section fields:
/// its encoded payload and its entry count stay representable. Sealing such
/// a section cannot overrun the length prefix the encoder writes.
pub open spec fn within_limits(v: BuilderView) -> bool {
    &&& entries_size(batch_entries(v.open)) <= u32::MAX
    &&& batch_entries(v.open).len() <= u32::MAX
}

/// Appending entry `e` keeps the section of its kind — extended or freshly
/// opened — within the format's 32-bit limits.
pub open spec fn fits(v: BuilderView, e: EntrySpec) -> bool {
    &&& entries_size(batch_entries(opened(v, entry_kind(e)).open)) + entry_size(e) <= u32::MAX
    &&& batch_entries(opened(v, entry_kind(e)).open).len() < u32::MAX
}

/// One call of the registration interface, at the level of the model.
pub enum CallSpec {
    Instantiate { module_index: u32, args: Seq<(Seq<char>, InstantiationArg)> },
    AliasFunc { instance: u32, name: Seq<char> },
    LowerFunc { func_index: u32, options: Seq<CanonOpt> },
    LiftFunc { core_func_index: u32, type_index: u32, options: Seq<CanonOpt> },
    InstantiateCoreExports { exports: Seq<(Seq<char>, CoreExportKind, u32)> },
    InstantiateExports { exports: Seq<(Seq<char>, ComponentItemKind, u32)> },
    CoreModule { bytes: Seq<u8> },
    AliasCoreItem { instance: u32, kind: CoreExportKind, name: Seq<char> },
    Export { name: Seq<char>, kind: ComponentItemKind, index: u32, ty: Option<TypeRef> },
    Import { name: Seq<char>, ty: TypeRef },
    InstanceType { repr: Seq<u8> },
    FunctionType { params: Seq<(Seq<char>, ValueType)>, result: Option<ValueType> },
    DefinedType { ty: DefinedTypeSpec },
    AliasTypeExport { instance: u32, name: Seq<char> },
    AliasOuterType { count: u32, index: u32 },
    Flush,
}

/// The index space a supported core-instance-export alias advances.
pub open spec fn core_alias_space(kind: CoreExportKind) -> IndexSpace {
    match kind {
        CoreExportKind::Func => IndexSpace::CoreFunc,
        CoreExportKind::Table => IndexSpace::CoreTable,
        CoreExportKind::Memory => IndexSpace::CoreMemory,
        _ => IndexSpace::CoreFunc,
    }
}

/// The index space a supported export advances.
pub open spec fn export_space(kind: ComponentItemKind) -> IndexSpace {
    match kind {
        ComponentItemKind::Type => IndexSpace::Type,
        ComponentItemKind::Func => IndexSpace::Func,
        ComponentItemKind::Module => IndexSpace::CoreModule,
        ComponentItemKind::Instance => IndexSpace::Instance,
        _ => IndexSpace::Func,
    }
}

/// The index space a supported import advances.
pub open spec fn import_space(ty: TypeRef) -> IndexSpace {
    match ty {
        TypeRef::Instance(_) => IndexSpace::Instance,
        TypeRef::Func(_) => IndexSpace::Func,
        _ => IndexSpace::Func,
    }
}

/// The batchable entry a call appends, if it appends one. Core-module
/// registrations, explicit flushes, and calls with a structurally
/// unsupported kind append none.
pub open spec fn call_entry(c: CallSpec) -> Option<EntrySpec> {
    match c {
        CallSpec::Instantiate { module_index, args } => Some(EntrySpec::CoreInstance(
            CoreInstanceEntry::Instantiate { module_index, args },
        )),
        CallSpec::AliasFunc { instance, name } => Some(EntrySpec::Alias(
            AliasEntry::InstanceExport { instance, kind: ComponentItemKind::Func, name },
        )),
        CallSpec::LowerFunc { func_index, options } => Some(EntrySpec::Canon(
            CanonEntry::Lower { func_index, options },
        )),
        CallSpec::LiftFunc { core_func_index, type_index, options } => Some(EntrySpec::Canon(
            CanonEntry::Lift { core_func_index, type_index, options },
        )),
        CallSpec::InstantiateCoreExports { exports } => Some(EntrySpec::CoreInstance(
            CoreInstanceEntry::FromExports { exports },
        )),
        CallSpec::InstantiateExports { exports } => Some(EntrySpec::Instance(
            InstanceEntry::FromExports { exports },
        )),
        CallSpec::CoreModule { bytes } => None,
        CallSpec::AliasCoreItem { instance, kind, name } => if core_alias_kind_supported(kind) {
            Some(EntrySpec::Alias(AliasEntry::CoreInstanceExport { instance, kind, name }))
        } else {
            None
        },
        CallSpec::Export { name, kind, index, ty } => if export_kind_supported(kind) {
            Some(EntrySpec::Export(ExportEntry { name, kind, index, ty }))
        } else {
            None
        },
        CallSpec::Import { name, ty } => if import_ref_supported(ty) {
            Some(EntrySpec::Import(ImportEntry { name, ty }))
        } else {
            None
        },
        CallSpec::InstanceType { repr } => Some(EntrySpec::Type(TypeEntry::Instance { repr })),
        CallSpec::FunctionType { params, result } => Some(EntrySpec::Type(
            TypeEntry::Function { params, result },
        )),
        CallSpec::DefinedType { ty } => Some(EntrySpec::Type(TypeEntry::Defined { ty })),
        CallSpec::AliasTypeExport { instance, name } => Some(EntrySpec::Alias(
            AliasEntry::InstanceExport { instance, kind: ComponentItemKind::Type, name },
        )),
        CallSpec::AliasOuterType { count, index } => Some(EntrySpec::Alias(
            AliasEntry::OuterType { count, index },
        )),
        CallSpec::Flush => None,
    }
}

/// The index space a registration call advances, if it is supported.
pub open spec fn call_space(c: CallSpec) -> Option<IndexSpace> {
    match c {
        CallSpec::Instantiate { .. } => Some(IndexSpace::CoreInstance),
        CallSpec::AliasFunc { .. } => Some(IndexSpace::Func),
        CallSpec::LowerFunc { .. } => Some(IndexSpace::CoreFunc),
        CallSpec::LiftFunc { .. } => Some(IndexSpace::Func),
        CallSpec::InstantiateCoreExports { .. } => Some(IndexSpace::CoreInstance),
        CallSpec::InstantiateExports { .. } => Some(IndexSpace::Instance),
        CallSpec::CoreModule { .. } => Some(IndexSpace::CoreModule),
        CallSpec::AliasCoreItem { kind, .. } => if core_alias_kind_supported(kind) {
            Some(core_alias_space(kind))
        } else {
            None
        },
        CallSpec::Export { kind, .. } => if export_kind_supported(kind) {
            Some(export_space(kind))
        } else {
            None
        },
        CallSpec::Import { ty, .. } => if import_ref_supported(ty) {
            Some(import_space(ty))
        } else {
            None
        },
        CallSpec::InstanceType { .. } => Some(IndexSpace::Type),
        CallSpec::FunctionType { .. } => Some(IndexSpace::Type),
        CallSpec::DefinedType { .. } => Some(IndexSpace::Type),
        CallSpec::AliasTypeExport { .. } => Some(IndexSpace::Type),
        CallSpec::AliasOuterType { .. } => Some(IndexSpace::Type),
        CallSpec::Flush => None,
    }
}

/// The index a supported registration call returns: the advanced counter's
/// value before the call.
pub open spec fn assigned_index(v: BuilderView, c: CallSpec) -> nat {
    match call_space(c) {
        Some(s) => counter(v, s),
        None => 0,
    }
}

/// The successor state of one call. A call with an unsupported kind leaves
/// the state unchanged: the builder refuses it before any mutation.
pub open spec fn step(v: BuilderView, c: CallSpec) -> BuilderView {
    match c {
        CallSpec::CoreModule { bytes } => bump(with_module(v, bytes), IndexSpace::CoreModule),
        CallSpec::Flush => flushed(v),
        _ => match (call_entry(c), call_space(c)) {
            (Some(e), Some(s)) => bump(with_entry(v, e), s),
            _ => v,
        },
    }
}

/// The state after a whole call trace, oldest call first.
pub open spec fn run(v: BuilderView, t: Seq<CallSpec>) -> BuilderView
    decreases t.len(),
{
    if t.len() == 0 {
        v
    } else {
        run(step(v, t[0]), t.subrange(1, t.len() as int))
    }
}

/// View of a vector of named module arguments.
pub open spec fn module_args_view(args: Seq<(String, InstantiationArg)>) -> Seq<(Seq<char>, InstantiationArg)> {
    args.map_values(|p: (String, InstantiationArg)| (p.0@, p.1))
}

/// View of a vector of named core items.
pub open spec fn core_exports_view(
    exports: Seq<(String, CoreExportKind, u32)>,
) -> Seq<(Seq<char>, CoreExportKind, u32)> {
    exports.map_values(|p: (String, CoreExportKind, u32)| (p.0@, p.1, p.2))
}

/// View of a vector of named component-level items.
pub open spec fn component_exports_view(
    exports: Seq<(String, ComponentItemKind, u32)>,
) -> Seq<(Seq<char>, ComponentItemKind, u32)> {
    exports.map_values(|p: (String, ComponentItemKind, u32)| (p.0@, p.1, p.2))
}

/// View of a vector of named function-type parameters.
pub open spec fn params_view(
    params: Seq<(String, ValueType)>,
) -> Seq<(Seq<char>, ValueType)> {
    params.map_values(|p: (String, ValueType)| (p.0@, p.1))
}

} // verus!
