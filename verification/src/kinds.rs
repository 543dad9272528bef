//! Plain mirrors of the encoder-level construct descriptions.
//!
//! The builder's logic dispatches on these kinds, so they are the library's
//! own types; the trusted encoding layer converts each value one-for-one into
//! its `wasm_encoder` counterpart when an entry is serialized.

use vstd::prelude::*;

verus! {

/// The kind of an item exported from a core module instance.
#[derive(Clone, Copy, Debug, PartialEq, Eq, Structural)]
pub enum CoreExportKind {
    Func,
    Table,
    Memory,
    Global,
    Tag,
}

/// The kind of an item exported from a component.
#[derive(Clone, Copy, Debug, PartialEq, Eq, Structural)]
pub enum ComponentItemKind {
    Module,
    Func,
    Value,
    Type,
    Instance,
    Component,
}

/// An argument to a core module instantiation.
#[derive(Clone, Copy, Debug, PartialEq, Eq, Structural)]
pub enum InstantiationArg {
    Instance(u32),
}

/// An option governing a canonical lift or lower of a function.
#[derive(Clone, Copy, Debug, PartialEq, Eq, Structural)]
pub enum CanonOpt {
    UTF8,
    UTF16,
    CompactUTF16,
    Memory(u32),
    Realloc(u32),
    PostReturn(u32),
    Async,
    Callback(u32),
    CoreType(u32),
    Gc,
}

/// A bound for an imported type.
#[derive(Clone, Copy, Debug, PartialEq, Eq, Structural)]
pub enum TypeBound {
    Eq(u32),
    SubResource,
}

/// A primitive component value type.
#[derive(Clone, Copy, Debug, PartialEq, Eq, Structural)]
pub enum PrimitiveType {
    Bool,
    S8,
    U8,
    S16,
    U16,
    S32,
    U32,
    S64,
    U64,
    F32,
    F64,
    Char,
    String,
    ErrorContext,
}

/// A component value type: primitive, or a reference to a defined type.
#[derive(Clone, Copy, Debug, PartialEq, Eq, Structural)]
pub enum ValueType {
    Primitive(PrimitiveType),
    Type(u32),
}

/// A reference to a type, as carried by an import.
#[derive(Clone, Copy, Debug, PartialEq, Eq, Structural)]
pub enum TypeRef {
    Module(u32),
    Func(u32),
    Value(ValueType),
    Type(TypeBound),
    Instance(u32),
    Component(u32),
}

/// A defined component value type, mirroring the encoder's grammar.
#[derive(Clone, Debug)]
pub enum DefinedType {
    Primitive(PrimitiveType),
    Record(Vec<(String, ValueType)>),
    Variant(Vec<(String, Option<ValueType>)>),
    List(ValueType),
    MapOf(ValueType, ValueType),
    FixedLengthList(ValueType, u32),
    Tuple(Vec<ValueType>),
    Flags(Vec<String>),
    Enum(Vec<String>),
    OptionOf(ValueType),
    ResultOf(Option<ValueType>, Option<ValueType>),
    Own(u32),
    Borrow(u32),
    Future(Option<ValueType>),
    Stream(Option<ValueType>),
}

/// Holds exactly when aliasing a core instance export of this kind is
/// supported; global and tag exports are structurally unsupported.
pub open spec fn core_alias_kind_supported(kind: CoreExportKind) -> bool {
    match kind {
        CoreExportKind::Func => true,
        CoreExportKind::Table => true,
        CoreExportKind::Memory => true,
        CoreExportKind::Global => false,
        CoreExportKind::Tag => false,
    }
}

/// Holds exactly when exporting an item of this kind is supported;
/// component and value exports are structurally unsupported.
pub open spec fn export_kind_supported(kind: ComponentItemKind) -> bool {
    match kind {
        ComponentItemKind::Type => true,
        ComponentItemKind::Func => true,
        ComponentItemKind::Module => true,
        ComponentItemKind::Instance => true,
        ComponentItemKind::Value => false,
        ComponentItemKind::Component => false,
    }
}

/// Holds exactly when importing a reference of this shape is supported;
/// only instance and function references are.
pub open spec fn import_ref_supported(ty: TypeRef) -> bool {
    match ty {
        TypeRef::Instance(_) => true,
        TypeRef::Func(_) => true,
        _ => false,
    }
}

/// Runtime test of `core_alias_kind_supported`, for callers that must
/// reject an unsupported kind before requesting an alias.
pub fn supports_core_alias_kind(kind: CoreExportKind) -> (r: bool)
    ensures
        r == core_alias_kind_supported(kind),
{
    match kind {
        CoreExportKind::Func => true,
        CoreExportKind::Table => true,
        CoreExportKind::Memory => true,
        CoreExportKind::Global => false,
        CoreExportKind::Tag => false,
    }
}

/// Runtime test of `export_kind_supported`.
pub fn supports_export_kind(kind: ComponentItemKind) -> (r: bool)
    ensures
        r == export_kind_supported(kind),
{
    match kind {
        ComponentItemKind::Type => true,
        ComponentItemKind::Func => true,
        ComponentItemKind::Module => true,
        ComponentItemKind::Instance => true,
        ComponentItemKind::Value => false,
        ComponentItemKind::Component => false,
    }
}

/// Runtime test of `import_ref_supported`.
pub fn supports_import_ref(ty: &TypeRef) -> (r: bool)
    ensures
        r == import_ref_supported(*ty),
{
    match ty {
        TypeRef::Instance(_) => true,
        TypeRef::Func(_) => true,
        _ => false,
    }
}

} // verus!
