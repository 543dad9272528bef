//! The incremental component builder.
//!
//! Every registration operation appends one entry to the open section of the
//! matching kind — sealing the previously open section first if its kind
//! differs — and advances exactly one index-space counter, returning that
//! counter's value before the increment. Core modules bypass batching and are
//! written as standalone sections. Each operation's contract states the new
//! builder state as `step` of the old state, so the final byte output is a
//! function of the call trace alone.
//!
//! The format's section length and entry-count fields are 32-bit, and the
//! encoder aborts past them. Each operation therefore requires that its
//! entry `fits` the open section and keeps the builder `within_limits`, so
//! no admitted call can overrun a length field.

use vstd::prelude::*;
use crate::kinds::{
    CanonOpt, ComponentItemKind, CoreExportKind, DefinedType, InstantiationArg, TypeRef,
    ValueType, core_alias_kind_supported, export_kind_supported, import_ref_supported,
};
use crate::model::{
    AliasEntry, BuilderView, CallSpec, CanonEntry, CoreInstanceEntry, EntrySpec, ExportEntry,
    ImportEntry, InstanceEntry, SectionKind, SectionSpec, TypeEntry, batch_entries,
    component_exports_view, core_exports_view, counter, core_alias_space, defined_type_view,
    empty_view, entries_size, export_space, fits, flushed, import_space, module_args_view,
    opened, params_view, sealed, step, within_limits,
};
use crate::encode::{
    alias_entries, alias_section_core_instance_export, alias_section_instance_export,
    alias_section_new, alias_section_outer_type, canon_entries, canon_section_lift,
    canon_section_lower, canon_section_new, component_append_aliases, component_append_canon,
    component_append_core_instances, component_append_exports, component_append_imports,
    component_append_instances, component_append_module, component_append_module_raw,
    component_append_types, component_finish, component_instance_section_export_items,
    component_instance_section_new, component_new, component_sections, core_instance_entries,
    encoded_component, export_entries, export_section_export, export_section_new, import_entries,
    import_section_import, import_section_new, instance_entries, instance_section_export_items,
    instance_section_instantiate, instance_section_new, instance_type_repr, module_repr,
    type_entries, type_section_defined_borrow, type_section_defined_enum,
    type_section_defined_fixed_list, type_section_defined_flags, type_section_defined_future,
    type_section_defined_list, type_section_defined_map, type_section_defined_option,
    type_section_defined_own, type_section_defined_primitive, type_section_defined_record,
    type_section_defined_result, type_section_defined_stream, type_section_defined_tuple,
    type_section_defined_variant, type_section_function, type_section_instance, type_section_new,
};

verus! {

/// The at-most-one open section accumulation, keyed by section kind.
pub(crate) enum LastSection {
    Closed,
    CoreInstances(wasm_encoder::InstanceSection),
    Instances(wasm_encoder::ComponentInstanceSection),
    Canon(wasm_encoder::CanonicalFunctionSection),
    Aliases(wasm_encoder::ComponentAliasSection),
    Exports(wasm_encoder::ComponentExportSection),
    Imports(wasm_encoder::ComponentImportSection),
    Types(wasm_encoder::ComponentTypeSection),
}

/// The open accumulation a `LastSection` stands for.
pub(crate) open spec fn last_section_view(ls: LastSection) -> Option<SectionSpec> {
    match ls {
        LastSection::Closed => None,
        LastSection::CoreInstances(s) => Some(
            SectionSpec::Batch { kind: SectionKind::CoreInstance, entries: core_instance_entries(s) },
        ),
        LastSection::Instances(s) => Some(
            SectionSpec::Batch { kind: SectionKind::Instance, entries: instance_entries(s) },
        ),
        LastSection::Canon(s) => Some(
            SectionSpec::Batch { kind: SectionKind::Canon, entries: canon_entries(s) },
        ),
        LastSection::Aliases(s) => Some(
            SectionSpec::Batch { kind: SectionKind::Alias, entries: alias_entries(s) },
        ),
        LastSection::Exports(s) => Some(
            SectionSpec::Batch { kind: SectionKind::Export, entries: export_entries(s) },
        ),
        LastSection::Imports(s) => Some(
            SectionSpec::Batch { kind: SectionKind::Import, entries: import_entries(s) },
        ),
        LastSection::Types(s) => Some(
            SectionSpec::Batch { kind: SectionKind::Type, entries: type_entries(s) },
        ),
    }
}

/// A builder for a binary component: the output stream so far, the open
/// section accumulation, and the eight index-space counters.
pub struct ComponentBuilder {
    component: wasm_encoder::Component,
    last_section: LastSection,
    core_modules: u32,
    core_funcs: u32,
    core_memories: u32,
    core_tables: u32,
    core_instances: u32,
    funcs: u32,
    instances: u32,
    types: u32,
}

impl View for ComponentBuilder {
    type V = BuilderView;

    closed spec fn view(&self) -> BuilderView {
        BuilderView {
            sections: component_sections(self.component),
            open: last_section_view(self.last_section),
            core_modules: self.core_modules as nat,
            core_funcs: self.core_funcs as nat,
            core_memories: self.core_memories as nat,
            core_tables: self.core_tables as nat,
            core_instances: self.core_instances as nat,
            funcs: self.funcs as nat,
            instances: self.instances as nat,
            types: self.types as nat,
        }
    }
}

/// Both states hold the same counter values in every index space.
pub open spec fn counters_unchanged(a: BuilderView, b: BuilderView) -> bool {
    &&& a.core_modules == b.core_modules
    &&& a.core_funcs == b.core_funcs
    &&& a.core_memories == b.core_memories
    &&& a.core_tables == b.core_tables
    &&& a.core_instances == b.core_instances
    &&& a.funcs == b.funcs
    &&& a.instances == b.instances
    &&& a.types == b.types
}

/// Returns a counter's value and advances it by one.
fn inc(idx: &mut u32) -> (r: u32)
    requires
        *old(idx) < u32::MAX,
    ensures
        r == *old(idx),
        *final(idx) == *old(idx) + 1,
{
    let ret: u32 = *idx;
    *idx = *idx + 1;
    ret
}

impl ComponentBuilder {
    /// Creates an empty builder: no sections, nothing open, every counter zero.
    pub fn new() -> (b: ComponentBuilder)
        ensures
            b@ == empty_view(),
            within_limits(b@),
    {
        let b = ComponentBuilder {
            component: component_new(),
            last_section: LastSection::Closed,
            core_modules: 0,
            core_funcs: 0,
            core_memories: 0,
            core_tables: 0,
            core_instances: 0,
            funcs: 0,
            instances: 0,
            types: 0,
        };
        proof {
            assert(b@ =~~= empty_view());
        }
        b
    }

    /// Moves the open accumulation out, leaving the slot closed.
    fn take_last(&mut self) -> (ls: LastSection)
        ensures
            ls == old(self).last_section,
            final(self).last_section == LastSection::Closed,
            final(self).component == old(self).component,
            counters_unchanged(old(self)@, final(self)@),
    {
        let mut t = LastSection::Closed;
        core::mem::swap(&mut t, &mut self.last_section);
        t
    }

    /// Seals the given accumulation into the output stream: a no-op when it
    /// is closed, otherwise one section is appended.
    fn flush_value(&mut self, ls: LastSection)
        requires
            entries_size(batch_entries(last_section_view(ls))) <= u32::MAX,
        ensures
            final(self).last_section == old(self).last_section,
            counters_unchanged(old(self)@, final(self)@),
            component_sections(final(self).component) == match last_section_view(ls) {
                None => component_sections(old(self).component),
                Some(s) => component_sections(old(self).component).push(s),
            },
    {
        match ls {
            LastSection::Closed => {},
            LastSection::CoreInstances(s) => component_append_core_instances(
                &mut self.component,
                &s,
            ),
            LastSection::Instances(s) => component_append_instances(&mut self.component, &s),
            LastSection::Canon(s) => component_append_canon(&mut self.component, &s),
            LastSection::Aliases(s) => component_append_aliases(&mut self.component, &s),
            LastSection::Exports(s) => component_append_exports(&mut self.component, &s),
            LastSection::Imports(s) => component_append_imports(&mut self.component, &s),
            LastSection::Types(s) => component_append_types(&mut self.component, &s),
        }
    }

    /// Seals the open section, if any, into the output stream.
    pub fn flush(&mut self)
        requires
            within_limits(old(self)@),
        ensures
            final(self)@ == flushed(old(self)@),
            within_limits(final(self)@),
    {
        let prev = self.take_last();
        self.flush_value(prev);
        proof {
            assert(self@ =~~= flushed(old(self)@));
        }
    }

    /// Seals whatever is open and returns the completed byte output:
    /// header, then every section in the order it was sealed.
    pub fn finish(self) -> (r: Vec<u8>)
        requires
            within_limits(self@),
        ensures
            r@ == encoded_component(sealed(self@)),
    {
        let mut this = self;
        this.flush();
        component_finish(this.component)
    }

    /// Hands back the open core-instance section, sealing one of a
    /// different kind first and leaving the slot closed meanwhile.
    fn open_core_instances(&mut self) -> (s: wasm_encoder::InstanceSection)
        requires
            within_limits(old(self)@),
        ensures
            final(self).last_section == LastSection::Closed,
            counters_unchanged(old(self)@, final(self)@),
            component_sections(final(self).component) == opened(
                old(self)@,
                SectionKind::CoreInstance,
            ).sections,
            core_instance_entries(s) == batch_entries(
                opened(old(self)@, SectionKind::CoreInstance).open,
            ),
    {
        let prev = self.take_last();
        match prev {
            LastSection::CoreInstances(s) => s,
            other => {
                self.flush_value(other);
                instance_section_new()
            },
        }
    }

    /// Hands back the open component-instance section, as above.
    fn open_instances(&mut self) -> (s: wasm_encoder::ComponentInstanceSection)
        requires
            within_limits(old(self)@),
        ensures
            final(self).last_section == LastSection::Closed,
            counters_unchanged(old(self)@, final(self)@),
            component_sections(final(self).component) == opened(
                old(self)@,
                SectionKind::Instance,
            ).sections,
            instance_entries(s) == batch_entries(opened(old(self)@, SectionKind::Instance).open),
    {
        let prev = self.take_last();
        match prev {
            LastSection::Instances(s) => s,
            other => {
                self.flush_value(other);
                component_instance_section_new()
            },
        }
    }

    /// Hands back the open canonical-function section, as above.
    fn open_canon(&mut self) -> (s: wasm_encoder::CanonicalFunctionSection)
        requires
            within_limits(old(self)@),
        ensures
            final(self).last_section == LastSection::Closed,
            counters_unchanged(old(self)@, final(self)@),
            component_sections(final(self).component) == opened(
                old(self)@,
                SectionKind::Canon,
            ).sections,
            canon_entries(s) == batch_entries(opened(old(self)@, SectionKind::Canon).open),
    {
        let prev = self.take_last();
        match prev {
            LastSection::Canon(s) => s,
            other => {
                self.flush_value(other);
                canon_section_new()
            },
        }
    }

    /// Hands back the open alias section, as above.
    fn open_aliases(&mut self) -> (s: wasm_encoder::ComponentAliasSection)
        requires
            within_limits(old(self)@),
        ensures
            final(self).last_section == LastSection::Closed,
            counters_unchanged(old(self)@, final(self)@),
            component_sections(final(self).component) == opened(
                old(self)@,
                SectionKind::Alias,
            ).sections,
            alias_entries(s) == batch_entries(opened(old(self)@, SectionKind::Alias).open),
    {
        let prev = self.take_last();
        match prev {
            LastSection::Aliases(s) => s,
            other => {
                self.flush_value(other);
                alias_section_new()
            },
        }
    }

    /// Hands back the open export section, as above.
    fn open_exports(&mut self) -> (s: wasm_encoder::ComponentExportSection)
        requires
            within_limits(old(self)@),
        ensures
            final(self).last_section == LastSection::Closed,
            counters_unchanged(old(self)@, final(self)@),
            component_sections(final(self).component) == opened(
                old(self)@,
                SectionKind::Export,
            ).sections,
            export_entries(s) == batch_entries(opened(old(self)@, SectionKind::Export).open),
    {
        let prev = self.take_last();
        match prev {
            LastSection::Exports(s) => s,
            other => {
                self.flush_value(other);
                export_section_new()
            },
        }
    }

    /// Hands back the open import section, as above.
    fn open_imports(&mut self) -> (s: wasm_encoder::ComponentImportSection)
        requires
            within_limits(old(self)@),
        ensures
            final(self).last_section == LastSection::Closed,
            counters_unchanged(old(self)@, final(self)@),
            component_sections(final(self).component) == opened(
                old(self)@,
                SectionKind::Import,
            ).sections,
            import_entries(s) == batch_entries(opened(old(self)@, SectionKind::Import).open),
    {
        let prev = self.take_last();
        match prev {
            LastSection::Imports(s) => s,
            other => {
                self.flush_value(other);
                import_section_new()
            },
        }
    }

    /// Hands back the open type section, as above.
    fn open_types(&mut self) -> (s: wasm_encoder::ComponentTypeSection)
        requires
            within_limits(old(self)@),
        ensures
            final(self).last_section == LastSection::Closed,
            counters_unchanged(old(self)@, final(self)@),
            component_sections(final(self).component) == opened(
                old(self)@,
                SectionKind::Type,
            ).sections,
            type_entries(s) == batch_entries(opened(old(self)@, SectionKind::Type).open),
    {
        let prev = self.take_last();
        match prev {
            LastSection::Types(s) => s,
            other => {
                self.flush_value(other);
                type_section_new()
            },
        }
    }

    /// Registers an instantiation of the core module at `module_index` with
    /// the given named arguments; returns the new core instance's index.
    pub fn instantiate(
        &mut self,
        module_index: u32,
        args: Vec<(String, InstantiationArg)>,
    ) -> (r: u32)
        requires
            within_limits(old(self)@),
            fits(old(self)@, EntrySpec::CoreInstance(CoreInstanceEntry::Instantiate {
                module_index,
                args: module_args_view(args@),
            })),
            old(self)@.core_instances < u32::MAX,
        ensures
            within_limits(final(self)@),
            final(self)@ == step(
                old(self)@,
                CallSpec::Instantiate { module_index, args: module_args_view(args@) },
            ),
            r as nat == old(self)@.core_instances,
    {
        let ghost v0 = self@;
        let mut s = self.open_core_instances();
        instance_section_instantiate(&mut s, module_index, &args);
        self.last_section = LastSection::CoreInstances(s);
        let r = inc(&mut self.core_instances);
        proof {
            assert(self@ =~~= step(
                v0,
                CallSpec::Instantiate { module_index, args: module_args_view(args@) },
            ));
            crate::laws::lemma_step_preserves_limits(v0, CallSpec::Instantiate { module_index, args: module_args_view(args@) });
        }
        r
    }

    /// Registers an alias of the function named `name` exported by the
    /// component instance at `instance`; returns the new function's index.
    pub fn alias_func(&mut self, instance: u32, name: &str) -> (r: u32)
        requires
            within_limits(old(self)@),
            fits(old(self)@, EntrySpec::Alias(AliasEntry::InstanceExport {
                instance,
                kind: ComponentItemKind::Func,
                name: name@,
            })),
            old(self)@.funcs < u32::MAX,
        ensures
            within_limits(final(self)@),
            final(self)@ == step(old(self)@, CallSpec::AliasFunc { instance, name: name@ }),
            r as nat == old(self)@.funcs,
    {
        let ghost v0 = self@;
        let mut s = self.open_aliases();
        alias_section_instance_export(&mut s, instance, ComponentItemKind::Func, name);
        self.last_section = LastSection::Aliases(s);
        let r = inc(&mut self.funcs);
        proof {
            assert(self@ =~~= step(v0, CallSpec::AliasFunc { instance, name: name@ }));
            crate::laws::lemma_step_preserves_limits(v0, CallSpec::AliasFunc { instance, name: name@ });
        }
        r
    }

    /// Registers a lowering of the component function at `func_index` under
    /// the given options; returns the new core function's index.
    pub fn lower_func(&mut self, func_index: u32, options: Vec<CanonOpt>) -> (r: u32)
        requires
            within_limits(old(self)@),
            fits(old(self)@, EntrySpec::Canon(CanonEntry::Lower {
                func_index,
                options: options@,
            })),
            old(self)@.core_funcs < u32::MAX,
        ensures
            within_limits(final(self)@),
            final(self)@ == step(
                old(self)@,
                CallSpec::LowerFunc { func_index, options: options@ },
            ),
            r as nat == old(self)@.core_funcs,
    {
        let ghost v0 = self@;
        let mut s = self.open_canon();
        canon_section_lower(&mut s, func_index, &options);
        self.last_section = LastSection::Canon(s);
        let r = inc(&mut self.core_funcs);
        proof {
            assert(self@ =~~= step(v0, CallSpec::LowerFunc { func_index, options: options@ }));
            crate::laws::lemma_step_preserves_limits(v0, CallSpec::LowerFunc { func_index, options: options@ });
        }
        r
    }

    /// Registers a lifting of the core function at `core_func_index` to the
    /// function type at `type_index` under the given options; returns the
    /// new component function's index.
    pub fn lift_func(
        &mut self,
        core_func_index: u32,
        type_index: u32,
        options: Vec<CanonOpt>,
    ) -> (r: u32)
        requires
            within_limits(old(self)@),
            fits(old(self)@, EntrySpec::Canon(CanonEntry::Lift {
                core_func_index,
                type_index,
                options: options@,
            })),
            old(self)@.funcs < u32::MAX,
        ensures
            within_limits(final(self)@),
            final(self)@ == step(
                old(self)@,
                CallSpec::LiftFunc { core_func_index, type_index, options: options@ },
            ),
            r as nat == old(self)@.funcs,
    {
        let ghost v0 = self@;
        let mut s = self.open_canon();
        canon_section_lift(&mut s, core_func_index, type_index, &options);
        self.last_section = LastSection::Canon(s);
        let r = inc(&mut self.funcs);
        proof {
            assert(self@ =~~= step(
                v0,
                CallSpec::LiftFunc { core_func_index, type_index, options: options@ },
            ));
            crate::laws::lemma_step_preserves_limits(v0, CallSpec::LiftFunc { core_func_index, type_index, options: options@ });
        }
        r
    }

    /// Registers a core instance formed from the given core items; returns
    /// the new core instance's index.
    pub fn instantiate_core_exports(
        &mut self,
        exports: Vec<(String, CoreExportKind, u32)>,
    ) -> (r: u32)
        requires
            within_limits(old(self)@),
            fits(old(self)@, EntrySpec::CoreInstance(CoreInstanceEntry::FromExports {
                exports: core_exports_view(exports@),
            })),
            old(self)@.core_instances < u32::MAX,
        ensures
            within_limits(final(self)@),
            final(self)@ == step(
                old(self)@,
                CallSpec::InstantiateCoreExports { exports: core_exports_view(exports@) },
            ),
            r as nat == old(self)@.core_instances,
    {
        let ghost v0 = self@;
        let mut s = self.open_core_instances();
        instance_section_export_items(&mut s, &exports);
        self.last_section = LastSection::CoreInstances(s);
        let r = inc(&mut self.core_instances);
        proof {
            assert(self@ =~~= step(
                v0,
                CallSpec::InstantiateCoreExports { exports: core_exports_view(exports@) },
            ));
            crate::laws::lemma_step_preserves_limits(v0, CallSpec::InstantiateCoreExports { exports: core_exports_view(exports@) });
        }
        r
    }

    /// Registers a component instance formed from the given component-level
    /// items; returns the new instance's index.
    pub fn instantiate_exports(
        &mut self,
        exports: Vec<(String, ComponentItemKind, u32)>,
    ) -> (r: u32)
        requires
            within_limits(old(self)@),
            fits(old(self)@, EntrySpec::Instance(InstanceEntry::FromExports {
                exports: component_exports_view(exports@),
            })),
            old(self)@.instances < u32::MAX,
        ensures
            within_limits(final(self)@),
            final(self)@ == step(
                old(self)@,
                CallSpec::InstantiateExports { exports: component_exports_view(exports@) },
            ),
            r as nat == old(self)@.instances,
    {
        let ghost v0 = self@;
        let mut s = self.open_instances();
        component_instance_section_export_items(&mut s, &exports);
        self.last_section = LastSection::Instances(s);
        let r = inc(&mut self.instances);
        proof {
            assert(self@ =~~= step(
                v0,
                CallSpec::InstantiateExports { exports: component_exports_view(exports@) },
            ));
            crate::laws::lemma_step_preserves_limits(v0, CallSpec::InstantiateExports { exports: component_exports_view(exports@) });
        }
        r
    }

    /// Registers an embedded core module as its own standalone section,
    /// sealing whatever was open first; returns the new module's index.
    pub fn core_module(&mut self, module: &wasm_encoder::Module) -> (r: u32)
        requires
            within_limits(old(self)@),
            module_repr(*module).len() <= u32::MAX,
            old(self)@.core_modules < u32::MAX,
        ensures
            within_limits(final(self)@),
            final(self)@ == step(old(self)@, CallSpec::CoreModule { bytes: module_repr(*module) }),
            r as nat == old(self)@.core_modules,
    {
        let ghost v0 = self@;
        self.flush();
        component_append_module(&mut self.component, module);
        let r = inc(&mut self.core_modules);
        proof {
            assert(self@ =~~= step(v0, CallSpec::CoreModule { bytes: module_repr(*module) }));
            crate::laws::lemma_step_preserves_limits(v0, CallSpec::CoreModule { bytes: module_repr(*module) });
        }
        r
    }

    /// Registers an embedded core module supplied as raw, already-encoded
    /// bytes, as its own standalone section; returns the new module's index.
    pub fn core_module_raw(&mut self, module: &[u8]) -> (r: u32)
        requires
            within_limits(old(self)@),
            module@.len() <= u32::MAX,
            old(self)@.core_modules < u32::MAX,
        ensures
            within_limits(final(self)@),
            final(self)@ == step(old(self)@, CallSpec::CoreModule { bytes: module@ }),
            r as nat == old(self)@.core_modules,
    {
        let ghost v0 = self@;
        self.flush();
        component_append_module_raw(&mut self.component, module);
        let r = inc(&mut self.core_modules);
        proof {
            assert(self@ =~~= step(v0, CallSpec::CoreModule { bytes: module@ }));
            crate::laws::lemma_step_preserves_limits(v0, CallSpec::CoreModule { bytes: module@ });
        }
        r
    }

    /// Registers an alias of the core item of the given kind named `name`
    /// exported by the core instance at `instance`; returns the new item's
    /// index in the space of its kind. Global and tag items are unsupported.
    pub fn alias_core_item(&mut self, instance: u32, kind: CoreExportKind, name: &str) -> (r: u32)
        requires
            within_limits(old(self)@),
            fits(old(self)@, EntrySpec::Alias(AliasEntry::CoreInstanceExport {
                instance,
                kind,
                name: name@,
            })),
            core_alias_kind_supported(kind),
            counter(old(self)@, core_alias_space(kind)) < u32::MAX,
        ensures
            within_limits(final(self)@),
            final(self)@ == step(
                old(self)@,
                CallSpec::AliasCoreItem { instance, kind, name: name@ },
            ),
            r as nat == counter(old(self)@, core_alias_space(kind)),
    {
        let ghost v0 = self@;
        let mut s = self.open_aliases();
        alias_section_core_instance_export(&mut s, instance, kind, name);
        self.last_section = LastSection::Aliases(s);
        let r = match kind {
            CoreExportKind::Func => inc(&mut self.core_funcs),
            CoreExportKind::Table => inc(&mut self.core_tables),
            CoreExportKind::Memory => inc(&mut self.core_memories),
            CoreExportKind::Global | CoreExportKind::Tag => {
                proof {
                    assert(false);
                }
                0
            },
        };
        proof {
            assert(self@ =~~= step(v0, CallSpec::AliasCoreItem { instance, kind, name: name@ }));
            crate::laws::lemma_step_preserves_limits(v0, CallSpec::AliasCoreItem { instance, kind, name: name@ });
        }
        r
    }

    /// Registers an export of the item of the given kind at `idx` under
    /// `name`, with an optional declared type; returns the exported item's
    /// new index in the space of its kind. Component and value exports are
    /// unsupported.
    pub fn export(
        &mut self,
        name: &str,
        kind: ComponentItemKind,
        idx: u32,
        ty: Option<TypeRef>,
    ) -> (r: u32)
        requires
            within_limits(old(self)@),
            fits(old(self)@, EntrySpec::Export(ExportEntry {
                name: name@,
                kind,
                index: idx,
                ty,
            })),
            export_kind_supported(kind),
            counter(old(self)@, export_space(kind)) < u32::MAX,
        ensures
            within_limits(final(self)@),
            final(self)@ == step(
                old(self)@,
                CallSpec::Export { name: name@, kind, index: idx, ty },
            ),
            r as nat == counter(old(self)@, export_space(kind)),
    {
        let ghost v0 = self@;
        let mut s = self.open_exports();
        export_section_export(&mut s, name, kind, idx, &ty);
        self.last_section = LastSection::Exports(s);
        let r = match kind {
            ComponentItemKind::Type => inc(&mut self.types),
            ComponentItemKind::Func => inc(&mut self.funcs),
            ComponentItemKind::Module => inc(&mut self.core_modules),
            ComponentItemKind::Instance => inc(&mut self.instances),
            ComponentItemKind::Value | ComponentItemKind::Component => {
                proof {
                    assert(false);
                }
                0
            },
        };
        proof {
            assert(self@ =~~= step(v0, CallSpec::Export { name: name@, kind, index: idx, ty }));
            crate::laws::lemma_step_preserves_limits(v0, CallSpec::Export { name: name@, kind, index: idx, ty });
        }
        r
    }

    /// Registers an import of the given reference under `name`; returns the
    /// imported item's new index in the space of its kind. Only instance and
    /// function references are supported.
    pub fn import(&mut self, name: &str, ty: TypeRef) -> (r: u32)
        requires
            within_limits(old(self)@),
            fits(old(self)@, EntrySpec::Import(ImportEntry { name: name@, ty })),
            import_ref_supported(ty),
            counter(old(self)@, import_space(ty)) < u32::MAX,
        ensures
            within_limits(final(self)@),
            final(self)@ == step(old(self)@, CallSpec::Import { name: name@, ty }),
            r as nat == counter(old(self)@, import_space(ty)),
    {
        let ghost v0 = self@;
        let mut s = self.open_imports();
        import_section_import(&mut s, name, ty);
        self.last_section = LastSection::Imports(s);
        let r = match ty {
            TypeRef::Instance(_) => inc(&mut self.instances),
            TypeRef::Func(_) => inc(&mut self.funcs),
            _ => {
                proof {
                    assert(false);
                }
                0
            },
        };
        proof {
            assert(self@ =~~= step(v0, CallSpec::Import { name: name@, ty }));
            crate::laws::lemma_step_preserves_limits(v0, CallSpec::Import { name: name@, ty });
        }
        r
    }

    /// Registers an instance type, carried through opaquely; returns the new
    /// type's index.
    pub fn instance_type(&mut self, ty: &wasm_encoder::InstanceType) -> (r: u32)
        requires
            within_limits(old(self)@),
            fits(old(self)@, EntrySpec::Type(TypeEntry::Instance {
                repr: instance_type_repr(*ty),
            })),
            old(self)@.types < u32::MAX,
        ensures
            within_limits(final(self)@),
            final(self)@ == step(
                old(self)@,
                CallSpec::InstanceType { repr: instance_type_repr(*ty) },
            ),
            r as nat == old(self)@.types,
    {
        let ghost v0 = self@;
        let mut s = self.open_types();
        type_section_instance(&mut s, ty);
        self.last_section = LastSection::Types(s);
        let r = inc(&mut self.types);
        proof {
            assert(self@ =~~= step(v0, CallSpec::InstanceType { repr: instance_type_repr(*ty) }));
            crate::laws::lemma_step_preserves_limits(v0, CallSpec::InstanceType { repr: instance_type_repr(*ty) });
        }
        r
    }

    /// Registers a function type with the given named parameters and
    /// optional result; returns the new type's index.
    pub fn function_type(
        &mut self,
        params: Vec<(String, ValueType)>,
        result: Option<ValueType>,
    ) -> (r: u32)
        requires
            within_limits(old(self)@),
            fits(old(self)@, EntrySpec::Type(TypeEntry::Function {
                params: params_view(params@),
                result,
            })),
            old(self)@.types < u32::MAX,
        ensures
            within_limits(final(self)@),
            final(self)@ == step(
                old(self)@,
                CallSpec::FunctionType { params: params_view(params@), result },
            ),
            r as nat == old(self)@.types,
    {
        let ghost v0 = self@;
        let mut s = self.open_types();
        type_section_function(&mut s, &params, &result);
        self.last_section = LastSection::Types(s);
        let r = inc(&mut self.types);
        proof {
            assert(self@ =~~= step(
                v0,
                CallSpec::FunctionType { params: params_view(params@), result },
            ));
            crate::laws::lemma_step_preserves_limits(v0, CallSpec::FunctionType { params: params_view(params@), result });
        }
        r
    }

    /// Registers a defined value type; returns the new type's index.
    pub fn defined_type(&mut self, ty: DefinedType) -> (r: u32)
        requires
            within_limits(old(self)@),
            fits(old(self)@, EntrySpec::Type(TypeEntry::Defined {
                ty: defined_type_view(ty),
            })),
            old(self)@.types < u32::MAX,
        ensures
            within_limits(final(self)@),
            final(self)@ == step(
                old(self)@,
                CallSpec::DefinedType { ty: defined_type_view(ty) },
            ),
            r as nat == old(self)@.types,
    {
        let ghost v0 = self@;
        let ghost tyv = defined_type_view(ty);
        let mut s = self.open_types();
        match ty {
            DefinedType::Primitive(p) => type_section_defined_primitive(&mut s, p),
            DefinedType::Record(fields) => type_section_defined_record(&mut s, &fields),
            DefinedType::Variant(cases) => type_section_defined_variant(&mut s, &cases),
            DefinedType::List(t) => type_section_defined_list(&mut s, t),
            DefinedType::MapOf(k, v) => type_section_defined_map(&mut s, k, v),
            DefinedType::FixedLengthList(t, n) => type_section_defined_fixed_list(&mut s, t, n),
            DefinedType::Tuple(types) => type_section_defined_tuple(&mut s, &types),
            DefinedType::Flags(names) => type_section_defined_flags(&mut s, &names),
            DefinedType::Enum(tags) => type_section_defined_enum(&mut s, &tags),
            DefinedType::OptionOf(t) => type_section_defined_option(&mut s, t),
            DefinedType::ResultOf(ok, err) => type_section_defined_result(&mut s, ok, err),
            DefinedType::Own(idx) => type_section_defined_own(&mut s, idx),
            DefinedType::Borrow(idx) => type_section_defined_borrow(&mut s, idx),
            DefinedType::Future(payload) => type_section_defined_future(&mut s, payload),
            DefinedType::Stream(payload) => type_section_defined_stream(&mut s, payload),
        }
        self.last_section = LastSection::Types(s);
        let r = inc(&mut self.types);
        proof {
            assert(self@ =~~= step(v0, CallSpec::DefinedType { ty: tyv }));
            crate::laws::lemma_step_preserves_limits(v0, CallSpec::DefinedType { ty: tyv });
        }
        r
    }

    /// Registers an alias of the type named `name` exported by the component
    /// instance at `instance`; returns the new type's index.
    pub fn alias_type_export(&mut self, instance: u32, name: &str) -> (r: u32)
        requires
            within_limits(old(self)@),
            fits(old(self)@, EntrySpec::Alias(AliasEntry::InstanceExport {
                instance,
                kind: ComponentItemKind::Type,
                name: name@,
            })),
            old(self)@.types < u32::MAX,
        ensures
            within_limits(final(self)@),
            final(self)@ == step(old(self)@, CallSpec::AliasTypeExport { instance, name: name@ }),
            r as nat == old(self)@.types,
    {
        let ghost v0 = self@;
        let mut s = self.open_aliases();
        alias_section_instance_export(&mut s, instance, ComponentItemKind::Type, name);
        self.last_section = LastSection::Aliases(s);
        let r = inc(&mut self.types);
        proof {
            assert(self@ =~~= step(v0, CallSpec::AliasTypeExport { instance, name: name@ }));
            crate::laws::lemma_step_preserves_limits(v0, CallSpec::AliasTypeExport { instance, name: name@ });
        }
        r
    }

    /// The number of core modules registered so far.
    pub fn core_module_count(&self) -> (r: u32)
        ensures
            r as nat == self@.core_modules,
    {
        self.core_modules
    }

    /// The number of core functions registered so far.
    pub fn core_func_count(&self) -> (r: u32)
        ensures
            r as nat == self@.core_funcs,
    {
        self.core_funcs
    }

    /// The number of core memories registered so far.
    pub fn core_memory_count(&self) -> (r: u32)
        ensures
            r as nat == self@.core_memories,
    {
        self.core_memories
    }

    /// The number of core tables registered so far.
    pub fn core_table_count(&self) -> (r: u32)
        ensures
            r as nat == self@.core_tables,
    {
        self.core_tables
    }

    /// The number of core instances registered so far.
    pub fn core_instance_count(&self) -> (r: u32)
        ensures
            r as nat == self@.core_instances,
    {
        self.core_instances
    }

    /// The number of component functions registered so far.
    pub fn func_count(&self) -> (r: u32)
        ensures
            r as nat == self@.funcs,
    {
        self.funcs
    }

    /// The number of component instances registered so far.
    pub fn instance_count(&self) -> (r: u32)
        ensures
            r as nat == self@.instances,
    {
        self.instances
    }

    /// The number of types registered so far.
    pub fn type_count(&self) -> (r: u32)
        ensures
            r as nat == self@.types,
    {
        self.types
    }

    /// Registers an alias of the type at `index` in the scope `count` levels
    /// out; returns the new type's index.
    pub fn alias_outer_type(&mut self, count: u32, index: u32) -> (r: u32)
        requires
            within_limits(old(self)@),
            fits(old(self)@, EntrySpec::Alias(AliasEntry::OuterType { count, index })),
            old(self)@.types < u32::MAX,
        ensures
            within_limits(final(self)@),
            final(self)@ == step(old(self)@, CallSpec::AliasOuterType { count, index }),
            r as nat == old(self)@.types,
    {
        let ghost v0 = self@;
        let mut s = self.open_aliases();
        alias_section_outer_type(&mut s, count, index);
        self.last_section = LastSection::Aliases(s);
        let r = inc(&mut self.types);
        proof {
            assert(self@ =~~= step(v0, CallSpec::AliasOuterType { count, index }));
            crate::laws::lemma_step_preserves_limits(v0, CallSpec::AliasOuterType { count, index });
        }
        r
    }
}

impl Default for ComponentBuilder {
    /// The empty builder.
    fn default() -> (b: Self)
        ensures
            b@ == empty_view(),
    {
        ComponentBuilder::new()
    }
}

} // verus!


