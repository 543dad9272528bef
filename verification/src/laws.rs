//! Laws of the builder model.
//!
//! Every registration operation's contract pins its result to `step`, so
//! properties of whole call traces are properties of `run`. This module
//! states and proves them: determinism of the output, index-space
//! monotonicity, batch coalescing, kind-transition splitting, sub-module
//! isolation, the final flush, preservation of the 32-bit section limits,
//! and that unsupported kinds mutate nothing.

use vstd::prelude::*;
use crate::kinds::{core_alias_kind_supported, export_kind_supported, import_ref_supported};
use crate::model::{
    BuilderView, CallSpec, EntrySpec, IndexSpace, SectionKind, SectionSpec, assigned_index,
    batch_entries, call_entry, call_space, counter, empty_view, entries_size, entry_kind,
    entry_size, fits, flushed, opened, run, sealed, step, with_entry, within_limits,
};
use crate::encode::encoded_component;

verus! {

/// The bytes `finish` returns in a given builder state: the open section is
/// sealed and the whole stream is encoded.
pub open spec fn output_of(v: BuilderView) -> Seq<u8> {
    encoded_component(sealed(v))
}

/// Determinism: `step`, `run` and the encoding are functions, so a call
/// trace determines the builder state, and the state determines the bytes
/// `finish` returns. Two runs of one trace from equal states agree
/// byte-for-byte.
pub proof fn lemma_trace_deterministic(v1: BuilderView, v2: BuilderView, t: Seq<CallSpec>)
    requires
        v1 == v2,
    ensures
        run(v1, t) == run(v2, t),
        output_of(run(v1, t)) == output_of(run(v2, t)),
{
}

/// Whether a call advances the given index space.
pub open spec fn touches(c: CallSpec, s: IndexSpace) -> bool {
    call_space(c) == Some(s)
}

/// How many calls of a trace advance the given index space.
pub open spec fn touch_count(t: Seq<CallSpec>, s: IndexSpace) -> nat
    decreases t.len(),
{
    if t.len() == 0 {
        0
    } else {
        (if touches(t[0], s) { 1nat } else { 0nat }) + touch_count(
            t.subrange(1, t.len() as int),
            s,
        )
    }
}

/// One call advances exactly the counter of the space it touches, by one,
/// and every other counter not at all.
pub proof fn lemma_step_counter(v: BuilderView, c: CallSpec, s: IndexSpace)
    ensures
        counter(step(v, c), s) == counter(v, s) + (if touches(c, s) { 1nat } else { 0nat }),
{
}

/// After a trace, each counter has grown by exactly the number of calls
/// that touch its space: counters never decrease or reset.
pub proof fn lemma_run_counter(v: BuilderView, t: Seq<CallSpec>, s: IndexSpace)
    ensures
        counter(run(v, t), s) == counter(v, s) + touch_count(t, s),
    decreases t.len(),
{
    if t.len() > 0 {
        lemma_step_counter(v, t[0], s);
        lemma_run_counter(step(v, t[0]), t.subrange(1, t.len() as int), s);
    }
}

/// Running a trace extended by one call is one step after the trace.
pub proof fn lemma_run_snoc(v: BuilderView, t: Seq<CallSpec>, c: CallSpec)
    ensures
        run(v, t.push(c)) == step(run(v, t), c),
    decreases t.len(),
{
    reveal_with_fuel(run, 2);
    if t.len() == 0 {
        assert(t.push(c)[0] == c);
        assert(t.push(c).subrange(1, 1) =~= Seq::<CallSpec>::empty());
    } else {
        assert(t.push(c)[0] == t[0]);
        assert(t.push(c).subrange(1, (t.len() + 1) as int) =~= t.subrange(
            1,
            t.len() as int,
        ).push(c));
        lemma_run_snoc(step(v, t[0]), t.subrange(1, t.len() as int), c);
    }
}

/// Index monotonicity: in a run from the empty builder, the call at
/// position `i` touching space `s` is assigned an index equal to the number
/// of earlier calls touching `s` (the n-th gets n−1, counting from one),
/// and immediately afterwards the space's counter is one more.
pub proof fn lemma_index_assignment(t: Seq<CallSpec>, s: IndexSpace, i: int)
    requires
        0 <= i < t.len(),
        touches(t[i], s),
    ensures
        assigned_index(run(empty_view(), t.subrange(0, i)), t[i]) == touch_count(
            t.subrange(0, i),
            s,
        ),
        counter(run(empty_view(), t.subrange(0, i + 1)), s) == touch_count(t.subrange(0, i), s)
            + 1,
{
    let pre = t.subrange(0, i);
    lemma_run_counter(empty_view(), pre, s);
    assert(t.subrange(0, i + 1) =~= pre.push(t[i]));
    lemma_run_snoc(empty_view(), pre, t[i]);
    lemma_step_counter(run(empty_view(), pre), t[i], s);
}

/// Whether a call is a batchable registration whose entry is of kind `k`.
pub open spec fn batchable_of_kind(c: CallSpec, k: SectionKind) -> bool {
    match call_entry(c) {
        Some(e) => entry_kind(e) == k,
        None => false,
    }
}

/// The entries a trace of batchable calls appends, in call order.
pub open spec fn entries_of(t: Seq<CallSpec>) -> Seq<EntrySpec>
    decreases t.len(),
{
    if t.len() == 0 {
        Seq::empty()
    } else {
        match call_entry(t[0]) {
            Some(e) => seq![e] + entries_of(t.subrange(1, t.len() as int)),
            None => entries_of(t.subrange(1, t.len() as int)),
        }
    }
}

/// A batchable registration changes the output stream exactly as appending
/// its entry does; only a counter differs.
pub proof fn lemma_step_batchable(v: BuilderView, c: CallSpec)
    requires
        call_entry(c) is Some,
    ensures
        step(v, c).sections == with_entry(v, call_entry(c)->Some_0).sections,
        step(v, c).open == with_entry(v, call_entry(c)->Some_0).open,
{
}

/// Batch coalescing: a non-empty trace of batchable registrations, all of
/// one kind `k` with nothing in between, seals at most the one section that
/// was open when it began, and leaves a single open section of kind `k`
/// holding every appended entry in call order — never more than one section
/// for the whole run.
pub proof fn lemma_batch_coalescing(v: BuilderView, t: Seq<CallSpec>, k: SectionKind)
    requires
        t.len() > 0,
        forall|i: int| 0 <= i < t.len() ==> batchable_of_kind(#[trigger] t[i], k),
    ensures
        run(v, t).sections == opened(v, k).sections,
        run(v, t).open == Some(SectionSpec::Batch {
            kind: k,
            entries: batch_entries(opened(v, k).open) + entries_of(t),
        }),
    decreases t.len(),
{
    reveal_with_fuel(run, 2);
    reveal_with_fuel(entries_of, 2);
    let rest = t.subrange(1, t.len() as int);
    match call_entry(t[0]) {
        Some(e) => {
            lemma_step_batchable(v, t[0]);
            let v1 = step(v, t[0]);
            assert(v1.open == Some(SectionSpec::Batch {
                kind: k,
                entries: batch_entries(opened(v, k).open).push(e),
            }));
            if rest.len() == 0 {
                assert(rest =~= Seq::<CallSpec>::empty());
                assert(entries_of(Seq::<CallSpec>::empty()) == Seq::<EntrySpec>::empty());
                assert(entries_of(t) =~= seq![e]);
                assert(batch_entries(opened(v, k).open).push(e) =~= batch_entries(
                    opened(v, k).open,
                ) + entries_of(t));
            } else {
                assert(forall|i: int| 0 <= i < rest.len() ==> batchable_of_kind(
                    #[trigger] rest[i],
                    k,
                )) by {
                    assert(forall|i: int| 0 <= i < rest.len() ==> rest[i] == t[i + 1]);
                }
                lemma_batch_coalescing(v1, rest, k);
                assert(opened(v1, k) == v1);
                assert(batch_entries(v1.open) + entries_of(rest) =~= batch_entries(
                    opened(v, k).open,
                ) + entries_of(t));
            }
        },
        None => {
            assert(false);
        },
    }
}

/// Sealing after such a run (by an explicit flush, a different-kind
/// registration, a core module, or finish) therefore yields exactly one
/// sealed section of kind `k` holding all the appended entries in call
/// order, after whatever was already sealed.
pub proof fn lemma_batch_coalescing_sealed(v: BuilderView, t: Seq<CallSpec>, k: SectionKind)
    requires
        t.len() > 0,
        forall|i: int| 0 <= i < t.len() ==> batchable_of_kind(#[trigger] t[i], k),
    ensures
        sealed(run(v, t)) == opened(v, k).sections.push(SectionSpec::Batch {
            kind: k,
            entries: batch_entries(opened(v, k).open) + entries_of(t),
        }),
{
    lemma_batch_coalescing(v, t, k);
}

/// Kind-transition splitting: one registration of a different batchable
/// kind `b` between two registrations of kind `a` forces two separate
/// sections of kind `a` — the first sealed when the `b` entry arrives, the
/// second freshly opened for the third call — sandwiching the sealed `b`
/// section, never one merged section.
pub proof fn lemma_kind_transition_split(
    v: BuilderView,
    c1: CallSpec,
    c2: CallSpec,
    c3: CallSpec,
    a: SectionKind,
    b: SectionKind,
)
    requires
        a != b,
        batchable_of_kind(c1, a),
        batchable_of_kind(c2, b),
        batchable_of_kind(c3, a),
    ensures
        run(v, seq![c1, c2, c3]).sections =~= opened(v, a).sections.push(
            SectionSpec::Batch {
                kind: a,
                entries: batch_entries(opened(v, a).open) + entries_of(seq![c1]),
            },
        ).push(SectionSpec::Batch { kind: b, entries: entries_of(seq![c2]) }),
        run(v, seq![c1, c2, c3]).open == Some(
            SectionSpec::Batch { kind: a, entries: entries_of(seq![c3]) },
        ),
{
    reveal_with_fuel(run, 5);
    reveal_with_fuel(entries_of, 2);
    let t = seq![c1, c2, c3];
    assert(t.subrange(1, 3) =~= seq![c2, c3]);
    assert(seq![c2, c3].subrange(1, 2) =~= seq![c3]);
    assert(seq![c3].subrange(1, 1) =~= Seq::<CallSpec>::empty());
    match (call_entry(c1), call_entry(c2), call_entry(c3)) {
        (Some(e1), Some(e2), Some(e3)) => {
            lemma_step_batchable(v, c1);
            let v1 = step(v, c1);
            lemma_step_batchable(v1, c2);
            let v2 = step(v1, c2);
            lemma_step_batchable(v2, c3);
            assert(entries_of(Seq::<CallSpec>::empty()) == Seq::<EntrySpec>::empty());
            assert(seq![c1].subrange(1, 1) =~= Seq::<CallSpec>::empty());
            assert(seq![c2].subrange(1, 1) =~= Seq::<CallSpec>::empty());
            assert(entries_of(seq![c1]) =~= seq![e1]);
            assert(entries_of(seq![c2]) =~= seq![e2]);
            assert(entries_of(seq![c3]) =~= seq![e3]);
            assert(batch_entries(opened(v, a).open).push(e1) =~= batch_entries(opened(v, a).open)
                + seq![e1]);
            assert(batch_entries(opened(v2, a).open).push(e3) =~= seq![e3]);
        },
        _ => {
            assert(false);
        },
    }
}

/// The standalone sections a trace of core-module registrations appends.
pub open spec fn module_sections_of(t: Seq<CallSpec>) -> Seq<SectionSpec>
    decreases t.len(),
{
    if t.len() == 0 {
        Seq::empty()
    } else {
        match t[0] {
            CallSpec::CoreModule { bytes } => seq![SectionSpec::Module { bytes }]
                + module_sections_of(t.subrange(1, t.len() as int)),
            _ => module_sections_of(t.subrange(1, t.len() as int)),
        }
    }
}

/// Sub-module isolation: a non-empty trace of core-module registrations
/// seals whatever was open and then appends one standalone module section
/// per registration — as many sections as registrations, never merged —
/// and leaves nothing open.
pub proof fn lemma_submodule_isolation(v: BuilderView, t: Seq<CallSpec>)
    requires
        t.len() > 0,
        forall|i: int| 0 <= i < t.len() ==> #[trigger] t[i] is CoreModule,
    ensures
        run(v, t).sections =~= sealed(v) + module_sections_of(t),
        module_sections_of(t).len() == t.len(),
        run(v, t).open is None,
    decreases t.len(),
{
    reveal_with_fuel(run, 2);
    reveal_with_fuel(module_sections_of, 2);
    let rest = t.subrange(1, t.len() as int);
    match t[0] {
        CallSpec::CoreModule { bytes } => {
            let v1 = step(v, t[0]);
            assert(v1.sections == sealed(v).push(SectionSpec::Module { bytes }));
            assert(v1.open is None);
            if rest.len() == 0 {
                assert(rest =~= Seq::<CallSpec>::empty());
                assert(module_sections_of(Seq::<CallSpec>::empty()) == Seq::<SectionSpec>::empty());
                assert(module_sections_of(t) =~= seq![SectionSpec::Module { bytes }]);
                assert(sealed(v).push(SectionSpec::Module { bytes }) =~= sealed(v)
                    + module_sections_of(t));
            } else {
                assert(forall|i: int| 0 <= i < rest.len() ==> #[trigger] rest[i] is CoreModule)
                    by {
                    assert(forall|i: int| 0 <= i < rest.len() ==> rest[i] == t[i + 1]);
                }
                lemma_submodule_isolation(v1, rest);
                assert(sealed(v1) == v1.sections);
                assert(sealed(v).push(SectionSpec::Module { bytes }) + module_sections_of(rest)
                    =~= sealed(v) + module_sections_of(t));
            }
        },
        _ => {
            assert(false);
        },
    }
}

/// Finish flushes: a section still open when `finish` is called is sealed
/// as the last section of the stream the output encodes — it is present in
/// the final bytes, never dropped.
pub proof fn lemma_finish_flushes(v: BuilderView, s: SectionSpec)
    requires
        v.open == Some(s),
    ensures
        sealed(v).len() == v.sections.len() + 1,
        sealed(v).last() == s,
        output_of(v) == encoded_component(v.sections.push(s)),
        output_of(v) == output_of(flushed(v)),
{
}

/// Appending an entry adds exactly its size bound to the accumulation's.
pub proof fn lemma_entries_size_push(es: Seq<EntrySpec>, e: EntrySpec)
    ensures
        entries_size(es.push(e)) == entries_size(es) + entry_size(e),
    decreases es.len(),
{
    reveal_with_fuel(entries_size, 2);
    if es.len() == 0 {
        assert(es.push(e)[0] == e);
        assert(es.push(e).subrange(1, 1) =~= Seq::<EntrySpec>::empty());
    } else {
        assert(es.push(e)[0] == es[0]);
        assert(es.push(e).subrange(1, (es.len() + 1) as int) =~= es.subrange(
            1,
            es.len() as int,
        ).push(e));
        lemma_entries_size_push(es.subrange(1, es.len() as int), e);
    }
}

/// Whether a call keeps the open accumulation within the format's 32-bit
/// limits: the entry it appends, if any, must fit.
pub open spec fn call_fits(v: BuilderView, c: CallSpec) -> bool {
    match call_entry(c) {
        Some(e) => fits(v, e),
        None => true,
    }
}

/// Size-limit preservation: from a state within the 32-bit limits, a call
/// whose entry fits leaves the state within them again, so a caller keeps
/// every section of a whole trace representable by induction.
pub proof fn lemma_step_preserves_limits(v: BuilderView, c: CallSpec)
    requires
        within_limits(v),
        call_fits(v, c),
    ensures
        within_limits(step(v, c)),
{
    match call_entry(c) {
        Some(e) => {
            lemma_entries_size_push(batch_entries(opened(v, entry_kind(e)).open), e);
        },
        None => {},
    }
}

/// A call that requests a structurally unsupported kind: an alias of a
/// global or tag export, an export of a component or value, or an import
/// of anything but an instance or function reference.
pub open spec fn unsupported_call(c: CallSpec) -> bool {
    match c {
        CallSpec::AliasCoreItem { kind, .. } => !core_alias_kind_supported(kind),
        CallSpec::Export { kind, .. } => !export_kind_supported(kind),
        CallSpec::Import { ty, .. } => !import_ref_supported(ty),
        _ => false,
    }
}

/// Unsupported-kind fatality: the model records no mutation for a call with
/// an unsupported kind — no entry, no section, no counter. The executable
/// operations require the kind supported, so a verified caller cannot make
/// such a call at all; a caller outside the proofs must reject it up front.
pub proof fn lemma_unsupported_no_mutation(v: BuilderView, c: CallSpec)
    requires
        unsupported_call(c),
    ensures
        step(v, c) == v,
{
}

} // verus!
