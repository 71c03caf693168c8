//! The library's laws: what holds of every lowering, proved once and for
//! all over the same specification functions the executable contracts use.

use vstd::prelude::*;

use crate::infer::spec_mode;
use crate::generics::{seq_contains_str, spec_filter_generics, GenericEntryView};
use crate::model::GenericParamView;
use crate::ir::{
    ActionView, LowerErrorView, Mode, StateView, SuperstateView, UnresolvedReferenceView,
};
use crate::link::{spec_link_state, spec_lookup_superstate};
use crate::lower::spec_lower;
use crate::model::{
    ActionSpecView, FieldView, MachineSpecView, ModelView, StateSpecView, SuperstateSpecView,
};
use crate::name::pascal_of;
use crate::variant::{
    spec_field_index, spec_field_names, spec_input_fields, spec_lower_state,
    spec_lower_superstate, spec_overlay, spec_overlay_one,
};

verus! {

/// Whether a field list holds each name at most once.
pub open spec fn spec_unique_names(fields: Seq<FieldView>) -> bool {
    forall|i: int, j: int|
        0 <= i < j < fields.len() ==> fields[i].name != fields[j].name
}

// ---- naming and patterns ----

/// For every state handler the builder accepts: the variant is named by
/// the capitalized-word form of the handler's name, and the match pattern
/// is on the machine's state type, names the same variant, and binds
/// exactly the variant's fields in the same order.
pub proof fn lemma_state_variant_and_pattern(s: StateSpecView, m: MachineSpecView)
    requires
        spec_lower_state(s, m) is Ok,
    ensures
        spec_lower_state(s, m)->Ok_0.variant.name == pascal_of(s.handler_name),
        spec_lower_state(s, m)->Ok_0.pat.enum_ident == m.state_ident,
        spec_lower_state(s, m)->Ok_0.pat.variant == spec_lower_state(s, m)->Ok_0.variant.name,
        spec_lower_state(s, m)->Ok_0.pat.fields == spec_field_names(
            spec_lower_state(s, m)->Ok_0.variant.fields,
        ),
{
}

/// The same naming and pattern shape holds of every superstate handler,
/// with the pattern on the machine's superstate type.
pub proof fn lemma_superstate_variant_and_pattern(s: SuperstateSpecView, m: MachineSpecView)
    requires
        spec_lower_superstate(s, m) is Ok,
    ensures
        spec_lower_superstate(s, m)->Ok_0.variant.name == pascal_of(s.handler_name),
        spec_lower_superstate(s, m)->Ok_0.pat.enum_ident == m.superstate_ident,
        spec_lower_superstate(s, m)->Ok_0.pat.variant == spec_lower_superstate(
            s,
            m,
        )->Ok_0.variant.name,
        spec_lower_superstate(s, m)->Ok_0.pat.fields == spec_field_names(
            spec_lower_superstate(s, m)->Ok_0.variant.fields,
        ),
{
}

// ---- field deduplication ----

proof fn lemma_field_index_some_inv(fields: Seq<FieldView>, name: Seq<char>, i: int)
    requires
        spec_field_index(fields, name) == Option::Some(i),
    ensures
        0 <= i < fields.len(),
        fields[i].name == name,
        forall|k: int| 0 <= k < i ==> fields[k].name != name,
    decreases fields.len(),
{
    if fields.len() == 0 {
    } else if fields[0].name == name {
    } else {
        lemma_field_index_some_inv(fields.skip(1), name, i - 1);
        assert(fields.skip(1)[i - 1] == fields[i]);
        assert forall|k: int| 0 < k < i implies fields[k].name != name by {
            assert(fields.skip(1)[k - 1] == fields[k]);
        }
    }
}

proof fn lemma_field_index_none_inv(fields: Seq<FieldView>, name: Seq<char>)
    requires
        spec_field_index(fields, name) is None,
    ensures
        forall|k: int| 0 <= k < fields.len() ==> fields[k].name != name,
    decreases fields.len(),
{
    if fields.len() == 0 {
    } else {
        lemma_field_index_none_inv(fields.skip(1), name);
        assert forall|k: int| 0 < k < fields.len() implies fields[k].name != name by {
            assert(fields.skip(1)[k - 1] == fields[k]);
        }
    }
}

proof fn lemma_overlay_one_props(fields: Seq<FieldView>, g: FieldView)
    requires
        spec_unique_names(fields),
    ensures
        spec_unique_names(spec_overlay_one(fields, g)),
        spec_overlay_one(fields, g).len() >= fields.len(),
        exists|i: int|
            0 <= i < spec_overlay_one(fields, g).len() && spec_overlay_one(fields, g)[i] == g,
        forall|j: int|
            0 <= j < fields.len() && fields[j].name != g.name ==> spec_overlay_one(fields, g)[j]
                == fields[j],
{
    let r = spec_overlay_one(fields, g);
    match spec_field_index(fields, g.name) {
        Option::Some(i) => {
            lemma_field_index_some_inv(fields, g.name, i);
            assert(r == fields.update(i, g));
            assert(r[i] == g);
            assert forall|a: int, b: int| 0 <= a < b < r.len() implies r[a].name != r[b].name by {
                assert(r[a].name == fields[a].name);
                assert(r[b].name == fields[b].name);
            }
        },
        Option::None => {
            lemma_field_index_none_inv(fields, g.name);
            assert(r == fields.push(g));
            assert(r[fields.len() as int] == g);
            assert forall|a: int, b: int| 0 <= a < b < r.len() implies r[a].name != r[b].name by {
                if b < fields.len() {
                    assert(r[a] == fields[a]);
                    assert(r[b] == fields[b]);
                } else {
                    assert(r[b] == g);
                    if a < fields.len() {
                        assert(r[a] == fields[a]);
                    }
                }
            }
        },
    }
}

proof fn lemma_overlay_keeps_field(fields: Seq<FieldView>, locals: Seq<FieldView>, i: int)
    requires
        spec_unique_names(fields),
        0 <= i < fields.len(),
        forall|k: int| 0 <= k < locals.len() ==> locals[k].name != fields[i].name,
    ensures
        spec_unique_names(spec_overlay(fields, locals)),
        spec_overlay(fields, locals).len() >= fields.len(),
        spec_overlay(fields, locals)[i] == fields[i],
    decreases locals.len(),
{
    if locals.len() == 0 {
    } else {
        let f1 = spec_overlay_one(fields, locals[0]);
        lemma_overlay_one_props(fields, locals[0]);
        assert(f1[i] == fields[i]);
        assert forall|k: int| 0 <= k < locals.skip(1).len() implies locals.skip(1)[k].name
            != f1[i].name by {
            assert(locals.skip(1)[k] == locals[k + 1]);
        }
        lemma_overlay_keeps_field(f1, locals.skip(1), i);
    }
}

/// Overlaying local-storage fields over inherited input fields keeps each
/// name exactly once: when both lists hold each name at most once, the
/// result holds each name at most once, and each local-storage field
/// appears in it as itself — so a local field sharing a name with an
/// inherited field has replaced it, keeping the local type.
pub proof fn lemma_overlay_dedup(base: Seq<FieldView>, locals: Seq<FieldView>, k: int)
    requires
        spec_unique_names(base),
        spec_unique_names(locals),
        0 <= k < locals.len(),
    ensures
        spec_unique_names(spec_overlay(base, locals)),
        exists|i: int|
            0 <= i < spec_overlay(base, locals).len() && spec_overlay(base, locals)[i]
                == locals[k],
    decreases locals.len(),
{
    let f1 = spec_overlay_one(base, locals[0]);
    lemma_overlay_one_props(base, locals[0]);
    assert(spec_unique_names(locals.skip(1))) by {
        assert forall|a: int, b: int|
            0 <= a < b < locals.skip(1).len() implies locals.skip(1)[a].name
            != locals.skip(1)[b].name by {
            assert(locals.skip(1)[a] == locals[a + 1]);
            assert(locals.skip(1)[b] == locals[b + 1]);
        }
    }
    if k == 0 {
        let i: int = choose|i: int| 0 <= i < f1.len() && f1[i] == locals[0];
        assert forall|j: int| 0 <= j < locals.skip(1).len() implies locals.skip(1)[j].name
            != f1[i].name by {
            assert(locals.skip(1)[j] == locals[j + 1]);
        }
        lemma_overlay_keeps_field(f1, locals.skip(1), i);
        assert(spec_overlay(base, locals) == spec_overlay(f1, locals.skip(1)));
        assert(0 <= i < spec_overlay(base, locals).len() && spec_overlay(base, locals)[i]
            == locals[k]);
    } else {
        assert(locals.skip(1)[k - 1] == locals[k]);
        lemma_overlay_dedup(f1, locals.skip(1), k - 1);
        assert(spec_overlay(base, locals) == spec_overlay(f1, locals.skip(1)));
        let i: int = choose|i: int|
            0 <= i < spec_overlay(f1, locals.skip(1)).len() && spec_overlay(f1, locals.skip(1))[i]
                == locals.skip(1)[k - 1];
        assert(0 <= i < spec_overlay(base, locals).len() && spec_overlay(base, locals)[i]
            == locals[k]);
    }
}

/// The state-level reading: when a state's inherited input fields and its
/// local-storage fields each hold a name at most once, the built variant's
/// field list holds each name exactly once, and every local-storage field
/// stands in it with its own (local) type.
pub proof fn lemma_state_local_storage_wins(s: StateSpecView, m: MachineSpecView, k: int)
    requires
        spec_lower_state(s, m) is Ok,
        spec_unique_names(spec_input_fields(s.state_inputs, false)->Ok_0),
        spec_unique_names(s.local_storage),
        0 <= k < s.local_storage.len(),
    ensures
        spec_unique_names(spec_lower_state(s, m)->Ok_0.variant.fields),
        exists|i: int|
            0 <= i < spec_lower_state(s, m)->Ok_0.variant.fields.len() && spec_lower_state(
                s,
                m,
            )->Ok_0.variant.fields[i] == s.local_storage[k],
{
    let base = spec_input_fields(s.state_inputs, false)->Ok_0;
    lemma_overlay_dedup(base, s.local_storage, k);
    let fields = spec_lower_state(s, m)->Ok_0.variant.fields;
    assert(fields == spec_overlay(base, s.local_storage));
    let i: int = choose|i: int|
        0 <= i < spec_overlay(base, s.local_storage).len() && spec_overlay(base, s.local_storage)[i]
            == s.local_storage[k];
    assert(0 <= i < fields.len() && fields[i] == s.local_storage[k]);
}

// ---- linking ----

/// For a state declaring superstate `p`: when no superstate named `p`
/// exists, linking fails with an unresolved-superstate error naming `p`;
/// when it exists and linking succeeds, the state's superstate pattern is
/// exactly that superstate's pattern.
pub proof fn lemma_superstate_reference_resolution(
    st: StateView,
    decl: StateSpecView,
    sups: Seq<(Seq<char>, SuperstateView)>,
    acts: Seq<(Seq<char>, ActionView)>,
    p: Seq<char>,
)
    requires
        decl.superstate == Option::Some(p),
    ensures
        spec_lookup_superstate(sups, p) is None ==> spec_link_state(st, decl, sups, acts)
            == Result::<StateView, LowerErrorView>::Err(
            LowerErrorView::Unresolved(UnresolvedReferenceView::Superstate(p)),
        ),
        spec_lookup_superstate(sups, p) matches Option::Some(sup) ==> (spec_link_state(
            st,
            decl,
            sups,
            acts,
        ) matches Result::Ok(linked) ==> linked.superstate_pat == Option::Some(sup.pat)),
{
}

// ---- execution mode ----

/// The machine is awaitable exactly when some state, superstate, or
/// action handler is asynchronous, and blocking exactly when none is: one
/// asynchronous handler anywhere decides the whole machine's mode.
pub proof fn lemma_mode_resolution(
    sts: Seq<StateSpecView>,
    sups: Seq<SuperstateSpecView>,
    acts: Seq<ActionSpecView>,
)
    ensures
        (spec_mode(sts, sups, acts) == Mode::Awaitable) <==> ((exists|i: int|
            0 <= i < sts.len() && sts[i].is_async) || (exists|i: int|
            0 <= i < sups.len() && sups[i].is_async) || (exists|i: int|
            0 <= i < acts.len() && acts[i].is_async)),
        (spec_mode(sts, sups, acts) == Mode::Blocking) <==> ((forall|i: int|
            0 <= i < sts.len() ==> !sts[i].is_async) && (forall|i: int|
            0 <= i < sups.len() ==> !sups[i].is_async) && (forall|i: int|
            0 <= i < acts.len() ==> !acts[i].is_async)),
{
}

// ---- generic partitioning ----

/// Soundness of the filter: every generic parameter a generated type
/// keeps is allowed to propagate, is referenced by some variant's field
/// types, and is one of the shared-storage type's own parameters.
pub proof fn lemma_filter_generics_sound(
    entries: Seq<GenericEntryView>,
    allowed: Seq<Seq<char>>,
    referenced: Seq<Seq<char>>,
    i: int,
)
    requires
        0 <= i < spec_filter_generics(entries, allowed, referenced).params.len(),
    ensures
        seq_contains_str(allowed, spec_filter_generics(entries, allowed, referenced).params[i].name),
        seq_contains_str(
            referenced,
            spec_filter_generics(entries, allowed, referenced).params[i].name,
        ),
        exists|j: int|
            0 <= j < entries.len() && entries[j].param == spec_filter_generics(
                entries,
                allowed,
                referenced,
            ).params[i],
    decreases entries.len(),
{
    if entries.len() == 0 {
    } else {
        let f = spec_filter_generics(entries.drop_last(), allowed, referenced);
        let e = entries.last();
        if seq_contains_str(allowed, e.param.name) && seq_contains_str(referenced, e.param.name) {
            if i < f.params.len() {
                lemma_filter_generics_sound(entries.drop_last(), allowed, referenced, i);
                let j: int = choose|j: int|
                    0 <= j < entries.drop_last().len() && entries.drop_last()[j].param == f.params[i];
                assert(entries[j] == entries.drop_last()[j]);
            } else {
                assert(spec_filter_generics(entries, allowed, referenced).params[i] == e.param);
                assert(entries[entries.len() - 1] == e);
            }
        } else {
            lemma_filter_generics_sound(entries.drop_last(), allowed, referenced, i);
            let j: int = choose|j: int|
                0 <= j < entries.drop_last().len() && entries.drop_last()[j].param == f.params[i];
            assert(entries[j] == entries.drop_last()[j]);
        }
    }
}

/// Completeness of the filter: no allowed and referenced parameter is
/// dropped — each such entry's parameter stands in the filtered list.
pub proof fn lemma_filter_generics_complete(
    entries: Seq<GenericEntryView>,
    allowed: Seq<Seq<char>>,
    referenced: Seq<Seq<char>>,
    j: int,
)
    requires
        0 <= j < entries.len(),
        seq_contains_str(allowed, entries[j].param.name),
        seq_contains_str(referenced, entries[j].param.name),
    ensures
        exists|i: int|
            0 <= i < spec_filter_generics(entries, allowed, referenced).params.len()
                && spec_filter_generics(entries, allowed, referenced).params[i]
                == entries[j].param,
    decreases entries.len(),
{
    let f = spec_filter_generics(entries.drop_last(), allowed, referenced);
    let r = spec_filter_generics(entries, allowed, referenced);
    let e = entries.last();
    if j == entries.len() - 1 {
        assert(r.params[f.params.len() as int] == e.param);
    } else {
        assert(entries.drop_last()[j] == entries[j]);
        lemma_filter_generics_complete(entries.drop_last(), allowed, referenced, j);
        let i: int = choose|i: int| 0 <= i < f.params.len() && f.params[i] == entries[j].param;
        if seq_contains_str(allowed, e.param.name) && seq_contains_str(referenced, e.param.name) {
            assert(r.params[i] == f.params[i]);
        } else {
            assert(r.params == f.params);
        }
    }
}

/// The parameters of a parameter table, in their declaration order.
pub open spec fn spec_entry_params(entries: Seq<GenericEntryView>) -> Seq<GenericParamView> {
    entries.map_values(|e: GenericEntryView| e.param)
}

/// Whether one parameter passes the filter: allowed to propagate and
/// referenced by some variant's field types.
pub open spec fn spec_kept_param(allowed: Seq<Seq<char>>, referenced: Seq<Seq<char>>) -> spec_fn(
    GenericParamView,
) -> bool {
    |p: GenericParamView| seq_contains_str(allowed, p.name) && seq_contains_str(referenced, p.name)
}

/// Order preservation: the filtered parameter list is exactly the shared
/// type's parameter list filtered by the propagation test, so the kept
/// parameters stand in their original declaration order.
pub proof fn lemma_filter_generics_order(
    entries: Seq<GenericEntryView>,
    allowed: Seq<Seq<char>>,
    referenced: Seq<Seq<char>>,
)
    ensures
        spec_filter_generics(entries, allowed, referenced).params == spec_entry_params(
            entries,
        ).filter(spec_kept_param(allowed, referenced)),
    decreases entries.len(),
{
    reveal(Seq::filter);
    let pred = spec_kept_param(allowed, referenced);
    if entries.len() == 0 {
        assert(spec_entry_params(entries) =~= Seq::<GenericParamView>::empty());
        assert(spec_filter_generics(entries, allowed, referenced).params =~= spec_entry_params(
            entries,
        ).filter(pred));
    } else {
        lemma_filter_generics_order(entries.drop_last(), allowed, referenced);
        assert(spec_entry_params(entries).drop_last() =~= spec_entry_params(entries.drop_last()));
        assert(spec_entry_params(entries).last() == entries.last().param);
        assert(pred(entries.last().param) == (seq_contains_str(allowed, entries.last().param.name)
            && seq_contains_str(referenced, entries.last().param.name)));
        assert(spec_entry_params(entries).len() == entries.len());
        assert(spec_entry_params(entries).drop_last().filter(pred) == spec_entry_params(
            entries.drop_last(),
        ).filter(pred));
        if pred(entries.last().param) {
            assert(spec_entry_params(entries).filter(pred) == spec_entry_params(
                entries.drop_last(),
            ).filter(pred).push(entries.last().param));
            assert(spec_filter_generics(entries, allowed, referenced).params
                == spec_filter_generics(entries.drop_last(), allowed, referenced).params.push(
                entries.last().param,
            ));
        } else {
            assert(spec_entry_params(entries).filter(pred) == spec_entry_params(
                entries.drop_last(),
            ).filter(pred));
            assert(spec_filter_generics(entries, allowed, referenced).params
                == spec_filter_generics(entries.drop_last(), allowed, referenced).params);
        }
    }
}

// ---- determinism ----

/// The pass is a pure function of the model: because `lower`'s contract
/// fixes its result's view as `spec_lower` of the model's view, two runs
/// on structurally equal models produce structurally identical output.
pub proof fn lemma_lower_deterministic(a: ModelView, b: ModelView)
    requires
        a == b,
    ensures
        spec_lower(a) == spec_lower(b),
{
}

// ---- assembled machine ----

/// What the assembled machine-level output carries over unchanged from
/// the model: configuration is never rewritten by the pass.
pub proof fn lemma_machine_carries_configuration(m: ModelView)
    ensures
        crate::lower::spec_state_machine(m).initial_state == m.machine.initial_state,
        crate::lower::spec_state_machine(m).shared_storage_type == m.machine.shared_storage_type,
        crate::lower::spec_state_machine(m).visibility == m.machine.visibility,
        crate::lower::spec_state_machine(m).event_ident == m.machine.event_ident,
        crate::lower::spec_state_machine(m).context_ident == m.machine.context_ident,
        crate::lower::spec_state_machine(m).mode == spec_mode(m.states, m.superstates, m.actions),
{
}

} // verus!
