//! The whole lowering pass: build every descriptor, link the
//! cross-references, infer the event and context types, resolve the mode,
//! partition the generics, and assemble the final representation. Any
//! failure aborts the pass with no partial output.

use vstd::prelude::*;

use crate::generics::{
    any_superstate_inputs, filter_generics, map_generics, scope_lifetime_param,
    spec_any_superstate_inputs, spec_filter_generics, spec_generics_table, spec_scope_lifetime_param,
    spec_state_candidates, spec_superstate_candidates, union_state_candidates,
    union_superstate_candidates,
};
use crate::infer::{
    infer_candidate, resolve_mode, resolve_type, spec_handler_args, spec_mode, spec_resolved_type,
    spec_scan_candidates,
};
use crate::ir::{
    result_view, FilteredGenericsView, Ir, IrView, LowerError, LowerErrorView, StateMachine,
    StateMachineView,
};
use crate::link::{link_states, link_superstates, spec_link_states, spec_link_superstates};
use crate::model::{
    duplicate_opt_string, duplicate_strings, params_view, MachineSpecView, Model, ModelView,
    StateSpecView, SuperstateSpecView,
};
use crate::variant::{
    build_actions, build_states, build_superstates, spec_built_actions, spec_built_states,
    spec_built_superstates,
};

verus! {

/// The machine-level part of the lowered output.
pub open spec fn spec_state_machine(m: ModelView) -> StateMachineView {
    StateMachineView {
        initial_state: m.machine.initial_state,
        shared_storage_type: m.machine.shared_storage_type,
        shared_storage_generics: m.machine.shared_storage_generics,
        event_type: spec_resolved_type(
            m.machine.event_type,
            spec_scan_candidates(
                spec_handler_args(m.states, m.superstates, false),
                m.machine.event_ident,
            ),
        ),
        context_type: spec_resolved_type(
            m.machine.context_type,
            spec_scan_candidates(
                spec_handler_args(m.states, m.superstates, true),
                m.machine.context_ident,
            ),
        ),
        state_ident: m.machine.state_ident,
        state_derives: m.machine.state_derives,
        state_generics: spec_state_generics(m),
        superstate_ident: m.machine.superstate_ident,
        superstate_derives: m.machine.superstate_derives,
        superstate_generics: spec_superstate_generics(m),
        on_transition: m.machine.on_transition,
        on_dispatch: m.machine.on_dispatch,
        visibility: m.machine.visibility,
        event_ident: m.machine.event_ident,
        context_ident: m.machine.context_ident,
        mode: spec_mode(m.states, m.superstates, m.actions),
    }
}

/// The state type's filtered generics: the shared-storage parameters both
/// allowed to propagate and referenced by some state field.
pub open spec fn spec_state_generics(m: ModelView) -> FilteredGenericsView {
    spec_filter_generics(
        spec_generics_table(m.machine.shared_storage_generics),
        m.machine.candidate_generics,
        spec_state_candidates(m.states),
    )
}

/// The superstate type's filtered generics, with the synthetic scope
/// lifetime appended exactly when some superstate borrows into a state.
pub open spec fn spec_superstate_generics(m: ModelView) -> FilteredGenericsView {
    let f = spec_filter_generics(
        spec_generics_table(m.machine.shared_storage_generics),
        m.machine.candidate_generics,
        spec_superstate_candidates(m.superstates),
    );
    if spec_any_superstate_inputs(m.superstates) {
        FilteredGenericsView {
            params: f.params.push(spec_scope_lifetime_param()),
            predicates: f.predicates,
        }
    } else {
        f
    }
}

/// The whole pass: descriptors built in model order, cross-references
/// linked, types and mode resolved, generics partitioned; the first
/// failure aborts everything.
pub open spec fn spec_lower(m: ModelView) -> Result<IrView, LowerErrorView> {
    match spec_built_states(m.states, m.machine) {
        Result::Err(e) => Result::Err(e),
        Result::Ok(built_sts) => match spec_built_superstates(m.superstates, m.machine) {
            Result::Err(e) => Result::Err(e),
            Result::Ok(built_sups) => match spec_built_actions(m.actions, m.machine) {
                Result::Err(e) => Result::Err(e),
                Result::Ok(acts) => match spec_link_states(built_sts, m.states, built_sups, acts) {
                    Result::Err(e) => Result::Err(e),
                    Result::Ok(sts) => match spec_link_superstates(
                        built_sups,
                        m.superstates,
                        built_sups,
                        acts,
                    ) {
                        Result::Err(e) => Result::Err(e),
                        Result::Ok(sups) => Result::Ok(
                            IrView {
                                item_impl: m.item_impl,
                                state_machine: spec_state_machine(m),
                                states: sts,
                                superstates: sups,
                            },
                        ),
                    },
                },
            },
        },
    }
}

proof fn lemma_built_states_len(decls: Seq<StateSpecView>, m: MachineSpecView)
    requires
        spec_built_states(decls, m) is Ok,
    ensures
        spec_built_states(decls, m)->Ok_0.len() == decls.len(),
    decreases decls.len(),
{
    if decls.len() == 0 {
    } else {
        lemma_built_states_len(decls.drop_last(), m);
    }
}

proof fn lemma_built_superstates_len(decls: Seq<SuperstateSpecView>, m: MachineSpecView)
    requires
        spec_built_superstates(decls, m) is Ok,
    ensures
        spec_built_superstates(decls, m)->Ok_0.len() == decls.len(),
    decreases decls.len(),
{
    if decls.len() == 0 {
    } else {
        lemma_built_superstates_len(decls.drop_last(), m);
    }
}

/// Lowers one whole model to its final representation, or stops with the
/// first fatal diagnostic. The pass is a pure function of the model: equal
/// models lower to structurally identical output.
pub fn lower(model: &Model) -> (r: Result<Ir, LowerError>)
    ensures
        result_view(r) == spec_lower(model@),
{
    let built_states = match build_states(&model.states, &model.machine) {
        Result::Ok(v) => v,
        Result::Err(e) => {
            return Result::Err(e);
        },
    };
    let built_superstates = match build_superstates(&model.superstates, &model.machine) {
        Result::Ok(v) => v,
        Result::Err(e) => {
            return Result::Err(e);
        },
    };
    let actions = match build_actions(&model.actions, &model.machine) {
        Result::Ok(v) => v,
        Result::Err(e) => {
            return Result::Err(e);
        },
    };
    proof {
        lemma_built_states_len(model@.states, model@.machine);
        lemma_built_superstates_len(model@.superstates, model@.machine);
    }
    let states = match link_states(&built_states, &model.states, &built_superstates, &actions) {
        Result::Ok(v) => v,
        Result::Err(e) => {
            return Result::Err(e);
        },
    };
    let superstates = match link_superstates(&built_superstates, &model.superstates, &actions) {
        Result::Ok(v) => v,
        Result::Err(e) => {
            return Result::Err(e);
        },
    };
    let event_candidate = infer_candidate(&model.states, &model.superstates, &model.machine, false);
    let event_type = resolve_type(&model.machine.event_type, event_candidate);
    let context_candidate = infer_candidate(&model.states, &model.superstates, &model.machine, true);
    let context_type = resolve_type(&model.machine.context_type, context_candidate);
    let mode = resolve_mode(&model.states, &model.superstates, &model.actions);
    let table = map_generics(&model.machine.shared_storage_generics);
    let state_refs = union_state_candidates(&model.states);
    let superstate_refs = union_superstate_candidates(&model.superstates);
    let state_generics = filter_generics(&table, &model.machine.candidate_generics, &state_refs);
    let mut superstate_generics = filter_generics(
        &table,
        &model.machine.candidate_generics,
        &superstate_refs,
    );
    if any_superstate_inputs(&model.superstates) {
        let ghost f = superstate_generics@;
        superstate_generics.params.push(scope_lifetime_param());
        proof {
            assert(params_view(superstate_generics.params@) =~= f.params.push(
                spec_scope_lifetime_param(),
            ));
            assert(superstate_generics@ =~= spec_superstate_generics(model@));
        }
    }
    let machine_ir = StateMachine {
        initial_state: model.machine.initial_state.clone(),
        shared_storage_type: model.machine.shared_storage_type.clone(),
        shared_storage_generics: model.machine.shared_storage_generics.duplicate(),
        event_type,
        context_type,
        state_ident: model.machine.state_ident.clone(),
        state_derives: duplicate_strings(&model.machine.state_derives),
        state_generics,
        superstate_ident: model.machine.superstate_ident.clone(),
        superstate_derives: duplicate_strings(&model.machine.superstate_derives),
        superstate_generics,
        on_transition: duplicate_opt_string(&model.machine.on_transition),
        on_dispatch: duplicate_opt_string(&model.machine.on_dispatch),
        visibility: model.machine.visibility.clone(),
        event_ident: model.machine.event_ident.clone(),
        context_ident: model.machine.context_ident.clone(),
        mode,
    };
    proof {
        assert(machine_ir@ =~= spec_state_machine(model@));
    }
    let ir = Ir {
        item_impl: model.item_impl.clone(),
        state_machine: machine_ir,
        states,
        superstates,
    };
    proof {
        let expected = spec_lower(model@);
        assert(expected is Ok);
        assert(ir@ =~= expected->Ok_0);
    }
    Result::Ok(ir)
}

} // verus!
