//! Whole-model scans: inferring the event and context types from handler
//! parameter lists, and resolving the machine's execution mode.

use vstd::prelude::*;

use crate::ir::Mode;
use crate::model::{
    opt_ty_view, ActionSpec, ActionSpecView, Binding, BindingView, MachineSpec, StateSpec,
    StateSpecView, SuperstateSpec, SuperstateSpecView, Ty, TyView, TypedArg, TypedArgView,
};

verus! {

// ---- event/context type inference ----

/// The type one handler parameter contributes as a candidate: it must be
/// bound to the configured identifier and declared as a reference, and it
/// contributes the referenced type.
pub open spec fn spec_candidate_from_arg(arg: Option<TypedArgView>, want: Seq<char>) -> Option<
    TyView,
> {
    match arg {
        Option::Some(a) => match a.binding {
            BindingView::Name(n) => if n == want {
                match a.ty {
                    TyView::Reference { inner, .. } => Option::Some(TyView::Plain(inner)),
                    TyView::Unit => Option::None,
                    TyView::Plain(_) => Option::None,
                }
            } else {
                Option::None
            },
            BindingView::Other => Option::None,
        },
        Option::None => Option::None,
    }
}

/// The winning candidate of a whole scan: the last contributing parameter
/// wins when handlers disagree.
pub open spec fn spec_scan_candidates(args: Seq<Option<TypedArgView>>, want: Seq<char>) -> Option<
    TyView,
>
    decreases args.len(),
{
    if args.len() == 0 {
        Option::None
    } else {
        match spec_candidate_from_arg(args.last(), want) {
            Option::Some(t) => Option::Some(t),
            Option::None => spec_scan_candidates(args.drop_last(), want),
        }
    }
}

/// The event (or, with `from_context`, the context) parameters of every
/// state and superstate handler, in model order: the sequence the scan
/// walks.
pub open spec fn spec_handler_args(
    sts: Seq<StateSpecView>,
    sups: Seq<SuperstateSpecView>,
    from_context: bool,
) -> Seq<Option<TypedArgView>> {
    sts.map_values(
        |s: StateSpecView| if from_context {
            s.context_arg
        } else {
            s.event_arg
        },
    ) + sups.map_values(
        |s: SuperstateSpecView| if from_context {
            s.context_arg
        } else {
            s.event_arg
        },
    )
}

fn candidate_from_arg(arg: &Option<TypedArg>, want: &String) -> (r: Option<Ty>)
    ensures
        opt_ty_view(r) == spec_candidate_from_arg(crate::model::opt_typed_arg_view(*arg), want@),
{
    match arg {
        Option::None => Option::None,
        Option::Some(a) => match &a.binding {
            Binding::Name(n) => if *n == *want {
                match &a.ty {
                    Ty::Reference { inner, .. } => Option::Some(Ty::Plain(inner.clone())),
                    Ty::Unit => Option::None,
                    Ty::Plain(_) => Option::None,
                }
            } else {
                Option::None
            },
            Binding::Other => Option::None,
        },
    }
}

/// Scans every state and superstate handler for a parameter bound to the
/// configured identifier (the event's, or with `from_context` the
/// context's) and returns the referenced type of the last one found.
pub fn infer_candidate(
    states: &Vec<StateSpec>,
    superstates: &Vec<SuperstateSpec>,
    machine: &MachineSpec,
    from_context: bool,
) -> (r: Option<Ty>)
    ensures
        opt_ty_view(r) == spec_scan_candidates(
            spec_handler_args(
                crate::model::state_specs_view(states@),
                crate::model::superstate_specs_view(superstates@),
                from_context,
            ),
            if from_context {
                machine.context_ident@
            } else {
                machine.event_ident@
            },
        ),
{
    let ghost cargs = spec_handler_args(
        crate::model::state_specs_view(states@),
        crate::model::superstate_specs_view(superstates@),
        from_context,
    );
    let ghost want = if from_context {
        machine.context_ident@
    } else {
        machine.event_ident@
    };
    let want_ident = if from_context {
        &machine.context_ident
    } else {
        &machine.event_ident
    };
    let mut cand: Option<Ty> = Option::None;
    let mut i: usize = 0;
    proof {
        assert(cargs.take(0) =~= Seq::<Option<TypedArgView>>::empty());
    }
    while i < states.len()
        invariant
            i <= states@.len(),
            cargs == spec_handler_args(
                crate::model::state_specs_view(states@),
                crate::model::superstate_specs_view(superstates@),
                from_context,
            ),
            cargs.len() == states@.len() + superstates@.len(),
            want == (if from_context {
                machine.context_ident@
            } else {
                machine.event_ident@
            }),
            want_ident@ == want,
            opt_ty_view(cand) == spec_scan_candidates(cargs.take(i as int), want),
        decreases states@.len() - i,
    {
        proof {
            assert(cargs.take(i + 1).drop_last() =~= cargs.take(i as int));
            assert(cargs.take(i + 1).last() == cargs[i as int]);
            assert(cargs[i as int] == crate::model::opt_typed_arg_view(
                if from_context {
                    states@[i as int].context_arg
                } else {
                    states@[i as int].event_arg
                },
            ));
        }
        let arg = if from_context {
            &states[i].context_arg
        } else {
            &states[i].event_arg
        };
        match candidate_from_arg(arg, want_ident) {
            Option::Some(t) => {
                cand = Option::Some(t);
            },
            Option::None => {},
        }
        i = i + 1;
    }
    let mut j: usize = 0;
    while j < superstates.len()
        invariant
            j <= superstates@.len(),
            cargs == spec_handler_args(
                crate::model::state_specs_view(states@),
                crate::model::superstate_specs_view(superstates@),
                from_context,
            ),
            cargs.len() == states@.len() + superstates@.len(),
            want == (if from_context {
                machine.context_ident@
            } else {
                machine.event_ident@
            }),
            want_ident@ == want,
            opt_ty_view(cand) == spec_scan_candidates(
                cargs.take(states@.len() + j as int),
                want,
            ),
        decreases superstates@.len() - j,
    {
        let ghost n: int = states@.len() + j as int;
        proof {
            assert(cargs.take(n + 1).drop_last() =~= cargs.take(n));
            assert(cargs.take(n + 1).last() == cargs[n]);
            assert(cargs[n] == crate::model::opt_typed_arg_view(
                if from_context {
                    superstates@[j as int].context_arg
                } else {
                    superstates@[j as int].event_arg
                },
            ));
        }
        let arg = if from_context {
            &superstates[j].context_arg
        } else {
            &superstates[j].event_arg
        };
        match candidate_from_arg(arg, want_ident) {
            Option::Some(t) => {
                cand = Option::Some(t);
            },
            Option::None => {},
        }
        j = j + 1;
    }
    proof {
        assert(cargs.take(cargs.len() as int) =~= cargs);
    }
    cand
}

/// What a resolved type is: the explicit machine-level declaration when
/// present, else the inferred candidate, else the unit type.
pub open spec fn spec_resolved_type(explicit: Option<TyView>, candidate: Option<TyView>) -> TyView {
    match explicit {
        Option::Some(t) => t,
        Option::None => match candidate {
            Option::Some(t) => t,
            Option::None => TyView::Unit,
        },
    }
}

/// Resolves the event or context type from the explicit declaration and
/// the inferred candidate.
pub fn resolve_type(explicit: &Option<Ty>, candidate: Option<Ty>) -> (r: Ty)
    ensures
        r@ == spec_resolved_type(opt_ty_view(*explicit), opt_ty_view(candidate)),
{
    match explicit {
        Option::Some(t) => t.duplicate(),
        Option::None => match candidate {
            Option::Some(t) => t,
            Option::None => Ty::Unit,
        },
    }
}

// ---- execution mode ----

/// The machine's mode: awaitable as soon as any state, superstate, or
/// action handler is asynchronous; blocking only when none is.
pub open spec fn spec_mode(
    sts: Seq<StateSpecView>,
    sups: Seq<SuperstateSpecView>,
    acts: Seq<ActionSpecView>,
) -> Mode {
    if (exists|i: int| 0 <= i < sts.len() && sts[i].is_async) || (exists|i: int|
        0 <= i < sups.len() && sups[i].is_async) || (exists|i: int|
        0 <= i < acts.len() && acts[i].is_async) {
        Mode::Awaitable
    } else {
        Mode::Blocking
    }
}

/// Resolves the machine's execution mode.
pub fn resolve_mode(
    states: &Vec<StateSpec>,
    superstates: &Vec<SuperstateSpec>,
    actions: &Vec<ActionSpec>,
) -> (r: Mode)
    ensures
        r == spec_mode(
            crate::model::state_specs_view(states@),
            crate::model::superstate_specs_view(superstates@),
            crate::model::action_specs_view(actions@),
        ),
{
    let ghost sts = crate::model::state_specs_view(states@);
    let ghost sups = crate::model::superstate_specs_view(superstates@);
    let ghost acts = crate::model::action_specs_view(actions@);
    let mut found: bool = false;
    let mut i: usize = 0;
    while i < states.len()
        invariant
            i <= states@.len(),
            sts == crate::model::state_specs_view(states@),
            found == exists|k: int| 0 <= k < i && sts[k].is_async,
        decreases states@.len() - i,
    {
        if states[i].is_async {
            proof {
                assert(sts[i as int].is_async);
            }
            found = true;
        }
        i = i + 1;
    }
    let mut j: usize = 0;
    while j < superstates.len()
        invariant
            j <= superstates@.len(),
            sts == crate::model::state_specs_view(states@),
            sups == crate::model::superstate_specs_view(superstates@),
            found == ((exists|k: int| 0 <= k < sts.len() && sts[k].is_async) || (exists|k: int|
                0 <= k < j && sups[k].is_async)),
        decreases superstates@.len() - j,
    {
        if superstates[j].is_async {
            proof {
                assert(sups[j as int].is_async);
            }
            found = true;
        }
        j = j + 1;
    }
    let mut k: usize = 0;
    while k < actions.len()
        invariant
            k <= actions@.len(),
            sts == crate::model::state_specs_view(states@),
            sups == crate::model::superstate_specs_view(superstates@),
            acts == crate::model::action_specs_view(actions@),
            found == ((exists|m: int| 0 <= m < sts.len() && sts[m].is_async) || (exists|m: int|
                0 <= m < sups.len() && sups[m].is_async) || (exists|m: int|
                0 <= m < k && acts[m].is_async)),
        decreases actions@.len() - k,
    {
        if actions[k].is_async {
            proof {
                assert(acts[k as int].is_async);
            }
            found = true;
        }
        k = k + 1;
    }
    if found {
        Mode::Awaitable
    } else {
        Mode::Blocking
    }
}

} // verus!
