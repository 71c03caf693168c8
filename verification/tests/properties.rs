//! The lowering pass on targeted inputs: name conversion, field
//! deduplication, unresolved references, type inference, mode resolution,
//! and generic partitioning.

use hsm_lower::generics::scope_lifetime_param;
use hsm_lower::ir::{ActionSlot, LowerError, Mode};
use hsm_lower::ir::UnresolvedReference;
use hsm_lower::lower::lower;
use hsm_lower::model::{
    ActionSpec, Arg, Binding, FieldDef, GenericParamDef, GenericsSpec, MachineSpec, Model,
    ParamKind, PredicateDef, StateSpec, SuperstateSpec, Ty, TypedArg,
};
use hsm_lower::name::snake_to_pascal;
use hsm_lower::variant::lower_state;

fn s(x: &str) -> String {
    String::from(x)
}

fn machine() -> MachineSpec {
    MachineSpec {
        initial_state: s("State::idle()"),
        shared_storage_type: s("Player"),
        shared_storage_ident: s("Player"),
        shared_storage_generics: GenericsSpec { params: Vec::new(), predicates: Vec::new() },
        candidate_generics: Vec::new(),
        event_type: None,
        context_type: None,
        state_ident: s("State"),
        state_derives: Vec::new(),
        superstate_ident: s("Superstate"),
        superstate_derives: Vec::new(),
        on_transition: None,
        on_dispatch: None,
        visibility: s("pub"),
        event_ident: s("input"),
        context_ident: s("context"),
    }
}

fn plain_state(name: &str) -> StateSpec {
    StateSpec {
        handler_name: s(name),
        superstate: None,
        entry_action: None,
        exit_action: None,
        local_storage: Vec::new(),
        inputs: vec![Arg::Receiver],
        event_arg: None,
        context_arg: None,
        state_inputs: Vec::new(),
        candidate_generics: Vec::new(),
        is_async: false,
    }
}

fn plain_superstate(name: &str) -> SuperstateSpec {
    SuperstateSpec {
        handler_name: s(name),
        superstate: None,
        entry_action: None,
        exit_action: None,
        local_storage: Vec::new(),
        inputs: vec![Arg::Receiver],
        event_arg: None,
        context_arg: None,
        state_inputs: Vec::new(),
        candidate_generics: Vec::new(),
        is_async: false,
    }
}

fn plain_action(name: &str) -> ActionSpec {
    ActionSpec { handler_name: s(name), inputs: vec![Arg::Receiver], is_async: false }
}

fn model_of(states: Vec<StateSpec>, superstates: Vec<SuperstateSpec>, actions: Vec<ActionSpec>) -> Model {
    Model {
        item_impl: s("impl Player { }"),
        machine: machine(),
        states,
        superstates,
        actions,
    }
}

#[test]
fn pascal_case_of_snake_identifiers() {
    assert_eq!(snake_to_pascal("on"), "On");
    assert_eq!(snake_to_pascal("enter_on"), "EnterOn");
    assert_eq!(snake_to_pascal("very_long_handler_name"), "VeryLongHandlerName");
    assert_eq!(snake_to_pascal("a__b"), "AB");
    assert_eq!(snake_to_pascal("_leading"), "Leading");
    assert_eq!(snake_to_pascal("trailing_"), "Trailing");
    assert_eq!(snake_to_pascal(""), "");
    assert_ne!(snake_to_pascal("on"), "on");
}

#[test]
fn local_storage_replaces_inherited_field() {
    let m = machine();
    let mut st = plain_state("on");
    st.state_inputs = vec![
        TypedArg {
            binding: Binding::Name(s("led")),
            ty: Ty::Reference { is_mut: true, scoped: false, inner: s("bool") },
        },
        TypedArg {
            binding: Binding::Name(s("counter")),
            ty: Ty::Reference { is_mut: true, scoped: false, inner: s("usize") },
        },
    ];
    st.local_storage = vec![FieldDef { name: s("led"), ty: Ty::Plain(s("i32")) }];

    let built = lower_state(&st, &m).unwrap();
    let fields = built.variant.fields;
    assert_eq!(fields.len(), 2);
    assert_eq!(fields[0], FieldDef { name: s("led"), ty: Ty::Plain(s("i32")) });
    assert_eq!(fields[1], FieldDef { name: s("counter"), ty: Ty::Plain(s("usize")) });
    let led_count = fields.iter().filter(|f| f.name == "led").count();
    assert_eq!(led_count, 1);
}

#[test]
fn local_only_field_is_appended() {
    let m = machine();
    let mut st = plain_state("on");
    st.state_inputs = vec![TypedArg {
        binding: Binding::Name(s("led")),
        ty: Ty::Reference { is_mut: true, scoped: false, inner: s("bool") },
    }];
    st.local_storage = vec![FieldDef { name: s("retries"), ty: Ty::Plain(s("u8")) }];

    let built = lower_state(&st, &m).unwrap();
    assert_eq!(built.variant.fields.len(), 2);
    assert_eq!(built.variant.fields[1].name, "retries");
    assert_eq!(built.pat.fields, vec![s("led"), s("retries")]);
}

#[test]
fn missing_superstate_fails_lowering() {
    let mut st = plain_state("on");
    st.superstate = Some(s("missing"));
    let model = model_of(vec![st], Vec::new(), Vec::new());

    let err = lower(&model).unwrap_err();
    assert_eq!(err, LowerError::Unresolved(UnresolvedReference::Superstate(s("missing"))));
}

#[test]
fn missing_entry_action_fails_lowering() {
    let mut st = plain_state("on");
    st.entry_action = Some(s("nope"));
    let model = model_of(vec![st], Vec::new(), vec![plain_action("enter_other")]);

    let err = lower(&model).unwrap_err();
    assert_eq!(
        err,
        LowerError::Unresolved(UnresolvedReference::Action(s("nope"), ActionSlot::Entry))
    );
}

#[test]
fn missing_exit_action_fails_lowering() {
    let mut sup = plain_superstate("playing");
    sup.exit_action = Some(s("gone"));
    let model = model_of(Vec::new(), vec![sup], Vec::new());

    let err = lower(&model).unwrap_err();
    assert_eq!(
        err,
        LowerError::Unresolved(UnresolvedReference::Action(s("gone"), ActionSlot::Exit))
    );
}

#[test]
fn resolved_superstate_binds_its_pattern() {
    let mut st = plain_state("on");
    st.superstate = Some(s("playing"));
    let mut sup = plain_superstate("playing");
    sup.state_inputs = vec![TypedArg {
        binding: Binding::Name(s("led")),
        ty: Ty::Reference { is_mut: true, scoped: false, inner: s("bool") },
    }];
    let model = model_of(vec![st], vec![sup], Vec::new());

    let ir = lower(&model).unwrap();
    let (name, state) = &ir.states[0];
    assert_eq!(name, "on");
    let pat = state.superstate_pat.as_ref().unwrap();
    assert_eq!(pat.enum_ident, "Superstate");
    assert_eq!(pat.variant, "Playing");
    assert_eq!(pat.fields, vec![s("led")]);
}

#[test]
fn non_name_binding_is_rejected() {
    let m = machine();
    let mut st = plain_state("on");
    st.state_inputs = vec![TypedArg {
        binding: Binding::Other,
        ty: Ty::Reference { is_mut: true, scoped: false, inner: s("bool") },
    }];

    let err = lower_state(&st, &m).unwrap_err();
    assert_eq!(err, LowerError::UnsupportedPattern);
}

#[test]
fn non_reference_input_is_rejected() {
    let m = machine();
    let mut st = plain_state("on");
    st.state_inputs = vec![TypedArg { binding: Binding::Name(s("led")), ty: Ty::Plain(s("bool")) }];

    let err = lower_state(&st, &m).unwrap_err();
    assert_eq!(err, LowerError::MalformedParameter(s("led")));
}

#[test]
fn event_type_inferred_from_handler_parameter() {
    let mut a = plain_state("idle");
    let mut b = plain_state("running");
    a.event_arg = Some(TypedArg {
        binding: Binding::Name(s("input")),
        ty: Ty::Reference { is_mut: false, scoped: false, inner: s("Event") },
    });
    b.event_arg = None;
    let model = model_of(vec![a, b], Vec::new(), Vec::new());

    let ir = lower(&model).unwrap();
    assert_eq!(ir.state_machine.event_type, Ty::Plain(s("Event")));
    assert_eq!(ir.state_machine.context_type, Ty::Unit);
}

#[test]
fn later_event_parameter_wins() {
    let mut a = plain_state("idle");
    a.event_arg = Some(TypedArg {
        binding: Binding::Name(s("input")),
        ty: Ty::Reference { is_mut: false, scoped: false, inner: s("Early") },
    });
    let mut sup = plain_superstate("playing");
    sup.event_arg = Some(TypedArg {
        binding: Binding::Name(s("input")),
        ty: Ty::Reference { is_mut: false, scoped: false, inner: s("Late") },
    });
    let model = model_of(vec![a], vec![sup], Vec::new());

    let ir = lower(&model).unwrap();
    assert_eq!(ir.state_machine.event_type, Ty::Plain(s("Late")));
}

#[test]
fn explicit_event_type_takes_precedence() {
    let mut a = plain_state("idle");
    a.event_arg = Some(TypedArg {
        binding: Binding::Name(s("input")),
        ty: Ty::Reference { is_mut: false, scoped: false, inner: s("Inferred") },
    });
    let mut model = model_of(vec![a], Vec::new(), Vec::new());
    model.machine.event_type = Some(Ty::Plain(s("Declared")));

    let ir = lower(&model).unwrap();
    assert_eq!(ir.state_machine.event_type, Ty::Plain(s("Declared")));
}

#[test]
fn mismatched_parameter_name_is_ignored() {
    let mut a = plain_state("idle");
    a.event_arg = Some(TypedArg {
        binding: Binding::Name(s("event")),
        ty: Ty::Reference { is_mut: false, scoped: false, inner: s("Event") },
    });
    let model = model_of(vec![a], Vec::new(), Vec::new());

    let ir = lower(&model).unwrap();
    assert_eq!(ir.state_machine.event_type, Ty::Unit);
}

#[test]
fn all_synchronous_handlers_give_blocking_mode() {
    let model = model_of(
        vec![plain_state("idle")],
        vec![plain_superstate("playing")],
        vec![plain_action("enter_idle")],
    );
    let ir = lower(&model).unwrap();
    assert_eq!(ir.state_machine.mode, Mode::Blocking);
}

#[test]
fn one_async_action_flips_the_machine() {
    let mut act = plain_action("enter_idle");
    act.is_async = true;
    let model = model_of(
        vec![plain_state("idle")],
        vec![plain_superstate("playing")],
        vec![act],
    );
    let ir = lower(&model).unwrap();
    assert_eq!(ir.state_machine.mode, Mode::Awaitable);
}

#[test]
fn async_state_handler_marks_its_call() {
    let mut st = plain_state("idle");
    st.is_async = true;
    let model = model_of(vec![st], Vec::new(), Vec::new());
    let ir = lower(&model).unwrap();
    assert_eq!(ir.state_machine.mode, Mode::Awaitable);
    assert!(ir.states[0].1.handler_call.is_await);
}

#[test]
fn only_referenced_candidate_generics_survive() {
    let mut model = model_of(vec![plain_state("idle")], Vec::new(), Vec::new());
    model.machine.shared_storage_generics = GenericsSpec {
        params: vec![
            GenericParamDef { kind: ParamKind::TypeParam, name: s("T"), decl: s("T") },
            GenericParamDef { kind: ParamKind::LifetimeParam, name: s("'a"), decl: s("'a") },
            GenericParamDef { kind: ParamKind::ConstParam, name: s("N"), decl: s("const N: usize") },
        ],
        predicates: vec![PredicateDef { target: s("T"), decl: s("T: Clone") }],
    };
    model.machine.candidate_generics = vec![s("T"), s("'a"), s("N")];
    model.states[0].candidate_generics = vec![s("T")];

    let ir = lower(&model).unwrap();
    let params = &ir.state_machine.state_generics.params;
    assert_eq!(params.len(), 1);
    assert_eq!(params[0].name, "T");
    assert_eq!(ir.state_machine.state_generics.predicates.len(), 1);
    assert_eq!(ir.state_machine.state_generics.predicates[0].decl, "T: Clone");
    assert_eq!(ir.state_machine.superstate_generics.params.len(), 0);
}

#[test]
fn unlisted_candidate_is_dropped() {
    let mut model = model_of(vec![plain_state("idle")], Vec::new(), Vec::new());
    model.machine.shared_storage_generics = GenericsSpec {
        params: vec![GenericParamDef { kind: ParamKind::TypeParam, name: s("T"), decl: s("T") }],
        predicates: Vec::new(),
    };
    model.machine.candidate_generics = Vec::new();
    model.states[0].candidate_generics = vec![s("T")];

    let ir = lower(&model).unwrap();
    assert_eq!(ir.state_machine.state_generics.params.len(), 0);
}

#[test]
fn borrowing_superstate_gains_scope_lifetime() {
    let mut sup = plain_superstate("playing");
    sup.state_inputs = vec![TypedArg {
        binding: Binding::Name(s("led")),
        ty: Ty::Reference { is_mut: true, scoped: false, inner: s("bool") },
    }];
    let model = model_of(Vec::new(), vec![sup], Vec::new());

    let ir = lower(&model).unwrap();
    let params = &ir.state_machine.superstate_generics.params;
    assert_eq!(params.len(), 1);
    assert_eq!(*params.last().unwrap(), scope_lifetime_param());
    assert_eq!(params[0].kind, ParamKind::LifetimeParam);
    assert_eq!(params[0].name, "'sub");

    let field = &ir.superstates[0].1.variant.fields[0];
    assert_eq!(field.ty, Ty::Reference { is_mut: true, scoped: true, inner: s("bool") });
}

#[test]
fn non_borrowing_superstate_gains_no_lifetime() {
    let model = model_of(Vec::new(), vec![plain_superstate("playing")], Vec::new());
    let ir = lower(&model).unwrap();
    assert_eq!(ir.state_machine.superstate_generics.params.len(), 0);
}

#[test]
fn lowering_twice_is_identical() {
    let mut st = plain_state("on");
    st.superstate = Some(s("playing"));
    st.entry_action = Some(s("enter_on"));
    let mut sup = plain_superstate("playing");
    sup.state_inputs = vec![TypedArg {
        binding: Binding::Name(s("led")),
        ty: Ty::Reference { is_mut: true, scoped: false, inner: s("bool") },
    }];
    let model = model_of(vec![st], vec![sup], vec![plain_action("enter_on")]);

    let first = lower(&model).unwrap();
    let second = lower(&model).unwrap();
    assert_eq!(first, second);
}

#[test]
fn action_receiver_is_threaded_first() {
    let mut act = plain_action("enter_on");
    act.inputs = vec![
        Arg::Typed {
            binding: Binding::Name(s("led")),
            ty: Ty::Reference { is_mut: true, scoped: false, inner: s("bool") },
        },
        Arg::Receiver,
    ];
    let model = model_of(Vec::new(), Vec::new(), vec![act]);
    let mut st = plain_state("on");
    st.entry_action = Some(s("enter_on"));
    let model = Model { states: vec![st], ..model };

    let ir = lower(&model).unwrap();
    match &ir.states[0].1.entry_action_call {
        hsm_lower::ir::ActionCall::Bound(call) => {
            assert_eq!(call.args, vec![s("shared_storage"), s("led")]);
        },
        other => panic!("expected a bound call, got {:?}", other),
    }
}
