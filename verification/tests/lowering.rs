//! The per-handler builders and the whole pass on one concrete machine:
//! a `Blinky` storage with one state `on` under superstate `playing`,
//! entered through action `enter_on`.

use hsm_lower::ir::{Action, ActionCall, CallDef, ConstructorDef, Ir, Mode, PatternDef, State, StateMachine, Superstate, VariantDef};
use hsm_lower::ir::FilteredGenerics;
use hsm_lower::lower::lower;
use hsm_lower::model::{ActionSpec, Arg, Binding, FieldDef, GenericsSpec, MachineSpec, Model, StateSpec, SuperstateSpec, Ty, TypedArg};
use hsm_lower::variant::{lower_action, lower_state, lower_superstate};

fn s(x: &str) -> String {
    String::from(x)
}

fn named_ref(name: &str, inner: &str, is_mut: bool) -> TypedArg {
    TypedArg {
        binding: Binding::Name(s(name)),
        ty: Ty::Reference { is_mut, scoped: false, inner: s(inner) },
    }
}

fn arg_ref(name: &str, inner: &str, is_mut: bool) -> Arg {
    Arg::Typed {
        binding: Binding::Name(s(name)),
        ty: Ty::Reference { is_mut, scoped: false, inner: s(inner) },
    }
}

fn create_analyze_state_machine() -> MachineSpec {
    MachineSpec {
        initial_state: s("State::on()"),
        shared_storage_type: s("Blinky"),
        shared_storage_ident: s("Blinky"),
        shared_storage_generics: GenericsSpec { params: Vec::new(), predicates: Vec::new() },
        candidate_generics: Vec::new(),
        event_type: None,
        context_type: None,
        state_ident: s("State"),
        state_derives: vec![s("Copy"), s("Clone")],
        superstate_ident: s("Superstate"),
        superstate_derives: vec![s("Copy"), s("Clone")],
        on_transition: None,
        on_dispatch: None,
        visibility: s("pub"),
        event_ident: s("input"),
        context_ident: s("context"),
    }
}

fn create_analyze_state() -> StateSpec {
    StateSpec {
        handler_name: s("on"),
        superstate: Some(s("playing")),
        entry_action: Some(s("enter_on")),
        exit_action: None,
        local_storage: Vec::new(),
        inputs: vec![
            Arg::Receiver,
            arg_ref("input", "Event", false),
            arg_ref("led", "bool", true),
            arg_ref("counter", "usize", true),
        ],
        event_arg: Some(named_ref("event", "Event", false)),
        context_arg: None,
        state_inputs: vec![named_ref("led", "bool", true), named_ref("counter", "usize", true)],
        candidate_generics: Vec::new(),
        is_async: false,
    }
}

fn create_lower_state() -> State {
    State {
        variant: VariantDef {
            name: s("On"),
            fields: vec![
                FieldDef { name: s("led"), ty: Ty::Plain(s("bool")) },
                FieldDef { name: s("counter"), ty: Ty::Plain(s("usize")) },
            ],
        },
        pat: PatternDef {
            enum_ident: s("State"),
            variant: s("On"),
            fields: vec![s("led"), s("counter")],
        },
        handler_call: CallDef {
            callee: s("Blinky"),
            method: s("on"),
            args: vec![s("shared_storage"), s("input"), s("led"), s("counter")],
            is_await: false,
        },
        entry_action_call: ActionCall::Empty,
        exit_action_call: ActionCall::Empty,
        superstate_pat: None,
        constructor: ConstructorDef {
            name: s("on"),
            params: vec![
                FieldDef { name: s("led"), ty: Ty::Plain(s("bool")) },
                FieldDef { name: s("counter"), ty: Ty::Plain(s("usize")) },
            ],
            variant: s("On"),
        },
    }
}

fn create_linked_lower_state() -> State {
    let mut state = create_lower_state();
    state.superstate_pat = Some(PatternDef {
        enum_ident: s("Superstate"),
        variant: s("Playing"),
        fields: vec![s("led"), s("counter")],
    });
    state.entry_action_call = ActionCall::Bound(CallDef {
        callee: s("Blinky"),
        method: s("enter_on"),
        args: vec![s("shared_storage"), s("led")],
        is_await: false,
    });
    state
}

fn create_analyze_superstate() -> SuperstateSpec {
    SuperstateSpec {
        handler_name: s("playing"),
        superstate: None,
        entry_action: None,
        exit_action: None,
        local_storage: Vec::new(),
        inputs: vec![
            Arg::Receiver,
            arg_ref("input", "Event", false),
            arg_ref("led", "bool", true),
            arg_ref("counter", "usize", true),
        ],
        event_arg: Some(named_ref("event", "Event", false)),
        context_arg: None,
        state_inputs: vec![named_ref("led", "bool", true), named_ref("counter", "usize", true)],
        candidate_generics: Vec::new(),
        is_async: false,
    }
}

fn create_lower_superstate() -> Superstate {
    Superstate {
        variant: VariantDef {
            name: s("Playing"),
            fields: vec![
                FieldDef {
                    name: s("led"),
                    ty: Ty::Reference { is_mut: true, scoped: true, inner: s("bool") },
                },
                FieldDef {
                    name: s("counter"),
                    ty: Ty::Reference { is_mut: true, scoped: true, inner: s("usize") },
                },
            ],
        },
        pat: PatternDef {
            enum_ident: s("Superstate"),
            variant: s("Playing"),
            fields: vec![s("led"), s("counter")],
        },
        handler_call: CallDef {
            callee: s("Blinky"),
            method: s("playing"),
            args: vec![s("shared_storage"), s("input"), s("led"), s("counter")],
            is_await: false,
        },
        entry_action_call: ActionCall::Empty,
        exit_action_call: ActionCall::Empty,
        superstate_pat: None,
    }
}

fn create_analyze_action() -> ActionSpec {
    ActionSpec {
        handler_name: s("enter_on"),
        inputs: vec![Arg::Receiver, arg_ref("led", "bool", true)],
        is_async: false,
    }
}

fn create_lower_action() -> Action {
    Action {
        handler_call: CallDef {
            callee: s("Blinky"),
            method: s("enter_on"),
            args: vec![s("shared_storage"), s("led")],
            is_await: false,
        },
    }
}

fn create_analyze_model() -> Model {
    Model {
        item_impl: s("impl Blinky { }"),
        machine: create_analyze_state_machine(),
        states: vec![create_analyze_state()],
        superstates: vec![create_analyze_superstate()],
        actions: vec![create_analyze_action()],
    }
}

fn create_lower_model() -> Ir {
    let mut superstate_generics = FilteredGenerics { params: Vec::new(), predicates: Vec::new() };
    superstate_generics.params.push(hsm_lower::generics::scope_lifetime_param());
    Ir {
        item_impl: s("impl Blinky { }"),
        state_machine: StateMachine {
            initial_state: s("State::on()"),
            shared_storage_type: s("Blinky"),
            shared_storage_generics: GenericsSpec { params: Vec::new(), predicates: Vec::new() },
            event_type: Ty::Unit,
            context_type: Ty::Unit,
            state_ident: s("State"),
            state_derives: vec![s("Copy"), s("Clone")],
            state_generics: FilteredGenerics { params: Vec::new(), predicates: Vec::new() },
            superstate_ident: s("Superstate"),
            superstate_derives: vec![s("Copy"), s("Clone")],
            superstate_generics,
            on_transition: None,
            on_dispatch: None,
            visibility: s("pub"),
            event_ident: s("input"),
            context_ident: s("context"),
            mode: Mode::Blocking,
        },
        states: vec![(s("on"), create_linked_lower_state())],
        superstates: vec![(s("playing"), create_lower_superstate())],
    }
}

#[test]
fn test_lower_state() {
    let analyze_state_machine = create_analyze_state_machine();
    let analyze_state = create_analyze_state();

    let actual = lower_state(&analyze_state, &analyze_state_machine).unwrap();
    let expected = create_lower_state();

    assert_eq!(actual, expected);
}

#[test]
fn test_lower_superstate() {
    let analyze_state_machine = create_analyze_state_machine();
    let analyze_superstate = create_analyze_superstate();

    let actual = lower_superstate(&analyze_superstate, &analyze_state_machine).unwrap();
    let expected = create_lower_superstate();

    assert_eq!(actual, expected);
}

#[test]
fn test_lower_action() {
    let state_machine = create_analyze_state_machine();
    let action = create_analyze_action();

    let actual = lower_action(&action, &state_machine).unwrap();
    let expected = create_lower_action();

    assert_eq!(actual, expected);
}

#[test]
fn test_lower() {
    let model = create_analyze_model();

    let actual = lower(&model).unwrap();
    let expected = create_lower_model();

    assert_eq!(actual, expected);
}
