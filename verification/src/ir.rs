//! The lowered intermediate representation handed to the emitter, and the
//! fatal errors the lowering pass can stop with.

use vstd::prelude::*;

use crate::model::{
    fields_view, params_view, predicates_view, strings_view, FieldDef, FieldView, GenericParamDef,
    GenericParamView, GenericsSpec, GenericsView, PredicateDef, PredicateView, Ty, TyView,
};

verus! {

/// Whether the generated machine's dispatch calls are suspension points
/// (`Awaitable`) or plain calls (`Blocking`).
#[derive(Debug, Clone, Copy, PartialEq, Eq, Structural)]
pub enum Mode {
    Awaitable,
    Blocking,
}

/// Which action slot a declared action name was looked up for.
#[derive(Debug, Clone, Copy, PartialEq, Eq, Structural)]
pub enum ActionSlot {
    Entry,
    Exit,
}

/// A declared name with no matching descriptor.
#[derive(Debug, PartialEq, Eq)]
pub enum UnresolvedReference {
    /// A state or superstate names a superstate that does not exist.
    Superstate(String),
    /// A declared entry or exit action name has no matching action.
    Action(String, ActionSlot),
}

#[verifier::ext_equal]
pub enum UnresolvedReferenceView {
    Superstate(Seq<char>),
    Action(Seq<char>, ActionSlot),
}

impl View for UnresolvedReference {
    type V = UnresolvedReferenceView;

    open spec fn view(&self) -> UnresolvedReferenceView {
        match self {
            UnresolvedReference::Superstate(n) => UnresolvedReferenceView::Superstate(n@),
            UnresolvedReference::Action(n, slot) => UnresolvedReferenceView::Action(n@, *slot),
        }
    }
}

/// A fatal lowering failure: the pass aborts with no partial output.
#[derive(Debug, PartialEq, Eq)]
pub enum LowerError {
    /// A cross-reference could not be resolved.
    Unresolved(UnresolvedReference),
    /// A parameter that must be a reference (a state input or superstate
    /// input) is not declared as one; carries the parameter's name.
    MalformedParameter(String),
    /// A parameter binding is not a simple name.
    UnsupportedPattern,
}

#[verifier::ext_equal]
pub enum LowerErrorView {
    Unresolved(UnresolvedReferenceView),
    MalformedParameter(Seq<char>),
    UnsupportedPattern,
}

impl View for LowerError {
    type V = LowerErrorView;

    open spec fn view(&self) -> LowerErrorView {
        match self {
            LowerError::Unresolved(r) => LowerErrorView::Unresolved(r@),
            LowerError::MalformedParameter(n) => LowerErrorView::MalformedParameter(n@),
            LowerError::UnsupportedPattern => LowerErrorView::UnsupportedPattern,
        }
    }
}

/// One variant of a generated sum type: its name and its fields.
#[derive(Debug, PartialEq, Eq)]
pub struct VariantDef {
    pub name: String,
    pub fields: Vec<FieldDef>,
}

#[verifier::ext_equal]
pub struct VariantView {
    pub name: Seq<char>,
    pub fields: Seq<FieldView>,
}

impl View for VariantDef {
    type V = VariantView;

    open spec fn view(&self) -> VariantView {
        VariantView { name: self.name@, fields: fields_view(self.fields@) }
    }
}

/// The pattern that matches one variant: `EnumName::Variant { f1, f2 }`.
#[derive(Debug, PartialEq, Eq)]
pub struct PatternDef {
    pub enum_ident: String,
    pub variant: String,
    pub fields: Vec<String>,
}

#[verifier::ext_equal]
pub struct PatternView {
    pub enum_ident: Seq<char>,
    pub variant: Seq<char>,
    pub fields: Seq<Seq<char>>,
}

impl View for PatternDef {
    type V = PatternView;

    open spec fn view(&self) -> PatternView {
        PatternView {
            enum_ident: self.enum_ident@,
            variant: self.variant@,
            fields: strings_view(self.fields@),
        }
    }
}

/// A bound dispatch call: `Callee::method(arg1, arg2)`, awaited when the
/// handler is asynchronous. The emitter adds the shared-storage turbofish,
/// which it renders from the machine's `shared_storage_generics`.
#[derive(Debug, PartialEq, Eq)]
pub struct CallDef {
    pub callee: String,
    pub method: String,
    pub args: Vec<String>,
    pub is_await: bool,
}

#[verifier::ext_equal]
pub struct CallView {
    pub callee: Seq<char>,
    pub method: Seq<char>,
    pub args: Seq<Seq<char>>,
    pub is_await: bool,
}

impl View for CallDef {
    type V = CallView;

    open spec fn view(&self) -> CallView {
        CallView {
            callee: self.callee@,
            method: self.method@,
            args: strings_view(self.args@),
            is_await: self.is_await,
        }
    }
}

/// An entry or exit action slot: the empty call `{}` until linking binds it.
#[derive(Debug, PartialEq, Eq)]
pub enum ActionCall {
    Empty,
    Bound(CallDef),
}

#[verifier::ext_equal]
pub enum ActionCallView {
    Empty,
    Bound(CallView),
}

impl View for ActionCall {
    type V = ActionCallView;

    open spec fn view(&self) -> ActionCallView {
        match self {
            ActionCall::Empty => ActionCallView::Empty,
            ActionCall::Bound(c) => ActionCallView::Bound(c@),
        }
    }
}

/// The constructor generated for a state:
/// `const fn name(params) -> Self { Self::Variant { field names } }`.
#[derive(Debug, PartialEq, Eq)]
pub struct ConstructorDef {
    pub name: String,
    pub params: Vec<FieldDef>,
    pub variant: String,
}

#[verifier::ext_equal]
pub struct ConstructorView {
    pub name: Seq<char>,
    pub params: Seq<FieldView>,
    pub variant: Seq<char>,
}

impl View for ConstructorDef {
    type V = ConstructorView;

    open spec fn view(&self) -> ConstructorView {
        ConstructorView {
            name: self.name@,
            params: fields_view(self.params@),
            variant: self.variant@,
        }
    }
}

/// The descriptor of one state.
#[derive(Debug, PartialEq, Eq)]
pub struct State {
    /// The variant of the state type, e.g. `On { led: bool }`.
    pub variant: VariantDef,
    /// The pattern that matches it, e.g. `State::On { led }`.
    pub pat: PatternDef,
    /// The call to the state handler.
    pub handler_call: CallDef,
    /// The call to the entry action; empty until linking binds it.
    pub entry_action_call: ActionCall,
    /// The call to the exit action; empty until linking binds it.
    pub exit_action_call: ActionCall,
    /// The enclosing superstate's pattern; absent until linking resolves a
    /// declared superstate name.
    pub superstate_pat: Option<PatternDef>,
    /// The constructor that builds this state's variant.
    pub constructor: ConstructorDef,
}

#[verifier::ext_equal]
pub struct StateView {
    pub variant: VariantView,
    pub pat: PatternView,
    pub handler_call: CallView,
    pub entry_action_call: ActionCallView,
    pub exit_action_call: ActionCallView,
    pub superstate_pat: Option<PatternView>,
    pub constructor: ConstructorView,
}

impl View for State {
    type V = StateView;

    open spec fn view(&self) -> StateView {
        StateView {
            variant: self.variant@,
            pat: self.pat@,
            handler_call: self.handler_call@,
            entry_action_call: self.entry_action_call@,
            exit_action_call: self.exit_action_call@,
            superstate_pat: opt_pattern_view(self.superstate_pat),
            constructor: self.constructor@,
        }
    }
}

/// The descriptor of one superstate: as a state, minus the constructor,
/// since superstates are only ever derived by matching on a state.
#[derive(Debug, PartialEq, Eq)]
pub struct Superstate {
    /// The variant of the superstate type, whose fields are scoped
    /// references into a state, e.g. `Playing { led: &'sub mut bool }`.
    pub variant: VariantDef,
    /// The pattern that matches it, e.g. `Superstate::Playing { led }`.
    pub pat: PatternDef,
    /// The call to the superstate handler.
    pub handler_call: CallDef,
    /// The call to the entry action; empty until linking binds it.
    pub entry_action_call: ActionCall,
    /// The call to the exit action; empty until linking binds it.
    pub exit_action_call: ActionCall,
    /// The parent superstate's pattern; absent until linking resolves a
    /// declared parent name.
    pub superstate_pat: Option<PatternDef>,
}

#[verifier::ext_equal]
pub struct SuperstateView {
    pub variant: VariantView,
    pub pat: PatternView,
    pub handler_call: CallView,
    pub entry_action_call: ActionCallView,
    pub exit_action_call: ActionCallView,
    pub superstate_pat: Option<PatternView>,
}

impl View for Superstate {
    type V = SuperstateView;

    open spec fn view(&self) -> SuperstateView {
        SuperstateView {
            variant: self.variant@,
            pat: self.pat@,
            handler_call: self.handler_call@,
            entry_action_call: self.entry_action_call@,
            exit_action_call: self.exit_action_call@,
            superstate_pat: opt_pattern_view(self.superstate_pat),
        }
    }
}

/// The descriptor of one action: its bound dispatch call.
#[derive(Debug, PartialEq, Eq)]
pub struct Action {
    pub handler_call: CallDef,
}

#[verifier::ext_equal]
pub struct ActionView {
    pub handler_call: CallView,
}

impl View for Action {
    type V = ActionView;

    open spec fn view(&self) -> ActionView {
        ActionView { handler_call: self.handler_call@ }
    }
}

/// The generic parameters a generated type keeps after filtering, with the
/// `where`-clause predicates re-associated to them.
#[derive(Debug, PartialEq, Eq)]
pub struct FilteredGenerics {
    pub params: Vec<GenericParamDef>,
    pub predicates: Vec<PredicateDef>,
}

#[verifier::ext_equal]
pub struct FilteredGenericsView {
    pub params: Seq<GenericParamView>,
    pub predicates: Seq<PredicateView>,
}

impl View for FilteredGenerics {
    type V = FilteredGenericsView;

    open spec fn view(&self) -> FilteredGenericsView {
        FilteredGenericsView {
            params: params_view(self.params@),
            predicates: predicates_view(self.predicates@),
        }
    }
}

/// Machine-level output: resolved types, filtered generics, and mode.
#[derive(Debug, PartialEq, Eq)]
pub struct StateMachine {
    pub initial_state: String,
    pub shared_storage_type: String,
    pub shared_storage_generics: GenericsSpec,
    pub event_type: Ty,
    pub context_type: Ty,
    pub state_ident: String,
    pub state_derives: Vec<String>,
    pub state_generics: FilteredGenerics,
    pub superstate_ident: String,
    pub superstate_derives: Vec<String>,
    pub superstate_generics: FilteredGenerics,
    pub on_transition: Option<String>,
    pub on_dispatch: Option<String>,
    pub visibility: String,
    pub event_ident: String,
    pub context_ident: String,
    pub mode: Mode,
}

#[verifier::ext_equal]
pub struct StateMachineView {
    pub initial_state: Seq<char>,
    pub shared_storage_type: Seq<char>,
    pub shared_storage_generics: GenericsView,
    pub event_type: TyView,
    pub context_type: TyView,
    pub state_ident: Seq<char>,
    pub state_derives: Seq<Seq<char>>,
    pub state_generics: FilteredGenericsView,
    pub superstate_ident: Seq<char>,
    pub superstate_derives: Seq<Seq<char>>,
    pub superstate_generics: FilteredGenericsView,
    pub on_transition: Option<Seq<char>>,
    pub on_dispatch: Option<Seq<char>>,
    pub visibility: Seq<char>,
    pub event_ident: Seq<char>,
    pub context_ident: Seq<char>,
    pub mode: Mode,
}

impl View for StateMachine {
    type V = StateMachineView;

    open spec fn view(&self) -> StateMachineView {
        StateMachineView {
            initial_state: self.initial_state@,
            shared_storage_type: self.shared_storage_type@,
            shared_storage_generics: self.shared_storage_generics@,
            event_type: self.event_type@,
            context_type: self.context_type@,
            state_ident: self.state_ident@,
            state_derives: strings_view(self.state_derives@),
            state_generics: self.state_generics@,
            superstate_ident: self.superstate_ident@,
            superstate_derives: strings_view(self.superstate_derives@),
            superstate_generics: self.superstate_generics@,
            on_transition: crate::model::opt_string_view(self.on_transition),
            on_dispatch: crate::model::opt_string_view(self.on_dispatch),
            visibility: self.visibility@,
            event_ident: self.event_ident@,
            context_ident: self.context_ident@,
            mode: self.mode,
        }
    }
}

/// The whole lowered representation: machine-level output plus one
/// descriptor per state and superstate, keyed by handler name, in the
/// model's order.
#[derive(Debug, PartialEq, Eq)]
pub struct Ir {
    /// The impl block the machine was declared on, carried through.
    pub item_impl: String,
    pub state_machine: StateMachine,
    pub states: Vec<(String, State)>,
    pub superstates: Vec<(String, Superstate)>,
}

#[verifier::ext_equal]
pub struct IrView {
    pub item_impl: Seq<char>,
    pub state_machine: StateMachineView,
    pub states: Seq<(Seq<char>, StateView)>,
    pub superstates: Seq<(Seq<char>, SuperstateView)>,
}

impl View for Ir {
    type V = IrView;

    open spec fn view(&self) -> IrView {
        IrView {
            item_impl: self.item_impl@,
            state_machine: self.state_machine@,
            states: state_pairs_view(self.states@),
            superstates: superstate_pairs_view(self.superstates@),
        }
    }
}

// ---- view helpers ----

pub open spec fn state_pairs_view(v: Seq<(String, State)>) -> Seq<(Seq<char>, StateView)> {
    v.map_values(|p: (String, State)| (p.0@, p.1@))
}

pub open spec fn superstate_pairs_view(v: Seq<(String, Superstate)>) -> Seq<
    (Seq<char>, SuperstateView),
> {
    v.map_values(|p: (String, Superstate)| (p.0@, p.1@))
}

pub open spec fn action_pairs_view(v: Seq<(String, Action)>) -> Seq<(Seq<char>, ActionView)> {
    v.map_values(|p: (String, Action)| (p.0@, p.1@))
}

/// The view of a `Result` carrying named state descriptors.
pub open spec fn state_pairs_res_view(r: Result<Vec<(String, State)>, LowerError>) -> Result<
    Seq<(Seq<char>, StateView)>,
    LowerErrorView,
> {
    match r {
        Result::Ok(v) => Result::Ok(state_pairs_view(v@)),
        Result::Err(e) => Result::Err(e@),
    }
}

/// The view of a `Result` carrying named superstate descriptors.
pub open spec fn superstate_pairs_res_view(
    r: Result<Vec<(String, Superstate)>, LowerError>,
) -> Result<Seq<(Seq<char>, SuperstateView)>, LowerErrorView> {
    match r {
        Result::Ok(v) => Result::Ok(superstate_pairs_view(v@)),
        Result::Err(e) => Result::Err(e@),
    }
}

/// The view of a `Result` carrying named action descriptors.
pub open spec fn action_pairs_res_view(r: Result<Vec<(String, Action)>, LowerError>) -> Result<
    Seq<(Seq<char>, ActionView)>,
    LowerErrorView,
> {
    match r {
        Result::Ok(v) => Result::Ok(action_pairs_view(v@)),
        Result::Err(e) => Result::Err(e@),
    }
}

impl CallDef {
    /// An equal call, rebuilt so that verified code knows what it holds.
    pub fn duplicate(&self) -> (r: CallDef)
        ensures
            r@ == self@,
    {
        let r = CallDef {
            callee: self.callee.clone(),
            method: self.method.clone(),
            args: crate::model::duplicate_strings(&self.args),
            is_await: self.is_await,
        };
        proof {
            assert(r@ =~= self@);
        }
        r
    }
}

impl PatternDef {
    /// An equal pattern, rebuilt so that verified code knows what it holds.
    pub fn duplicate(&self) -> (r: PatternDef)
        ensures
            r@ == self@,
    {
        let r = PatternDef {
            enum_ident: self.enum_ident.clone(),
            variant: self.variant.clone(),
            fields: crate::model::duplicate_strings(&self.fields),
        };
        proof {
            assert(r@ =~= self@);
        }
        r
    }
}

impl VariantDef {
    /// An equal variant, rebuilt so that verified code knows what it holds.
    pub fn duplicate(&self) -> (r: VariantDef)
        ensures
            r@ == self@,
    {
        let r = VariantDef {
            name: self.name.clone(),
            fields: crate::model::duplicate_fields(&self.fields),
        };
        proof {
            assert(r@ =~= self@);
        }
        r
    }
}

impl ConstructorDef {
    /// An equal constructor, rebuilt so that verified code knows what it
    /// holds.
    pub fn duplicate(&self) -> (r: ConstructorDef)
        ensures
            r@ == self@,
    {
        let r = ConstructorDef {
            name: self.name.clone(),
            params: crate::model::duplicate_fields(&self.params),
            variant: self.variant.clone(),
        };
        proof {
            assert(r@ =~= self@);
        }
        r
    }
}

impl ActionCall {
    /// An equal action slot, rebuilt so that verified code knows what it
    /// holds.
    pub fn duplicate(&self) -> (r: ActionCall)
        ensures
            r@ == self@,
    {
        match self {
            ActionCall::Empty => ActionCall::Empty,
            ActionCall::Bound(c) => ActionCall::Bound(c.duplicate()),
        }
    }
}

/// An equal optional pattern, rebuilt.
pub fn duplicate_opt_pattern(o: &Option<PatternDef>) -> (r: Option<PatternDef>)
    ensures
        opt_pattern_view(r) == opt_pattern_view(*o),
{
    match o {
        Option::Some(p) => Option::Some(p.duplicate()),
        Option::None => Option::None,
    }
}

impl State {
    /// An equal state descriptor, rebuilt so that verified code knows what
    /// it holds.
    pub fn duplicate(&self) -> (r: State)
        ensures
            r@ == self@,
    {
        let r = State {
            variant: self.variant.duplicate(),
            pat: self.pat.duplicate(),
            handler_call: self.handler_call.duplicate(),
            entry_action_call: self.entry_action_call.duplicate(),
            exit_action_call: self.exit_action_call.duplicate(),
            superstate_pat: duplicate_opt_pattern(&self.superstate_pat),
            constructor: self.constructor.duplicate(),
        };
        proof {
            assert(r@ =~= self@);
        }
        r
    }
}

impl Superstate {
    /// An equal superstate descriptor, rebuilt so that verified code knows
    /// what it holds.
    pub fn duplicate(&self) -> (r: Superstate)
        ensures
            r@ == self@,
    {
        let r = Superstate {
            variant: self.variant.duplicate(),
            pat: self.pat.duplicate(),
            handler_call: self.handler_call.duplicate(),
            entry_action_call: self.entry_action_call.duplicate(),
            exit_action_call: self.exit_action_call.duplicate(),
            superstate_pat: duplicate_opt_pattern(&self.superstate_pat),
        };
        proof {
            assert(r@ =~= self@);
        }
        r
    }
}

pub open spec fn opt_pattern_view(o: Option<PatternDef>) -> Option<PatternView> {
    match o {
        Option::Some(p) => Option::Some(p@),
        Option::None => Option::None,
    }
}

/// The view of a `Result` whose sides both have views: how contracts state
/// what an executable lowering step returned.
pub open spec fn result_view<T: View, E: View>(r: Result<T, E>) -> Result<T::V, E::V> {
    match r {
        Result::Ok(t) => Result::Ok(t@),
        Result::Err(e) => Result::Err(e@),
    }
}

} // verus!
