//! The input model: the analyzer's already-validated description of a state
//! machine, as plain values. Identifiers are carried as strings; types are
//! opaque rendered text except for the one shape the lowering inspects,
//! references. Every type has a view over `Seq<char>` so that contracts can
//! speak of values independently of allocation.

use vstd::prelude::*;

verus! {

/// A type as the lowering reads it.
#[derive(Debug, PartialEq, Eq)]
pub enum Ty {
    /// The unit/empty type `()`, the default for event and context.
    Unit,
    /// Any other type, carried as rendered text, opaque to the lowering.
    Plain(String),
    /// A reference type: the only shape the lowering looks inside. `scoped`
    /// marks the synthetic superstate scope lifetime on superstate fields.
    Reference { is_mut: bool, scoped: bool, inner: String },
}

#[verifier::ext_equal]
pub enum TyView {
    Unit,
    Plain(Seq<char>),
    Reference { is_mut: bool, scoped: bool, inner: Seq<char> },
}

impl View for Ty {
    type V = TyView;

    open spec fn view(&self) -> TyView {
        match self {
            Ty::Unit => TyView::Unit,
            Ty::Plain(s) => TyView::Plain(s@),
            Ty::Reference { is_mut, scoped, inner } => TyView::Reference {
                is_mut: *is_mut,
                scoped: *scoped,
                inner: inner@,
            },
        }
    }
}

/// How a handler parameter is bound: a simple name, or any other pattern
/// (destructuring, literal, wildcard, range, ...), which the lowering
/// cannot map to a field or variable name.
#[derive(Debug, PartialEq, Eq)]
pub enum Binding {
    Name(String),
    Other,
}

#[verifier::ext_equal]
pub enum BindingView {
    Name(Seq<char>),
    Other,
}

impl View for Binding {
    type V = BindingView;

    open spec fn view(&self) -> BindingView {
        match self {
            Binding::Name(s) => BindingView::Name(s@),
            Binding::Other => BindingView::Other,
        }
    }
}

/// One handler parameter, in declaration order.
#[derive(Debug, PartialEq, Eq)]
pub enum Arg {
    /// The receiver (`&self` or `&mut self`), standing for the shared storage.
    Receiver,
    /// A typed parameter.
    Typed { binding: Binding, ty: Ty },
}

#[verifier::ext_equal]
pub enum ArgView {
    Receiver,
    Typed { binding: BindingView, ty: TyView },
}

impl View for Arg {
    type V = ArgView;

    open spec fn view(&self) -> ArgView {
        match self {
            Arg::Receiver => ArgView::Receiver,
            Arg::Typed { binding, ty } => ArgView::Typed { binding: binding@, ty: ty@ },
        }
    }
}

/// A typed, named handler parameter (event, context, or state input).
#[derive(Debug, PartialEq, Eq)]
pub struct TypedArg {
    pub binding: Binding,
    pub ty: Ty,
}

#[verifier::ext_equal]
pub struct TypedArgView {
    pub binding: BindingView,
    pub ty: TyView,
}

impl View for TypedArg {
    type V = TypedArgView;

    open spec fn view(&self) -> TypedArgView {
        TypedArgView { binding: self.binding@, ty: self.ty@ }
    }
}

/// A named field of a generated variant.
#[derive(Debug, PartialEq, Eq)]
pub struct FieldDef {
    pub name: String,
    pub ty: Ty,
}

#[verifier::ext_equal]
pub struct FieldView {
    pub name: Seq<char>,
    pub ty: TyView,
}

impl View for FieldDef {
    type V = FieldView;

    open spec fn view(&self) -> FieldView {
        FieldView { name: self.name@, ty: self.ty@ }
    }
}

/// The kind of one generic parameter of the shared-storage type.
#[derive(Debug, Clone, Copy, PartialEq, Eq, Structural)]
pub enum ParamKind {
    TypeParam,
    LifetimeParam,
    ConstParam,
}

/// One generic parameter of the shared-storage type. `name` is the form the
/// parameter takes as an argument (`T`, `'a`, `N`); `decl` is its full
/// declaration, inline bounds included, carried as opaque text.
#[derive(Debug, PartialEq, Eq)]
pub struct GenericParamDef {
    pub kind: ParamKind,
    pub name: String,
    pub decl: String,
}

#[verifier::ext_equal]
pub struct GenericParamView {
    pub kind: ParamKind,
    pub name: Seq<char>,
    pub decl: Seq<char>,
}

impl View for GenericParamDef {
    type V = GenericParamView;

    open spec fn view(&self) -> GenericParamView {
        GenericParamView { kind: self.kind, name: self.name@, decl: self.decl@ }
    }
}

/// One `where`-clause predicate. `target` is the parameter it constrains
/// (`T`, `'a`); a predicate on anything else keeps the rendered text of its
/// bounded type there and is re-associated to no parameter. `decl` is the
/// whole predicate as opaque text.
#[derive(Debug, PartialEq, Eq)]
pub struct PredicateDef {
    pub target: String,
    pub decl: String,
}

#[verifier::ext_equal]
pub struct PredicateView {
    pub target: Seq<char>,
    pub decl: Seq<char>,
}

impl View for PredicateDef {
    type V = PredicateView;

    open spec fn view(&self) -> PredicateView {
        PredicateView { target: self.target@, decl: self.decl@ }
    }
}

/// The shared-storage type's full generic parameter list with its
/// `where`-clause predicates.
#[derive(Debug, PartialEq, Eq)]
pub struct GenericsSpec {
    pub params: Vec<GenericParamDef>,
    pub predicates: Vec<PredicateDef>,
}

#[verifier::ext_equal]
pub struct GenericsView {
    pub params: Seq<GenericParamView>,
    pub predicates: Seq<PredicateView>,
}

impl View for GenericsSpec {
    type V = GenericsView;

    open spec fn view(&self) -> GenericsView {
        GenericsView {
            params: params_view(self.params@),
            predicates: predicates_view(self.predicates@),
        }
    }
}

/// One state handler, as the analyzer hands it over.
#[derive(Debug, PartialEq, Eq)]
pub struct StateSpec {
    /// The handler's identifier, in lower-snake form.
    pub handler_name: String,
    /// The name of the declared enclosing superstate, if any.
    pub superstate: Option<String>,
    /// The name of the declared entry action, if any.
    pub entry_action: Option<String>,
    /// The name of the declared exit action, if any.
    pub exit_action: Option<String>,
    /// State-local fields, not visible to any superstate.
    pub local_storage: Vec<FieldDef>,
    /// The full ordered parameter list of the handler.
    pub inputs: Vec<Arg>,
    /// The parameter bound to the event, if any.
    pub event_arg: Option<TypedArg>,
    /// The parameter bound to the context, if any.
    pub context_arg: Option<TypedArg>,
    /// Parameters that become fields visible to the enclosing superstate.
    pub state_inputs: Vec<TypedArg>,
    /// Generic parameters referenced by this state's field types.
    pub candidate_generics: Vec<String>,
    /// Whether the handler is asynchronous.
    pub is_async: bool,
}

#[verifier::ext_equal]
pub struct StateSpecView {
    pub handler_name: Seq<char>,
    pub superstate: Option<Seq<char>>,
    pub entry_action: Option<Seq<char>>,
    pub exit_action: Option<Seq<char>>,
    pub local_storage: Seq<FieldView>,
    pub inputs: Seq<ArgView>,
    pub event_arg: Option<TypedArgView>,
    pub context_arg: Option<TypedArgView>,
    pub state_inputs: Seq<TypedArgView>,
    pub candidate_generics: Seq<Seq<char>>,
    pub is_async: bool,
}

impl View for StateSpec {
    type V = StateSpecView;

    open spec fn view(&self) -> StateSpecView {
        StateSpecView {
            handler_name: self.handler_name@,
            superstate: opt_string_view(self.superstate),
            entry_action: opt_string_view(self.entry_action),
            exit_action: opt_string_view(self.exit_action),
            local_storage: fields_view(self.local_storage@),
            inputs: args_view(self.inputs@),
            event_arg: opt_typed_arg_view(self.event_arg),
            context_arg: opt_typed_arg_view(self.context_arg),
            state_inputs: typed_args_view(self.state_inputs@),
            candidate_generics: strings_view(self.candidate_generics@),
            is_async: self.is_async,
        }
    }
}

/// One superstate handler: the same shape as a state, whose `superstate`
/// field names its own parent superstate (nesting is unbounded).
#[derive(Debug, PartialEq, Eq)]
pub struct SuperstateSpec {
    pub handler_name: String,
    pub superstate: Option<String>,
    pub entry_action: Option<String>,
    pub exit_action: Option<String>,
    pub local_storage: Vec<FieldDef>,
    pub inputs: Vec<Arg>,
    pub event_arg: Option<TypedArg>,
    pub context_arg: Option<TypedArg>,
    pub state_inputs: Vec<TypedArg>,
    pub candidate_generics: Vec<String>,
    pub is_async: bool,
}

#[verifier::ext_equal]
pub struct SuperstateSpecView {
    pub handler_name: Seq<char>,
    pub superstate: Option<Seq<char>>,
    pub entry_action: Option<Seq<char>>,
    pub exit_action: Option<Seq<char>>,
    pub local_storage: Seq<FieldView>,
    pub inputs: Seq<ArgView>,
    pub event_arg: Option<TypedArgView>,
    pub context_arg: Option<TypedArgView>,
    pub state_inputs: Seq<TypedArgView>,
    pub candidate_generics: Seq<Seq<char>>,
    pub is_async: bool,
}

impl View for SuperstateSpec {
    type V = SuperstateSpecView;

    open spec fn view(&self) -> SuperstateSpecView {
        SuperstateSpecView {
            handler_name: self.handler_name@,
            superstate: opt_string_view(self.superstate),
            entry_action: opt_string_view(self.entry_action),
            exit_action: opt_string_view(self.exit_action),
            local_storage: fields_view(self.local_storage@),
            inputs: args_view(self.inputs@),
            event_arg: opt_typed_arg_view(self.event_arg),
            context_arg: opt_typed_arg_view(self.context_arg),
            state_inputs: typed_args_view(self.state_inputs@),
            candidate_generics: strings_view(self.candidate_generics@),
            is_async: self.is_async,
        }
    }
}

/// One free-standing action handler: a leaf call with no fields of its own.
#[derive(Debug, PartialEq, Eq)]
pub struct ActionSpec {
    pub handler_name: String,
    pub inputs: Vec<Arg>,
    pub is_async: bool,
}

#[verifier::ext_equal]
pub struct ActionSpecView {
    pub handler_name: Seq<char>,
    pub inputs: Seq<ArgView>,
    pub is_async: bool,
}

impl View for ActionSpec {
    type V = ActionSpecView;

    open spec fn view(&self) -> ActionSpecView {
        ActionSpecView {
            handler_name: self.handler_name@,
            inputs: args_view(self.inputs@),
            is_async: self.is_async,
        }
    }
}

/// Machine-level configuration, as the analyzer hands it over.
#[derive(Debug, PartialEq, Eq)]
pub struct MachineSpec {
    /// The initial-state constructor expression, as opaque text.
    pub initial_state: String,
    /// The shared-storage type, as opaque text.
    pub shared_storage_type: String,
    /// The identifier that dispatch calls go through.
    pub shared_storage_ident: String,
    /// The shared-storage type's generic parameter list.
    pub shared_storage_generics: GenericsSpec,
    /// The generic parameters allowed to propagate into generated types.
    pub candidate_generics: Vec<String>,
    /// The explicitly declared event type, if any.
    pub event_type: Option<Ty>,
    /// The explicitly declared context type, if any.
    pub context_type: Option<Ty>,
    /// The name of the generated state type.
    pub state_ident: String,
    /// Derives requested on the state type, as opaque text.
    pub state_derives: Vec<String>,
    /// The name of the generated superstate type.
    pub superstate_ident: String,
    /// Derives requested on the superstate type, as opaque text.
    pub superstate_derives: Vec<String>,
    /// The on-transition callback path, if any, as opaque text.
    pub on_transition: Option<String>,
    /// The on-dispatch callback path, if any, as opaque text.
    pub on_dispatch: Option<String>,
    /// Visibility of the generated types, as opaque text.
    pub visibility: String,
    /// The identifier that marks a handler parameter as the event.
    pub event_ident: String,
    /// The identifier that marks a handler parameter as the context.
    pub context_ident: String,
}

#[verifier::ext_equal]
pub struct MachineSpecView {
    pub initial_state: Seq<char>,
    pub shared_storage_type: Seq<char>,
    pub shared_storage_ident: Seq<char>,
    pub shared_storage_generics: GenericsView,
    pub candidate_generics: Seq<Seq<char>>,
    pub event_type: Option<TyView>,
    pub context_type: Option<TyView>,
    pub state_ident: Seq<char>,
    pub state_derives: Seq<Seq<char>>,
    pub superstate_ident: Seq<char>,
    pub superstate_derives: Seq<Seq<char>>,
    pub on_transition: Option<Seq<char>>,
    pub on_dispatch: Option<Seq<char>>,
    pub visibility: Seq<char>,
    pub event_ident: Seq<char>,
    pub context_ident: Seq<char>,
}

impl View for MachineSpec {
    type V = MachineSpecView;

    open spec fn view(&self) -> MachineSpecView {
        MachineSpecView {
            initial_state: self.initial_state@,
            shared_storage_type: self.shared_storage_type@,
            shared_storage_ident: self.shared_storage_ident@,
            shared_storage_generics: self.shared_storage_generics@,
            candidate_generics: strings_view(self.candidate_generics@),
            event_type: opt_ty_view(self.event_type),
            context_type: opt_ty_view(self.context_type),
            state_ident: self.state_ident@,
            state_derives: strings_view(self.state_derives@),
            superstate_ident: self.superstate_ident@,
            superstate_derives: strings_view(self.superstate_derives@),
            on_transition: opt_string_view(self.on_transition),
            on_dispatch: opt_string_view(self.on_dispatch),
            visibility: self.visibility@,
            event_ident: self.event_ident@,
            context_ident: self.context_ident@,
        }
    }
}

/// The whole analyzer output for one lowering invocation. States,
/// superstates and actions are keyed by handler name; the order is the
/// analyzer's insertion order, which the lowering preserves.
#[derive(Debug, PartialEq, Eq)]
pub struct Model {
    /// The impl block the machine was declared on, as opaque text.
    pub item_impl: String,
    pub machine: MachineSpec,
    pub states: Vec<StateSpec>,
    pub superstates: Vec<SuperstateSpec>,
    pub actions: Vec<ActionSpec>,
}

#[verifier::ext_equal]
pub struct ModelView {
    pub item_impl: Seq<char>,
    pub machine: MachineSpecView,
    pub states: Seq<StateSpecView>,
    pub superstates: Seq<SuperstateSpecView>,
    pub actions: Seq<ActionSpecView>,
}

impl View for Model {
    type V = ModelView;

    open spec fn view(&self) -> ModelView {
        ModelView {
            item_impl: self.item_impl@,
            machine: self.machine@,
            states: state_specs_view(self.states@),
            superstates: superstate_specs_view(self.superstates@),
            actions: action_specs_view(self.actions@),
        }
    }
}

// ---- view helpers ----

pub open spec fn opt_string_view(o: Option<String>) -> Option<Seq<char>> {
    match o {
        Option::Some(s) => Option::Some(s@),
        Option::None => Option::None,
    }
}

pub open spec fn opt_ty_view(o: Option<Ty>) -> Option<TyView> {
    match o {
        Option::Some(t) => Option::Some(t@),
        Option::None => Option::None,
    }
}

pub open spec fn opt_typed_arg_view(o: Option<TypedArg>) -> Option<TypedArgView> {
    match o {
        Option::Some(a) => Option::Some(a@),
        Option::None => Option::None,
    }
}

pub open spec fn strings_view(v: Seq<String>) -> Seq<Seq<char>> {
    v.map_values(|s: String| s@)
}

pub open spec fn fields_view(v: Seq<FieldDef>) -> Seq<FieldView> {
    v.map_values(|f: FieldDef| f@)
}

pub open spec fn args_view(v: Seq<Arg>) -> Seq<ArgView> {
    v.map_values(|a: Arg| a@)
}

pub open spec fn typed_args_view(v: Seq<TypedArg>) -> Seq<TypedArgView> {
    v.map_values(|a: TypedArg| a@)
}

pub open spec fn state_specs_view(v: Seq<StateSpec>) -> Seq<StateSpecView> {
    v.map_values(|s: StateSpec| s@)
}

pub open spec fn superstate_specs_view(v: Seq<SuperstateSpec>) -> Seq<SuperstateSpecView> {
    v.map_values(|s: SuperstateSpec| s@)
}

pub open spec fn action_specs_view(v: Seq<ActionSpec>) -> Seq<ActionSpecView> {
    v.map_values(|a: ActionSpec| a@)
}

pub open spec fn params_view(v: Seq<GenericParamDef>) -> Seq<GenericParamView> {
    v.map_values(|p: GenericParamDef| p@)
}

pub open spec fn predicates_view(v: Seq<PredicateDef>) -> Seq<PredicateView> {
    v.map_values(|p: PredicateDef| p@)
}

// ---- rebuilding equal values, so that verified code knows what they hold ----

/// An equal list of names, rebuilt.
pub fn duplicate_strings(v: &Vec<String>) -> (r: Vec<String>)
    ensures
        strings_view(r@) == strings_view(v@),
{
    let mut out: Vec<String> = Vec::new();
    let mut i: usize = 0;
    proof {
        assert(strings_view(out@) =~= strings_view(v@).take(0));
    }
    while i < v.len()
        invariant
            i <= v@.len(),
            strings_view(out@) == strings_view(v@).take(i as int),
        decreases v@.len() - i,
    {
        let ghost o0 = out@;
        out.push(v[i].clone());
        proof {
            assert(strings_view(out@) =~= strings_view(o0).push(v@[i as int]@));
            assert(strings_view(v@).take(i + 1) =~= strings_view(v@).take(i as int).push(
                v@[i as int]@,
            ));
        }
        i = i + 1;
    }
    proof {
        assert(strings_view(v@).take(v@.len() as int) =~= strings_view(v@));
    }
    out
}

/// An equal optional name, rebuilt.
pub fn duplicate_opt_string(o: &Option<String>) -> (r: Option<String>)
    ensures
        opt_string_view(r) == opt_string_view(*o),
{
    match o {
        Option::Some(s) => Option::Some(s.clone()),
        Option::None => Option::None,
    }
}

impl Ty {
    /// An equal type, rebuilt so that verified code knows what it holds.
    pub fn duplicate(&self) -> (r: Ty)
        ensures
            r@ == self@,
    {
        match self {
            Ty::Unit => Ty::Unit,
            Ty::Plain(s) => Ty::Plain(s.clone()),
            Ty::Reference { is_mut, scoped, inner } => Ty::Reference {
                is_mut: *is_mut,
                scoped: *scoped,
                inner: inner.clone(),
            },
        }
    }
}

impl FieldDef {
    /// An equal field, rebuilt so that verified code knows what it holds.
    pub fn duplicate(&self) -> (r: FieldDef)
        ensures
            r@ == self@,
    {
        FieldDef { name: self.name.clone(), ty: self.ty.duplicate() }
    }
}

/// An equal field list, rebuilt so that verified code knows what it holds.
pub fn duplicate_fields(v: &Vec<FieldDef>) -> (r: Vec<FieldDef>)
    ensures
        fields_view(r@) == fields_view(v@),
{
    let mut out: Vec<FieldDef> = Vec::new();
    let mut i: usize = 0;
    proof {
        assert(fields_view(out@) =~= fields_view(v@).take(0));
    }
    while i < v.len()
        invariant
            i <= v@.len(),
            fields_view(out@) == fields_view(v@).take(i as int),
        decreases v@.len() - i,
    {
        let ghost out0 = out@;
        out.push(v[i].duplicate());
        proof {
            assert(fields_view(out@) =~= fields_view(out0).push(v@[i as int]@));
            assert(fields_view(v@).take(i + 1) =~= fields_view(v@).take(i as int).push(
                v@[i as int]@,
            ));
        }
        i = i + 1;
    }
    proof {
        assert(fields_view(v@).take(v@.len() as int) =~= fields_view(v@));
    }
    out
}

impl GenericParamDef {
    /// An equal parameter, rebuilt.
    pub fn duplicate(&self) -> (r: GenericParamDef)
        ensures
            r@ == self@,
    {
        GenericParamDef { kind: self.kind, name: self.name.clone(), decl: self.decl.clone() }
    }
}

impl PredicateDef {
    /// An equal predicate, rebuilt.
    pub fn duplicate(&self) -> (r: PredicateDef)
        ensures
            r@ == self@,
    {
        PredicateDef { target: self.target.clone(), decl: self.decl.clone() }
    }
}

impl GenericsSpec {
    /// An equal generic parameter list, rebuilt.
    pub fn duplicate(&self) -> (r: GenericsSpec)
        ensures
            r@ == self@,
    {
        let mut params: Vec<GenericParamDef> = Vec::new();
        let mut i: usize = 0;
        proof {
            assert(params_view(params@) =~= params_view(self.params@).take(0));
        }
        while i < self.params.len()
            invariant
                i <= self.params@.len(),
                params_view(params@) == params_view(self.params@).take(i as int),
            decreases self.params@.len() - i,
        {
            let ghost p0 = params@;
            params.push(self.params[i].duplicate());
            proof {
                assert(params_view(params@) =~= params_view(p0).push(self.params@[i as int]@));
                assert(params_view(self.params@).take(i + 1) =~= params_view(
                    self.params@,
                ).take(i as int).push(self.params@[i as int]@));
            }
            i = i + 1;
        }
        let mut predicates: Vec<PredicateDef> = Vec::new();
        let mut j: usize = 0;
        proof {
            assert(params_view(self.params@).take(self.params@.len() as int) =~= params_view(
                self.params@,
            ));
            assert(predicates_view(predicates@) =~= predicates_view(self.predicates@).take(0));
        }
        while j < self.predicates.len()
            invariant
                j <= self.predicates@.len(),
                params_view(params@) == params_view(self.params@),
                predicates_view(predicates@) == predicates_view(self.predicates@).take(j as int),
            decreases self.predicates@.len() - j,
        {
            let ghost q0 = predicates@;
            predicates.push(self.predicates[j].duplicate());
            proof {
                assert(predicates_view(predicates@) =~= predicates_view(q0).push(
                    self.predicates@[j as int]@,
                ));
                assert(predicates_view(self.predicates@).take(j + 1) =~= predicates_view(
                    self.predicates@,
                ).take(j as int).push(self.predicates@[j as int]@));
            }
            j = j + 1;
        }
        proof {
            assert(predicates_view(self.predicates@).take(self.predicates@.len() as int)
                =~= predicates_view(self.predicates@));
        }
        let r = GenericsSpec { params, predicates };
        proof {
            assert(r@ =~= self@);
        }
        r
    }
}

} // verus!
