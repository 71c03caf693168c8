//! Building one descriptor per state, superstate, or action handler:
//! variant name, deduplicated field list, match pattern, dispatch call,
//! and (states only) a constructor.

use vstd::prelude::*;
use vstd::string::StringExecFns;

use crate::ir::{
    result_view, Action, ActionCall, ActionCallView, ActionView, CallDef, CallView,
    ConstructorDef, ConstructorView, LowerError, LowerErrorView, PatternDef, PatternView, State,
    StateView, Superstate, SuperstateView, VariantDef, VariantView,
};
use crate::model::{
    args_view, fields_view, strings_view, typed_args_view, ActionSpec, ActionSpecView, Arg,
    ArgView, Binding, BindingView, FieldDef, FieldView, MachineSpec, MachineSpecView, StateSpec,
    StateSpecView, SuperstateSpec, SuperstateSpecView, Ty, TyView, TypedArg, TypedArgView,
};
use crate::name::{pascal_of, snake_to_pascal};

verus! {

// ---- the identifier a handler parameter is threaded through as ----

/// The name under which the receiver is handed to every handler call.
pub fn shared_storage_name() -> (r: String)
    ensures
        r@ == "shared_storage"@,
{
    String::from_str("shared_storage")
}

/// The identifier one parameter contributes to a dispatch call: the
/// receiver stands for the shared storage; any other parameter must be
/// bound to a simple name.
pub open spec fn spec_arg_ident(a: ArgView) -> Result<Seq<char>, LowerErrorView> {
    match a {
        ArgView::Receiver => Result::Ok("shared_storage"@),
        ArgView::Typed { binding: BindingView::Name(n), .. } => Result::Ok(n),
        ArgView::Typed { binding: BindingView::Other, .. } => Result::Err(
            LowerErrorView::UnsupportedPattern,
        ),
    }
}

pub fn arg_ident(a: &Arg) -> (r: Result<String, LowerError>)
    ensures
        result_view(r) == spec_arg_ident(a@),
{
    match a {
        Arg::Receiver => Result::Ok(shared_storage_name()),
        Arg::Typed { binding: Binding::Name(n), .. } => Result::Ok(n.clone()),
        Arg::Typed { binding: Binding::Other, .. } => Result::Err(LowerError::UnsupportedPattern),
    }
}

/// The identifiers of a whole parameter list, in declaration order; the
/// first parameter that is not a simple name stops the pass.
pub open spec fn spec_arg_idents(args: Seq<ArgView>) -> Result<Seq<Seq<char>>, LowerErrorView>
    decreases args.len(),
{
    if args.len() == 0 {
        Result::Ok(Seq::empty())
    } else {
        match spec_arg_idents(args.drop_last()) {
            Result::Err(e) => Result::Err(e),
            Result::Ok(s) => match spec_arg_ident(args.last()) {
                Result::Err(e) => Result::Err(e),
                Result::Ok(n) => Result::Ok(s.push(n)),
            },
        }
    }
}

proof fn lemma_arg_idents_stops(args: Seq<ArgView>, i: int)
    requires
        0 <= i < args.len(),
        spec_arg_idents(args.take(i + 1)) is Err,
    ensures
        spec_arg_idents(args) == spec_arg_idents(args.take(i + 1)),
    decreases args.len() - i,
{
    if i + 1 == args.len() {
        assert(args.take(i + 1) =~= args);
    } else {
        assert(args.take(i + 2).drop_last() =~= args.take(i + 1));
        lemma_arg_idents_stops(args, i + 1);
    }
}

/// The view of a `Result` carrying a list of identifiers.
pub open spec fn strings_res_view(r: Result<Vec<String>, LowerError>) -> Result<
    Seq<Seq<char>>,
    LowerErrorView,
> {
    match r {
        Result::Ok(v) => Result::Ok(strings_view(v@)),
        Result::Err(e) => Result::Err(e@),
    }
}

pub fn arg_idents(args: &Vec<Arg>) -> (r: Result<Vec<String>, LowerError>)
    ensures
        strings_res_view(r) == spec_arg_idents(args_view(args@)),
{
    let ghost av = args_view(args@);
    let mut out: Vec<String> = Vec::new();
    let mut i: usize = 0;
    proof {
        assert(av.take(0) =~= Seq::<ArgView>::empty());
        assert(strings_view(out@) =~= Seq::<Seq<char>>::empty());
    }
    while i < args.len()
        invariant
            i <= av.len(),
            av == args_view(args@),
            av.len() == args@.len(),
            spec_arg_idents(av.take(i as int)) == Result::<Seq<Seq<char>>, LowerErrorView>::Ok(
                strings_view(out@),
            ),
        decreases av.len() - i,
    {
        proof {
            assert(av.take(i + 1).drop_last() =~= av.take(i as int));
            assert(av.take(i + 1).last() == av[i as int]);
            assert(av[i as int] == args@[i as int]@);
        }
        match arg_ident(&args[i]) {
            Result::Ok(n) => {
                let ghost out0 = out@;
                out.push(n);
                proof {
                    assert(strings_view(out@) =~= strings_view(out0).push(n@));
                }
            },
            Result::Err(e) => {
                proof {
                    lemma_arg_idents_stops(av, i as int);
                }
                return Result::Err(e);
            },
        }
        i = i + 1;
    }
    proof {
        assert(av.take(av.len() as int) =~= av);
    }
    Result::Ok(out)
}

// ---- input parameters becoming variant fields ----

/// The field one state-input parameter becomes. The parameter must be
/// bound to a simple name and declared as a reference; a state keeps the
/// referenced type itself, while a superstate keeps a reference carrying
/// the synthetic scope lifetime, since it only borrows into a state.
pub open spec fn spec_input_field(a: TypedArgView, scoped: bool) -> Result<
    FieldView,
    LowerErrorView,
> {
    match a.binding {
        BindingView::Other => Result::Err(LowerErrorView::UnsupportedPattern),
        BindingView::Name(n) => match a.ty {
            TyView::Reference { is_mut, inner, .. } => Result::Ok(
                if scoped {
                    FieldView { name: n, ty: TyView::Reference { is_mut, scoped: true, inner } }
                } else {
                    FieldView { name: n, ty: TyView::Plain(inner) }
                },
            ),
            TyView::Unit => Result::Err(LowerErrorView::MalformedParameter(n)),
            TyView::Plain(_) => Result::Err(LowerErrorView::MalformedParameter(n)),
        },
    }
}

pub fn input_field(a: &TypedArg, scoped: bool) -> (r: Result<FieldDef, LowerError>)
    ensures
        result_view(r) == spec_input_field(a@, scoped),
{
    match &a.binding {
        Binding::Other => Result::Err(LowerError::UnsupportedPattern),
        Binding::Name(n) => match &a.ty {
            Ty::Reference { is_mut, inner, .. } => Result::Ok(
                if scoped {
                    FieldDef {
                        name: n.clone(),
                        ty: Ty::Reference { is_mut: *is_mut, scoped: true, inner: inner.clone() },
                    }
                } else {
                    FieldDef { name: n.clone(), ty: Ty::Plain(inner.clone()) }
                },
            ),
            Ty::Unit => Result::Err(LowerError::MalformedParameter(n.clone())),
            Ty::Plain(_) => Result::Err(LowerError::MalformedParameter(n.clone())),
        },
    }
}

/// The fields of a whole state-input list, in declaration order; the
/// first ill-formed parameter stops the pass.
pub open spec fn spec_input_fields(args: Seq<TypedArgView>, scoped: bool) -> Result<
    Seq<FieldView>,
    LowerErrorView,
>
    decreases args.len(),
{
    if args.len() == 0 {
        Result::Ok(Seq::empty())
    } else {
        match spec_input_fields(args.drop_last(), scoped) {
            Result::Err(e) => Result::Err(e),
            Result::Ok(fs) => match spec_input_field(args.last(), scoped) {
                Result::Err(e) => Result::Err(e),
                Result::Ok(f) => Result::Ok(fs.push(f)),
            },
        }
    }
}

proof fn lemma_input_fields_stops(args: Seq<TypedArgView>, scoped: bool, i: int)
    requires
        0 <= i < args.len(),
        spec_input_fields(args.take(i + 1), scoped) is Err,
    ensures
        spec_input_fields(args, scoped) == spec_input_fields(args.take(i + 1), scoped),
    decreases args.len() - i,
{
    if i + 1 == args.len() {
        assert(args.take(i + 1) =~= args);
    } else {
        assert(args.take(i + 2).drop_last() =~= args.take(i + 1));
        lemma_input_fields_stops(args, scoped, i + 1);
    }
}

/// The view of a `Result` carrying a field list.
pub open spec fn fields_res_view(r: Result<Vec<FieldDef>, LowerError>) -> Result<
    Seq<FieldView>,
    LowerErrorView,
> {
    match r {
        Result::Ok(v) => Result::Ok(fields_view(v@)),
        Result::Err(e) => Result::Err(e@),
    }
}

pub fn input_fields(args: &Vec<TypedArg>, scoped: bool) -> (r: Result<Vec<FieldDef>, LowerError>)
    ensures
        fields_res_view(r) == spec_input_fields(typed_args_view(args@), scoped),
{
    let ghost av = typed_args_view(args@);
    let mut out: Vec<FieldDef> = Vec::new();
    let mut i: usize = 0;
    proof {
        assert(av.take(0) =~= Seq::<TypedArgView>::empty());
        assert(fields_view(out@) =~= Seq::<FieldView>::empty());
    }
    while i < args.len()
        invariant
            i <= av.len(),
            av == typed_args_view(args@),
            av.len() == args@.len(),
            spec_input_fields(av.take(i as int), scoped) == Result::<
                Seq<FieldView>,
                LowerErrorView,
            >::Ok(fields_view(out@)),
        decreases av.len() - i,
    {
        proof {
            assert(av.take(i + 1).drop_last() =~= av.take(i as int));
            assert(av.take(i + 1).last() == av[i as int]);
            assert(av[i as int] == args@[i as int]@);
        }
        match input_field(&args[i], scoped) {
            Result::Ok(f) => {
                let ghost out0 = out@;
                out.push(f);
                proof {
                    assert(fields_view(out@) =~= fields_view(out0).push(f@));
                }
            },
            Result::Err(e) => {
                proof {
                    lemma_input_fields_stops(av, scoped, i as int);
                }
                return Result::Err(e);
            },
        }
        i = i + 1;
    }
    proof {
        assert(av.take(av.len() as int) =~= av);
    }
    Result::Ok(out)
}

// ---- overlaying local-storage fields over inherited input fields ----

/// The first position of a field with the given name, if any.
pub open spec fn spec_field_index(fields: Seq<FieldView>, name: Seq<char>) -> Option<int>
    decreases fields.len(),
{
    if fields.len() == 0 {
        Option::None
    } else if fields[0].name == name {
        Option::Some(0int)
    } else {
        match spec_field_index(fields.skip(1), name) {
            Option::None => Option::None,
            Option::Some(i) => Option::Some(i + 1),
        }
    }
}

/// Overlaying one local-storage field: it replaces the first field sharing
/// its name, or is appended when no field shares it.
pub open spec fn spec_overlay_one(fields: Seq<FieldView>, f: FieldView) -> Seq<FieldView> {
    match spec_field_index(fields, f.name) {
        Option::Some(i) => fields.update(i, f),
        Option::None => fields.push(f),
    }
}

/// Overlaying a whole local-storage list, in declaration order.
pub open spec fn spec_overlay(fields: Seq<FieldView>, locals: Seq<FieldView>) -> Seq<FieldView>
    decreases locals.len(),
{
    if locals.len() == 0 {
        fields
    } else {
        spec_overlay(spec_overlay_one(fields, locals[0]), locals.skip(1))
    }
}

proof fn lemma_field_index_first(fields: Seq<FieldView>, name: Seq<char>, j: int)
    requires
        0 <= j < fields.len(),
        fields[j].name == name,
        forall|k: int| 0 <= k < j ==> fields[k].name != name,
    ensures
        spec_field_index(fields, name) == Option::Some(j),
    decreases j,
{
    if j == 0 {
    } else {
        assert(fields[0].name != name);
        assert forall|k: int| 0 <= k < j - 1 implies fields.skip(1)[k].name != name by {
            assert(fields.skip(1)[k] == fields[k + 1]);
        }
        assert(fields.skip(1)[j - 1] == fields[j]);
        lemma_field_index_first(fields.skip(1), name, j - 1);
    }
}

proof fn lemma_field_index_none(fields: Seq<FieldView>, name: Seq<char>)
    requires
        forall|k: int| 0 <= k < fields.len() ==> fields[k].name != name,
    ensures
        spec_field_index(fields, name) is None,
    decreases fields.len(),
{
    if fields.len() == 0 {
    } else {
        assert forall|k: int| 0 <= k < fields.len() - 1 implies fields.skip(1)[k].name != name by {
            assert(fields.skip(1)[k] == fields[k + 1]);
        }
        lemma_field_index_none(fields.skip(1), name);
    }
}

/// Finds the first field with the given name.
pub fn find_field(fields: &Vec<FieldDef>, name: &String) -> (r: Option<usize>)
    ensures
        match r {
            Option::Some(j) => j < fields@.len() && spec_field_index(fields_view(fields@), name@)
                == Option::Some(j as int),
            Option::None => spec_field_index(fields_view(fields@), name@) is None,
        },
{
    let mut j: usize = 0;
    while j < fields.len()
        invariant
            j <= fields@.len(),
            forall|k: int| 0 <= k < j ==> fields_view(fields@)[k].name != name@,
        decreases fields@.len() - j,
    {
        if fields[j].name == *name {
            proof {
                assert(fields_view(fields@)[j as int] == fields@[j as int]@);
                lemma_field_index_first(fields_view(fields@), name@, j as int);
            }
            return Option::Some(j);
        }
        proof {
            assert(fields_view(fields@)[j as int] == fields@[j as int]@);
        }
        j = j + 1;
    }
    proof {
        lemma_field_index_none(fields_view(fields@), name@);
    }
    Option::None
}

/// Overlays the local-storage fields over the inherited input fields:
/// replace the first field of the same name, else append.
pub fn overlay_fields(fields: &mut Vec<FieldDef>, locals: &Vec<FieldDef>)
    ensures
        fields_view(final(fields)@) == spec_overlay(
            fields_view(old(fields)@),
            fields_view(locals@),
        ),
{
    let ghost lv = fields_view(locals@);
    let mut i: usize = 0;
    proof {
        assert(lv.skip(0) =~= lv);
    }
    while i < locals.len()
        invariant
            i <= lv.len(),
            lv == fields_view(locals@),
            lv.len() == locals@.len(),
            spec_overlay(fields_view(fields@), lv.skip(i as int)) == spec_overlay(
                fields_view(old(fields)@),
                fields_view(locals@),
            ),
        decreases lv.len() - i,
    {
        let ghost fv = fields_view(fields@);
        let ghost rest = lv.skip(i as int);
        proof {
            assert(rest[0] == lv[i as int]);
            assert(rest.skip(1) =~= lv.skip(i as int + 1));
            assert(lv[i as int] == locals@[i as int]@);
        }
        let f = locals[i].duplicate();
        match find_field(fields, &locals[i].name) {
            Option::Some(j) => {
                fields[j] = f;
                proof {
                    assert(fields_view(fields@) =~= fv.update(j as int, lv[i as int]));
                    assert(fields_view(fields@) == spec_overlay_one(fv, lv[i as int]));
                }
            },
            Option::None => {
                fields.push(f);
                proof {
                    assert(fields_view(fields@) =~= fv.push(lv[i as int]));
                    assert(fields_view(fields@) == spec_overlay_one(fv, lv[i as int]));
                }
            },
        }
        i = i + 1;
    }
    proof {
        assert(lv.skip(lv.len() as int) =~= Seq::<FieldView>::empty());
    }
}

// ---- whole-handler descriptors ----

/// The names of a field list, in order: what the match pattern binds.
pub open spec fn spec_field_names(fields: Seq<FieldView>) -> Seq<Seq<char>> {
    fields.map_values(|f: FieldView| f.name)
}

pub fn field_names(fields: &Vec<FieldDef>) -> (r: Vec<String>)
    ensures
        strings_view(r@) == spec_field_names(fields_view(fields@)),
{
    let mut out: Vec<String> = Vec::new();
    let mut i: usize = 0;
    proof {
        assert(strings_view(out@) =~= spec_field_names(fields_view(fields@)).take(0));
    }
    while i < fields.len()
        invariant
            i <= fields@.len(),
            strings_view(out@) == spec_field_names(fields_view(fields@)).take(i as int),
        decreases fields@.len() - i,
    {
        let ghost out0 = out@;
        out.push(fields[i].name.clone());
        proof {
            assert(strings_view(out@) =~= strings_view(out0).push(fields@[i as int].name@));
            assert(spec_field_names(fields_view(fields@)).take(i + 1) =~= spec_field_names(
                fields_view(fields@),
            ).take(i as int).push(fields@[i as int].name@));
        }
        i = i + 1;
    }
    proof {
        assert(spec_field_names(fields_view(fields@)).take(fields@.len() as int)
            =~= spec_field_names(fields_view(fields@)));
    }
    out
}

/// One state handler's descriptor: variant, pattern, dispatch call, empty
/// action slots, no superstate pattern yet, and the constructor.
pub open spec fn spec_lower_state(s: StateSpecView, m: MachineSpecView) -> Result<
    StateView,
    LowerErrorView,
> {
    match spec_input_fields(s.state_inputs, false) {
        Result::Err(e) => Result::Err(e),
        Result::Ok(base) => {
            let fields = spec_overlay(base, s.local_storage);
            match spec_arg_idents(s.inputs) {
                Result::Err(e) => Result::Err(e),
                Result::Ok(arg_names) => Result::Ok(
                    StateView {
                        variant: VariantView { name: pascal_of(s.handler_name), fields },
                        pat: PatternView {
                            enum_ident: m.state_ident,
                            variant: pascal_of(s.handler_name),
                            fields: spec_field_names(fields),
                        },
                        handler_call: CallView {
                            callee: m.shared_storage_ident,
                            method: s.handler_name,
                            args: arg_names,
                            is_await: s.is_async,
                        },
                        entry_action_call: ActionCallView::Empty,
                        exit_action_call: ActionCallView::Empty,
                        superstate_pat: Option::None,
                        constructor: ConstructorView {
                            name: s.handler_name,
                            params: fields,
                            variant: pascal_of(s.handler_name),
                        },
                    },
                ),
            }
        },
    }
}

/// Builds the descriptor of one state handler.
pub fn lower_state(state: &StateSpec, machine: &MachineSpec) -> (r: Result<State, LowerError>)
    ensures
        result_view(r) == spec_lower_state(state@, machine@),
{
    let variant_name = snake_to_pascal(state.handler_name.as_str());
    let mut fields = match input_fields(&state.state_inputs, false) {
        Result::Ok(fs) => fs,
        Result::Err(e) => {
            return Result::Err(e);
        },
    };
    overlay_fields(&mut fields, &state.local_storage);
    let arg_names = match arg_idents(&state.inputs) {
        Result::Ok(ns) => ns,
        Result::Err(e) => {
            return Result::Err(e);
        },
    };
    let pat_names = field_names(&fields);
    let ctor_params = crate::model::duplicate_fields(&fields);
    let st = State {
        variant: VariantDef { name: variant_name.clone(), fields },
        pat: PatternDef {
            enum_ident: machine.state_ident.clone(),
            variant: variant_name.clone(),
            fields: pat_names,
        },
        handler_call: CallDef {
            callee: machine.shared_storage_ident.clone(),
            method: state.handler_name.clone(),
            args: arg_names,
            is_await: state.is_async,
        },
        entry_action_call: ActionCall::Empty,
        exit_action_call: ActionCall::Empty,
        superstate_pat: Option::None,
        constructor: ConstructorDef {
            name: state.handler_name.clone(),
            params: ctor_params,
            variant: variant_name,
        },
    };
    proof {
        let expected = spec_lower_state(state@, machine@);
        assert(expected is Ok);
        assert(st@ =~= expected->Ok_0);
    }
    Result::Ok(st)
}

/// One superstate handler's descriptor: as a state's, minus the
/// constructor, its fields carrying the scope lifetime.
pub open spec fn spec_lower_superstate(s: SuperstateSpecView, m: MachineSpecView) -> Result<
    SuperstateView,
    LowerErrorView,
> {
    match spec_input_fields(s.state_inputs, true) {
        Result::Err(e) => Result::Err(e),
        Result::Ok(base) => {
            let fields = spec_overlay(base, s.local_storage);
            match spec_arg_idents(s.inputs) {
                Result::Err(e) => Result::Err(e),
                Result::Ok(arg_names) => Result::Ok(
                    SuperstateView {
                        variant: VariantView { name: pascal_of(s.handler_name), fields },
                        pat: PatternView {
                            enum_ident: m.superstate_ident,
                            variant: pascal_of(s.handler_name),
                            fields: spec_field_names(fields),
                        },
                        handler_call: CallView {
                            callee: m.shared_storage_ident,
                            method: s.handler_name,
                            args: arg_names,
                            is_await: s.is_async,
                        },
                        entry_action_call: ActionCallView::Empty,
                        exit_action_call: ActionCallView::Empty,
                        superstate_pat: Option::None,
                    },
                ),
            }
        },
    }
}

/// Builds the descriptor of one superstate handler.
pub fn lower_superstate(superstate: &SuperstateSpec, machine: &MachineSpec) -> (r: Result<
    Superstate,
    LowerError,
>)
    ensures
        result_view(r) == spec_lower_superstate(superstate@, machine@),
{
    let variant_name = snake_to_pascal(superstate.handler_name.as_str());
    let mut fields = match input_fields(&superstate.state_inputs, true) {
        Result::Ok(fs) => fs,
        Result::Err(e) => {
            return Result::Err(e);
        },
    };
    overlay_fields(&mut fields, &superstate.local_storage);
    let arg_names = match arg_idents(&superstate.inputs) {
        Result::Ok(ns) => ns,
        Result::Err(e) => {
            return Result::Err(e);
        },
    };
    let pat_names = field_names(&fields);
    let st = Superstate {
        variant: VariantDef { name: variant_name.clone(), fields },
        pat: PatternDef {
            enum_ident: machine.superstate_ident.clone(),
            variant: variant_name,
            fields: pat_names,
        },
        handler_call: CallDef {
            callee: machine.shared_storage_ident.clone(),
            method: superstate.handler_name.clone(),
            args: arg_names,
            is_await: superstate.is_async,
        },
        entry_action_call: ActionCall::Empty,
        exit_action_call: ActionCall::Empty,
        superstate_pat: Option::None,
    };
    proof {
        let expected = spec_lower_superstate(superstate@, machine@);
        assert(expected is Ok);
        assert(st@ =~= expected->Ok_0);
    }
    Result::Ok(st)
}

// ---- actions ----

/// The call arguments of an action handler: parameters in order, except
/// that the receiver is threaded to the front as the shared storage.
pub open spec fn spec_action_args(args: Seq<ArgView>) -> Result<Seq<Seq<char>>, LowerErrorView>
    decreases args.len(),
{
    if args.len() == 0 {
        Result::Ok(Seq::empty())
    } else {
        match spec_action_args(args.drop_last()) {
            Result::Err(e) => Result::Err(e),
            Result::Ok(s) => match args.last() {
                ArgView::Receiver => Result::Ok(s.insert(0, "shared_storage"@)),
                ArgView::Typed { binding: BindingView::Name(n), .. } => Result::Ok(s.push(n)),
                ArgView::Typed { binding: BindingView::Other, .. } => Result::Err(
                    LowerErrorView::UnsupportedPattern,
                ),
            },
        }
    }
}

proof fn lemma_action_args_stops(args: Seq<ArgView>, i: int)
    requires
        0 <= i < args.len(),
        spec_action_args(args.take(i + 1)) is Err,
    ensures
        spec_action_args(args) == spec_action_args(args.take(i + 1)),
    decreases args.len() - i,
{
    if i + 1 == args.len() {
        assert(args.take(i + 1) =~= args);
    } else {
        assert(args.take(i + 2).drop_last() =~= args.take(i + 1));
        lemma_action_args_stops(args, i + 1);
    }
}

pub fn action_args(args: &Vec<Arg>) -> (r: Result<Vec<String>, LowerError>)
    ensures
        strings_res_view(r) == spec_action_args(args_view(args@)),
{
    let ghost av = args_view(args@);
    let mut out: Vec<String> = Vec::new();
    let mut i: usize = 0;
    proof {
        assert(av.take(0) =~= Seq::<ArgView>::empty());
        assert(strings_view(out@) =~= Seq::<Seq<char>>::empty());
    }
    while i < args.len()
        invariant
            i <= av.len(),
            av == args_view(args@),
            av.len() == args@.len(),
            spec_action_args(av.take(i as int)) == Result::<Seq<Seq<char>>, LowerErrorView>::Ok(
                strings_view(out@),
            ),
        decreases av.len() - i,
    {
        proof {
            assert(av.take(i + 1).drop_last() =~= av.take(i as int));
            assert(av.take(i + 1).last() == av[i as int]);
            assert(av[i as int] == args@[i as int]@);
        }
        let ghost out0 = out@;
        match &args[i] {
            Arg::Receiver => {
                let name = shared_storage_name();
                proof {
                    assert(strings_view(out0.insert(0, name)) =~= strings_view(out0).insert(
                        0,
                        name@,
                    ));
                }
                out.insert(0, name);
            },
            Arg::Typed { binding: Binding::Name(n), .. } => {
                out.push(n.clone());
                proof {
                    assert(strings_view(out@) =~= strings_view(out0).push(n@));
                }
            },
            Arg::Typed { binding: Binding::Other, .. } => {
                proof {
                    lemma_action_args_stops(av, i as int);
                }
                return Result::Err(LowerError::UnsupportedPattern);
            },
        }
        i = i + 1;
    }
    proof {
        assert(av.take(av.len() as int) =~= av);
    }
    Result::Ok(out)
}

/// One action handler's descriptor: its bound dispatch call.
pub open spec fn spec_lower_action(a: ActionSpecView, m: MachineSpecView) -> Result<
    ActionView,
    LowerErrorView,
> {
    match spec_action_args(a.inputs) {
        Result::Err(e) => Result::Err(e),
        Result::Ok(arg_names) => Result::Ok(
            ActionView {
                handler_call: CallView {
                    callee: m.shared_storage_ident,
                    method: a.handler_name,
                    args: arg_names,
                    is_await: a.is_async,
                },
            },
        ),
    }
}

/// Builds the descriptor of one action handler.
pub fn lower_action(action: &ActionSpec, machine: &MachineSpec) -> (r: Result<Action, LowerError>)
    ensures
        result_view(r) == spec_lower_action(action@, machine@),
{
    let arg_names = match action_args(&action.inputs) {
        Result::Ok(ns) => ns,
        Result::Err(e) => {
            return Result::Err(e);
        },
    };
    let a = Action {
        handler_call: CallDef {
            callee: machine.shared_storage_ident.clone(),
            method: action.handler_name.clone(),
            args: arg_names,
            is_await: action.is_async,
        },
    };
    proof {
        let expected = spec_lower_action(action@, machine@);
        assert(expected is Ok);
        assert(a@ =~= expected->Ok_0);
    }
    Result::Ok(a)
}

// ---- building whole descriptor collections ----

/// The built state descriptors, keyed by handler name, in model order; the
/// first ill-formed handler stops the pass.
pub open spec fn spec_built_states(decls: Seq<StateSpecView>, m: MachineSpecView) -> Result<
    Seq<(Seq<char>, StateView)>,
    LowerErrorView,
>
    decreases decls.len(),
{
    if decls.len() == 0 {
        Result::Ok(Seq::empty())
    } else {
        match spec_built_states(decls.drop_last(), m) {
            Result::Err(e) => Result::Err(e),
            Result::Ok(done) => match spec_lower_state(decls.last(), m) {
                Result::Err(e) => Result::Err(e),
                Result::Ok(st) => Result::Ok(done.push((decls.last().handler_name, st))),
            },
        }
    }
}

proof fn lemma_built_states_stops(decls: Seq<StateSpecView>, m: MachineSpecView, i: int)
    requires
        0 <= i < decls.len(),
        spec_built_states(decls.take(i + 1), m) is Err,
    ensures
        spec_built_states(decls, m) == spec_built_states(decls.take(i + 1), m),
    decreases decls.len() - i,
{
    if i + 1 == decls.len() {
        assert(decls.take(i + 1) =~= decls);
    } else {
        assert(decls.take(i + 2).drop_last() =~= decls.take(i + 1));
        lemma_built_states_stops(decls, m, i + 1);
    }
}

/// Builds every state descriptor, keyed by handler name.
pub fn build_states(decls: &Vec<StateSpec>, machine: &MachineSpec) -> (r: Result<
    Vec<(String, State)>,
    LowerError,
>)
    ensures
        crate::ir::state_pairs_res_view(r) == spec_built_states(
            crate::model::state_specs_view(decls@),
            machine@,
        ),
{
    let ghost dv = crate::model::state_specs_view(decls@);
    let mut out: Vec<(String, State)> = Vec::new();
    let mut i: usize = 0;
    proof {
        assert(dv.take(0) =~= Seq::<StateSpecView>::empty());
        assert(crate::ir::state_pairs_view(out@) =~= Seq::<(Seq<char>, StateView)>::empty());
    }
    while i < decls.len()
        invariant
            i <= dv.len(),
            dv == crate::model::state_specs_view(decls@),
            dv.len() == decls@.len(),
            spec_built_states(dv.take(i as int), machine@) == Result::<
                Seq<(Seq<char>, StateView)>,
                LowerErrorView,
            >::Ok(crate::ir::state_pairs_view(out@)),
        decreases dv.len() - i,
    {
        proof {
            assert(dv.take(i + 1).drop_last() =~= dv.take(i as int));
            assert(dv.take(i + 1).last() == dv[i as int]);
            assert(dv[i as int] == decls@[i as int]@);
        }
        match lower_state(&decls[i], machine) {
            Result::Ok(st) => {
                let ghost o0 = out@;
                out.push((decls[i].handler_name.clone(), st));
                proof {
                    assert(crate::ir::state_pairs_view(out@) =~= crate::ir::state_pairs_view(
                        o0,
                    ).push((decls@[i as int].handler_name@, st@)));
                }
            },
            Result::Err(e) => {
                proof {
                    lemma_built_states_stops(dv, machine@, i as int);
                }
                return Result::Err(e);
            },
        }
        i = i + 1;
    }
    proof {
        assert(dv.take(dv.len() as int) =~= dv);
    }
    Result::Ok(out)
}

/// The built superstate descriptors, keyed by handler name, in model order.
pub open spec fn spec_built_superstates(decls: Seq<SuperstateSpecView>, m: MachineSpecView) -> Result<
    Seq<(Seq<char>, SuperstateView)>,
    LowerErrorView,
>
    decreases decls.len(),
{
    if decls.len() == 0 {
        Result::Ok(Seq::empty())
    } else {
        match spec_built_superstates(decls.drop_last(), m) {
            Result::Err(e) => Result::Err(e),
            Result::Ok(done) => match spec_lower_superstate(decls.last(), m) {
                Result::Err(e) => Result::Err(e),
                Result::Ok(st) => Result::Ok(done.push((decls.last().handler_name, st))),
            },
        }
    }
}

proof fn lemma_built_superstates_stops(decls: Seq<SuperstateSpecView>, m: MachineSpecView, i: int)
    requires
        0 <= i < decls.len(),
        spec_built_superstates(decls.take(i + 1), m) is Err,
    ensures
        spec_built_superstates(decls, m) == spec_built_superstates(decls.take(i + 1), m),
    decreases decls.len() - i,
{
    if i + 1 == decls.len() {
        assert(decls.take(i + 1) =~= decls);
    } else {
        assert(decls.take(i + 2).drop_last() =~= decls.take(i + 1));
        lemma_built_superstates_stops(decls, m, i + 1);
    }
}

/// Builds every superstate descriptor, keyed by handler name.
pub fn build_superstates(decls: &Vec<SuperstateSpec>, machine: &MachineSpec) -> (r: Result<
    Vec<(String, Superstate)>,
    LowerError,
>)
    ensures
        crate::ir::superstate_pairs_res_view(r) == spec_built_superstates(
            crate::model::superstate_specs_view(decls@),
            machine@,
        ),
{
    let ghost dv = crate::model::superstate_specs_view(decls@);
    let mut out: Vec<(String, Superstate)> = Vec::new();
    let mut i: usize = 0;
    proof {
        assert(dv.take(0) =~= Seq::<SuperstateSpecView>::empty());
        assert(crate::ir::superstate_pairs_view(out@) =~= Seq::<
            (Seq<char>, SuperstateView),
        >::empty());
    }
    while i < decls.len()
        invariant
            i <= dv.len(),
            dv == crate::model::superstate_specs_view(decls@),
            dv.len() == decls@.len(),
            spec_built_superstates(dv.take(i as int), machine@) == Result::<
                Seq<(Seq<char>, SuperstateView)>,
                LowerErrorView,
            >::Ok(crate::ir::superstate_pairs_view(out@)),
        decreases dv.len() - i,
    {
        proof {
            assert(dv.take(i + 1).drop_last() =~= dv.take(i as int));
            assert(dv.take(i + 1).last() == dv[i as int]);
            assert(dv[i as int] == decls@[i as int]@);
        }
        match lower_superstate(&decls[i], machine) {
            Result::Ok(st) => {
                let ghost o0 = out@;
                out.push((decls[i].handler_name.clone(), st));
                proof {
                    assert(crate::ir::superstate_pairs_view(out@)
                        =~= crate::ir::superstate_pairs_view(o0).push(
                        (decls@[i as int].handler_name@, st@),
                    ));
                }
            },
            Result::Err(e) => {
                proof {
                    lemma_built_superstates_stops(dv, machine@, i as int);
                }
                return Result::Err(e);
            },
        }
        i = i + 1;
    }
    proof {
        assert(dv.take(dv.len() as int) =~= dv);
    }
    Result::Ok(out)
}

/// The built action descriptors, keyed by handler name, in model order.
pub open spec fn spec_built_actions(decls: Seq<ActionSpecView>, m: MachineSpecView) -> Result<
    Seq<(Seq<char>, ActionView)>,
    LowerErrorView,
>
    decreases decls.len(),
{
    if decls.len() == 0 {
        Result::Ok(Seq::empty())
    } else {
        match spec_built_actions(decls.drop_last(), m) {
            Result::Err(e) => Result::Err(e),
            Result::Ok(done) => match spec_lower_action(decls.last(), m) {
                Result::Err(e) => Result::Err(e),
                Result::Ok(a) => Result::Ok(done.push((decls.last().handler_name, a))),
            },
        }
    }
}

proof fn lemma_built_actions_stops(decls: Seq<ActionSpecView>, m: MachineSpecView, i: int)
    requires
        0 <= i < decls.len(),
        spec_built_actions(decls.take(i + 1), m) is Err,
    ensures
        spec_built_actions(decls, m) == spec_built_actions(decls.take(i + 1), m),
    decreases decls.len() - i,
{
    if i + 1 == decls.len() {
        assert(decls.take(i + 1) =~= decls);
    } else {
        assert(decls.take(i + 2).drop_last() =~= decls.take(i + 1));
        lemma_built_actions_stops(decls, m, i + 1);
    }
}

/// Builds every action descriptor, keyed by handler name.
pub fn build_actions(decls: &Vec<ActionSpec>, machine: &MachineSpec) -> (r: Result<
    Vec<(String, Action)>,
    LowerError,
>)
    ensures
        crate::ir::action_pairs_res_view(r) == spec_built_actions(
            crate::model::action_specs_view(decls@),
            machine@,
        ),
{
    let ghost dv = crate::model::action_specs_view(decls@);
    let mut out: Vec<(String, Action)> = Vec::new();
    let mut i: usize = 0;
    proof {
        assert(dv.take(0) =~= Seq::<ActionSpecView>::empty());
        assert(crate::ir::action_pairs_view(out@) =~= Seq::<(Seq<char>, ActionView)>::empty());
    }
    while i < decls.len()
        invariant
            i <= dv.len(),
            dv == crate::model::action_specs_view(decls@),
            dv.len() == decls@.len(),
            spec_built_actions(dv.take(i as int), machine@) == Result::<
                Seq<(Seq<char>, ActionView)>,
                LowerErrorView,
            >::Ok(crate::ir::action_pairs_view(out@)),
        decreases dv.len() - i,
    {
        proof {
            assert(dv.take(i + 1).drop_last() =~= dv.take(i as int));
            assert(dv.take(i + 1).last() == dv[i as int]);
            assert(dv[i as int] == decls@[i as int]@);
        }
        match lower_action(&decls[i], machine) {
            Result::Ok(a) => {
                let ghost o0 = out@;
                out.push((decls[i].handler_name.clone(), a));
                proof {
                    assert(crate::ir::action_pairs_view(out@) =~= crate::ir::action_pairs_view(
                        o0,
                    ).push((decls@[i as int].handler_name@, a@)));
                }
            },
            Result::Err(e) => {
                proof {
                    lemma_built_actions_stops(dv, machine@, i as int);
                }
                return Result::Err(e);
            },
        }
        i = i + 1;
    }
    proof {
        assert(dv.take(dv.len() as int) =~= dv);
    }
    Result::Ok(out)
}

} // verus!
