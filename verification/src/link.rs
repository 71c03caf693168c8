//! Cross-reference resolution: each state's declared superstate name and
//! each state's or superstate's declared entry/exit action names are looked
//! up against the built descriptor collections, and the resolved pattern or
//! call is bound into the descriptor. Any unresolved name stops the pass.

use vstd::prelude::*;

use crate::ir::{
    action_pairs_view, result_view, state_pairs_res_view, state_pairs_view,
    superstate_pairs_res_view, superstate_pairs_view, Action, ActionCall, ActionCallView,
    ActionSlot, ActionView, LowerError, LowerErrorView, PatternView, State, StateView, Superstate,
    SuperstateView, UnresolvedReference, UnresolvedReferenceView,
};
use crate::model::{StateSpec, StateSpecView, SuperstateSpec, SuperstateSpecView};

verus! {

// ---- lookups against the built collections ----

/// The first superstate descriptor keyed by the given name, if any.
pub open spec fn spec_lookup_superstate(
    sups: Seq<(Seq<char>, SuperstateView)>,
    name: Seq<char>,
) -> Option<SuperstateView>
    decreases sups.len(),
{
    if sups.len() == 0 {
        Option::None
    } else if sups[0].0 == name {
        Option::Some(sups[0].1)
    } else {
        spec_lookup_superstate(sups.skip(1), name)
    }
}

/// The first action descriptor keyed by the given name, if any.
pub open spec fn spec_lookup_action(acts: Seq<(Seq<char>, ActionView)>, name: Seq<char>) -> Option<
    ActionView,
>
    decreases acts.len(),
{
    if acts.len() == 0 {
        Option::None
    } else if acts[0].0 == name {
        Option::Some(acts[0].1)
    } else {
        spec_lookup_action(acts.skip(1), name)
    }
}

proof fn lemma_lookup_superstate_first(
    sups: Seq<(Seq<char>, SuperstateView)>,
    name: Seq<char>,
    j: int,
)
    requires
        0 <= j < sups.len(),
        sups[j].0 == name,
        forall|k: int| 0 <= k < j ==> sups[k].0 != name,
    ensures
        spec_lookup_superstate(sups, name) == Option::Some(sups[j].1),
    decreases j,
{
    if j == 0 {
    } else {
        assert(sups[0].0 != name);
        assert forall|k: int| 0 <= k < j - 1 implies sups.skip(1)[k].0 != name by {
            assert(sups.skip(1)[k] == sups[k + 1]);
        }
        assert(sups.skip(1)[j - 1] == sups[j]);
        lemma_lookup_superstate_first(sups.skip(1), name, j - 1);
    }
}

proof fn lemma_lookup_superstate_none(sups: Seq<(Seq<char>, SuperstateView)>, name: Seq<char>)
    requires
        forall|k: int| 0 <= k < sups.len() ==> sups[k].0 != name,
    ensures
        spec_lookup_superstate(sups, name) is None,
    decreases sups.len(),
{
    if sups.len() == 0 {
    } else {
        assert forall|k: int| 0 <= k < sups.len() - 1 implies sups.skip(1)[k].0 != name by {
            assert(sups.skip(1)[k] == sups[k + 1]);
        }
        lemma_lookup_superstate_none(sups.skip(1), name);
    }
}

proof fn lemma_lookup_action_first(acts: Seq<(Seq<char>, ActionView)>, name: Seq<char>, j: int)
    requires
        0 <= j < acts.len(),
        acts[j].0 == name,
        forall|k: int| 0 <= k < j ==> acts[k].0 != name,
    ensures
        spec_lookup_action(acts, name) == Option::Some(acts[j].1),
    decreases j,
{
    if j == 0 {
    } else {
        assert(acts[0].0 != name);
        assert forall|k: int| 0 <= k < j - 1 implies acts.skip(1)[k].0 != name by {
            assert(acts.skip(1)[k] == acts[k + 1]);
        }
        assert(acts.skip(1)[j - 1] == acts[j]);
        lemma_lookup_action_first(acts.skip(1), name, j - 1);
    }
}

proof fn lemma_lookup_action_none(acts: Seq<(Seq<char>, ActionView)>, name: Seq<char>)
    requires
        forall|k: int| 0 <= k < acts.len() ==> acts[k].0 != name,
    ensures
        spec_lookup_action(acts, name) is None,
    decreases acts.len(),
{
    if acts.len() == 0 {
    } else {
        assert forall|k: int| 0 <= k < acts.len() - 1 implies acts.skip(1)[k].0 != name by {
            assert(acts.skip(1)[k] == acts[k + 1]);
        }
        lemma_lookup_action_none(acts.skip(1), name);
    }
}

/// Finds the first superstate descriptor keyed by the given name.
pub fn find_superstate(sups: &Vec<(String, Superstate)>, name: &String) -> (r: Option<usize>)
    ensures
        match r {
            Option::Some(j) => j < sups@.len() && spec_lookup_superstate(
                superstate_pairs_view(sups@),
                name@,
            ) == Option::Some(sups@[j as int].1@),
            Option::None => spec_lookup_superstate(superstate_pairs_view(sups@), name@) is None,
        },
{
    let mut j: usize = 0;
    while j < sups.len()
        invariant
            j <= sups@.len(),
            forall|k: int| 0 <= k < j ==> superstate_pairs_view(sups@)[k].0 != name@,
        decreases sups@.len() - j,
    {
        if sups[j].0 == *name {
            proof {
                assert(superstate_pairs_view(sups@)[j as int].0 == name@);
                lemma_lookup_superstate_first(superstate_pairs_view(sups@), name@, j as int);
            }
            return Option::Some(j);
        }
        proof {
            assert(superstate_pairs_view(sups@)[j as int].0 == sups@[j as int].0@);
        }
        j = j + 1;
    }
    proof {
        lemma_lookup_superstate_none(superstate_pairs_view(sups@), name@);
    }
    Option::None
}

/// Finds the first action descriptor keyed by the given name.
pub fn find_action(acts: &Vec<(String, Action)>, name: &String) -> (r: Option<usize>)
    ensures
        match r {
            Option::Some(j) => j < acts@.len() && spec_lookup_action(
                action_pairs_view(acts@),
                name@,
            ) == Option::Some(acts@[j as int].1@),
            Option::None => spec_lookup_action(action_pairs_view(acts@), name@) is None,
        },
{
    let mut j: usize = 0;
    while j < acts.len()
        invariant
            j <= acts@.len(),
            forall|k: int| 0 <= k < j ==> action_pairs_view(acts@)[k].0 != name@,
        decreases acts@.len() - j,
    {
        if acts[j].0 == *name {
            proof {
                assert(action_pairs_view(acts@)[j as int].0 == name@);
                lemma_lookup_action_first(action_pairs_view(acts@), name@, j as int);
            }
            return Option::Some(j);
        }
        proof {
            assert(action_pairs_view(acts@)[j as int].0 == acts@[j as int].0@);
        }
        j = j + 1;
    }
    proof {
        lemma_lookup_action_none(action_pairs_view(acts@), name@);
    }
    Option::None
}

// ---- resolving one descriptor's references ----

/// What the superstate-pattern slot holds after linking: unchanged when no
/// superstate is declared; the declared superstate's pattern when the name
/// resolves; an unresolved-superstate failure otherwise.
pub open spec fn spec_linked_parent(
    prev: Option<PatternView>,
    declared: Option<Seq<char>>,
    sups: Seq<(Seq<char>, SuperstateView)>,
) -> Result<Option<PatternView>, LowerErrorView> {
    match declared {
        Option::None => Result::Ok(prev),
        Option::Some(n) => match spec_lookup_superstate(sups, n) {
            Option::Some(p) => Result::Ok(Option::Some(p.pat)),
            Option::None => Result::Err(
                LowerErrorView::Unresolved(UnresolvedReferenceView::Superstate(n)),
            ),
        },
    }
}

/// What an action slot holds after linking: unchanged when no action is
/// declared; the declared action's call when the name resolves; an
/// unresolved-action failure, tagged with the slot, otherwise.
pub open spec fn spec_linked_action(
    prev: ActionCallView,
    declared: Option<Seq<char>>,
    acts: Seq<(Seq<char>, ActionView)>,
    slot: ActionSlot,
) -> Result<ActionCallView, LowerErrorView> {
    match declared {
        Option::None => Result::Ok(prev),
        Option::Some(n) => match spec_lookup_action(acts, n) {
            Option::Some(a) => Result::Ok(ActionCallView::Bound(a.handler_call)),
            Option::None => Result::Err(
                LowerErrorView::Unresolved(UnresolvedReferenceView::Action(n, slot)),
            ),
        },
    }
}

/// One state descriptor after linking: its superstate pattern, entry
/// action, and exit action resolved, in that order, everything else
/// unchanged.
pub open spec fn spec_link_state(
    st: StateView,
    decl: StateSpecView,
    sups: Seq<(Seq<char>, SuperstateView)>,
    acts: Seq<(Seq<char>, ActionView)>,
) -> Result<StateView, LowerErrorView> {
    match spec_linked_parent(st.superstate_pat, decl.superstate, sups) {
        Result::Err(e) => Result::Err(e),
        Result::Ok(sp) => match spec_linked_action(
            st.entry_action_call,
            decl.entry_action,
            acts,
            ActionSlot::Entry,
        ) {
            Result::Err(e) => Result::Err(e),
            Result::Ok(en) => match spec_linked_action(
                st.exit_action_call,
                decl.exit_action,
                acts,
                ActionSlot::Exit,
            ) {
                Result::Err(e) => Result::Err(e),
                Result::Ok(ex) => Result::Ok(
                    StateView {
                        superstate_pat: sp,
                        entry_action_call: en,
                        exit_action_call: ex,
                        ..st
                    },
                ),
            },
        },
    }
}

/// One superstate descriptor after linking: its parent-superstate pattern
/// and entry/exit actions resolved, in that order, everything else
/// unchanged.
pub open spec fn spec_link_superstate(
    st: SuperstateView,
    decl: SuperstateSpecView,
    sups: Seq<(Seq<char>, SuperstateView)>,
    acts: Seq<(Seq<char>, ActionView)>,
) -> Result<SuperstateView, LowerErrorView> {
    match spec_linked_parent(st.superstate_pat, decl.superstate, sups) {
        Result::Err(e) => Result::Err(e),
        Result::Ok(sp) => match spec_linked_action(
            st.entry_action_call,
            decl.entry_action,
            acts,
            ActionSlot::Entry,
        ) {
            Result::Err(e) => Result::Err(e),
            Result::Ok(en) => match spec_linked_action(
                st.exit_action_call,
                decl.exit_action,
                acts,
                ActionSlot::Exit,
            ) {
                Result::Err(e) => Result::Err(e),
                Result::Ok(ex) => Result::Ok(
                    SuperstateView {
                        superstate_pat: sp,
                        entry_action_call: en,
                        exit_action_call: ex,
                        ..st
                    },
                ),
            },
        },
    }
}

/// Links one state descriptor against the built superstates and actions.
pub fn link_state(
    st: &State,
    decl: &StateSpec,
    sups: &Vec<(String, Superstate)>,
    acts: &Vec<(String, Action)>,
) -> (r: Result<State, LowerError>)
    ensures
        result_view(r) == spec_link_state(
            st@,
            decl@,
            superstate_pairs_view(sups@),
            action_pairs_view(acts@),
        ),
{
    let mut out = st.duplicate();
    match &decl.superstate {
        Option::Some(n) => match find_superstate(sups, n) {
            Option::Some(j) => {
                out.superstate_pat = Option::Some(sups[j].1.pat.duplicate());
            },
            Option::None => {
                return Result::Err(
                    LowerError::Unresolved(UnresolvedReference::Superstate(n.clone())),
                );
            },
        },
        Option::None => {},
    }
    match &decl.entry_action {
        Option::Some(n) => match find_action(acts, n) {
            Option::Some(j) => {
                out.entry_action_call = ActionCall::Bound(acts[j].1.handler_call.duplicate());
            },
            Option::None => {
                return Result::Err(
                    LowerError::Unresolved(
                        UnresolvedReference::Action(n.clone(), ActionSlot::Entry),
                    ),
                );
            },
        },
        Option::None => {},
    }
    match &decl.exit_action {
        Option::Some(n) => match find_action(acts, n) {
            Option::Some(j) => {
                out.exit_action_call = ActionCall::Bound(acts[j].1.handler_call.duplicate());
            },
            Option::None => {
                return Result::Err(
                    LowerError::Unresolved(
                        UnresolvedReference::Action(n.clone(), ActionSlot::Exit),
                    ),
                );
            },
        },
        Option::None => {},
    }
    proof {
        let expected = spec_link_state(
            st@,
            decl@,
            superstate_pairs_view(sups@),
            action_pairs_view(acts@),
        );
        assert(expected is Ok);
        assert(out@ =~= expected->Ok_0);
    }
    Result::Ok(out)
}

/// Links one superstate descriptor against the built superstates and
/// actions. The lookup source is the collection as it stood before any
/// superstate was linked; only patterns are read from it, and linking
/// never changes a pattern.
pub fn link_superstate(
    st: &Superstate,
    decl: &SuperstateSpec,
    sups: &Vec<(String, Superstate)>,
    acts: &Vec<(String, Action)>,
) -> (r: Result<Superstate, LowerError>)
    ensures
        result_view(r) == spec_link_superstate(
            st@,
            decl@,
            superstate_pairs_view(sups@),
            action_pairs_view(acts@),
        ),
{
    let mut out = st.duplicate();
    match &decl.superstate {
        Option::Some(n) => match find_superstate(sups, n) {
            Option::Some(j) => {
                out.superstate_pat = Option::Some(sups[j].1.pat.duplicate());
            },
            Option::None => {
                return Result::Err(
                    LowerError::Unresolved(UnresolvedReference::Superstate(n.clone())),
                );
            },
        },
        Option::None => {},
    }
    match &decl.entry_action {
        Option::Some(n) => match find_action(acts, n) {
            Option::Some(j) => {
                out.entry_action_call = ActionCall::Bound(acts[j].1.handler_call.duplicate());
            },
            Option::None => {
                return Result::Err(
                    LowerError::Unresolved(
                        UnresolvedReference::Action(n.clone(), ActionSlot::Entry),
                    ),
                );
            },
        },
        Option::None => {},
    }
    match &decl.exit_action {
        Option::Some(n) => match find_action(acts, n) {
            Option::Some(j) => {
                out.exit_action_call = ActionCall::Bound(acts[j].1.handler_call.duplicate());
            },
            Option::None => {
                return Result::Err(
                    LowerError::Unresolved(
                        UnresolvedReference::Action(n.clone(), ActionSlot::Exit),
                    ),
                );
            },
        },
        Option::None => {},
    }
    proof {
        let expected = spec_link_superstate(
            st@,
            decl@,
            superstate_pairs_view(sups@),
            action_pairs_view(acts@),
        );
        assert(expected is Ok);
        assert(out@ =~= expected->Ok_0);
    }
    Result::Ok(out)
}

// ---- linking whole collections ----

/// Every state descriptor linked, in order; the first unresolved name
/// stops the pass. Descriptors and declarations correspond position by
/// position.
pub open spec fn spec_link_states(
    sts: Seq<(Seq<char>, StateView)>,
    decls: Seq<StateSpecView>,
    sups: Seq<(Seq<char>, SuperstateView)>,
    acts: Seq<(Seq<char>, ActionView)>,
) -> Result<Seq<(Seq<char>, StateView)>, LowerErrorView>
    decreases sts.len(),
{
    if sts.len() == 0 {
        Result::Ok(Seq::empty())
    } else {
        match spec_link_states(sts.drop_last(), decls.drop_last(), sups, acts) {
            Result::Err(e) => Result::Err(e),
            Result::Ok(done) => match spec_link_state(sts.last().1, decls.last(), sups, acts) {
                Result::Err(e) => Result::Err(e),
                Result::Ok(st) => Result::Ok(done.push((sts.last().0, st))),
            },
        }
    }
}

proof fn lemma_link_states_stops(
    sts: Seq<(Seq<char>, StateView)>,
    decls: Seq<StateSpecView>,
    sups: Seq<(Seq<char>, SuperstateView)>,
    acts: Seq<(Seq<char>, ActionView)>,
    i: int,
)
    requires
        sts.len() == decls.len(),
        0 <= i < sts.len(),
        spec_link_states(sts.take(i + 1), decls.take(i + 1), sups, acts) is Err,
    ensures
        spec_link_states(sts, decls, sups, acts) == spec_link_states(
            sts.take(i + 1),
            decls.take(i + 1),
            sups,
            acts,
        ),
    decreases sts.len() - i,
{
    if i + 1 == sts.len() {
        assert(sts.take(i + 1) =~= sts);
        assert(decls.take(i + 1) =~= decls);
    } else {
        assert(sts.take(i + 2).drop_last() =~= sts.take(i + 1));
        assert(decls.take(i + 2).drop_last() =~= decls.take(i + 1));
        lemma_link_states_stops(sts, decls, sups, acts, i + 1);
    }
}

/// Links every state descriptor against the built superstates and
/// actions, producing the fully bound collection.
pub fn link_states(
    built: &Vec<(String, State)>,
    decls: &Vec<StateSpec>,
    sups: &Vec<(String, Superstate)>,
    acts: &Vec<(String, Action)>,
) -> (r: Result<Vec<(String, State)>, LowerError>)
    requires
        built@.len() == decls@.len(),
    ensures
        state_pairs_res_view(r) == spec_link_states(
            state_pairs_view(built@),
            crate::model::state_specs_view(decls@),
            superstate_pairs_view(sups@),
            action_pairs_view(acts@),
        ),
{
    let ghost bv = state_pairs_view(built@);
    let ghost dv = crate::model::state_specs_view(decls@);
    let ghost supv = superstate_pairs_view(sups@);
    let ghost actv = action_pairs_view(acts@);
    let mut out: Vec<(String, State)> = Vec::new();
    let mut i: usize = 0;
    proof {
        assert(bv.take(0) =~= Seq::<(Seq<char>, StateView)>::empty());
        assert(dv.take(0) =~= Seq::<StateSpecView>::empty());
        assert(state_pairs_view(out@) =~= Seq::<(Seq<char>, StateView)>::empty());
    }
    while i < decls.len()
        invariant
            i <= dv.len(),
            bv == state_pairs_view(built@),
            dv == crate::model::state_specs_view(decls@),
            dv.len() == decls@.len(),
            bv.len() == dv.len(),
            supv == superstate_pairs_view(sups@),
            actv == action_pairs_view(acts@),
            spec_link_states(bv.take(i as int), dv.take(i as int), supv, actv) == Result::<
                Seq<(Seq<char>, StateView)>,
                LowerErrorView,
            >::Ok(state_pairs_view(out@)),
        decreases dv.len() - i,
    {
        proof {
            assert(bv.take(i + 1).drop_last() =~= bv.take(i as int));
            assert(dv.take(i + 1).drop_last() =~= dv.take(i as int));
            assert(bv.take(i + 1).last() == bv[i as int]);
            assert(dv.take(i + 1).last() == dv[i as int]);
            assert(dv[i as int] == decls@[i as int]@);
            assert(bv[i as int] == (built@[i as int].0@, built@[i as int].1@));
        }
        match link_state(&built[i].1, &decls[i], sups, acts) {
            Result::Ok(st) => {
                let ghost o0 = out@;
                out.push((built[i].0.clone(), st));
                proof {
                    assert(state_pairs_view(out@) =~= state_pairs_view(o0).push(
                        (bv[i as int].0, st@),
                    ));
                }
            },
            Result::Err(e) => {
                proof {
                    assert(spec_link_state(bv[i as int].1, dv[i as int], supv, actv) == Result::<
                        StateView,
                        LowerErrorView,
                    >::Err(e@));
                    assert(spec_link_states(bv.take(i + 1), dv.take(i + 1), supv, actv)
                        == Result::<Seq<(Seq<char>, StateView)>, LowerErrorView>::Err(e@));
                    lemma_link_states_stops(bv, dv, supv, actv, i as int);
                }
                return Result::Err(e);
            },
        }
        i = i + 1;
    }
    proof {
        assert(bv.take(bv.len() as int) =~= bv);
        assert(dv.take(dv.len() as int) =~= dv);
    }
    Result::Ok(out)
}

/// Every superstate descriptor linked, in order, against the collection as
/// built; the first unresolved name stops the pass.
pub open spec fn spec_link_superstates(
    sts: Seq<(Seq<char>, SuperstateView)>,
    decls: Seq<SuperstateSpecView>,
    sups: Seq<(Seq<char>, SuperstateView)>,
    acts: Seq<(Seq<char>, ActionView)>,
) -> Result<Seq<(Seq<char>, SuperstateView)>, LowerErrorView>
    decreases sts.len(),
{
    if sts.len() == 0 {
        Result::Ok(Seq::empty())
    } else {
        match spec_link_superstates(sts.drop_last(), decls.drop_last(), sups, acts) {
            Result::Err(e) => Result::Err(e),
            Result::Ok(done) => match spec_link_superstate(sts.last().1, decls.last(), sups, acts) {
                Result::Err(e) => Result::Err(e),
                Result::Ok(st) => Result::Ok(done.push((sts.last().0, st))),
            },
        }
    }
}

proof fn lemma_link_superstates_stops(
    sts: Seq<(Seq<char>, SuperstateView)>,
    decls: Seq<SuperstateSpecView>,
    sups: Seq<(Seq<char>, SuperstateView)>,
    acts: Seq<(Seq<char>, ActionView)>,
    i: int,
)
    requires
        sts.len() == decls.len(),
        0 <= i < sts.len(),
        spec_link_superstates(sts.take(i + 1), decls.take(i + 1), sups, acts) is Err,
    ensures
        spec_link_superstates(sts, decls, sups, acts) == spec_link_superstates(
            sts.take(i + 1),
            decls.take(i + 1),
            sups,
            acts,
        ),
    decreases sts.len() - i,
{
    if i + 1 == sts.len() {
        assert(sts.take(i + 1) =~= sts);
        assert(decls.take(i + 1) =~= decls);
    } else {
        assert(sts.take(i + 2).drop_last() =~= sts.take(i + 1));
        assert(decls.take(i + 2).drop_last() =~= decls.take(i + 1));
        lemma_link_superstates_stops(sts, decls, sups, acts, i + 1);
    }
}

/// Links every superstate descriptor against the collection as built,
/// which stays immutable while its members are linked, and the built
/// actions.
pub fn link_superstates(
    built: &Vec<(String, Superstate)>,
    decls: &Vec<SuperstateSpec>,
    acts: &Vec<(String, Action)>,
) -> (r: Result<Vec<(String, Superstate)>, LowerError>)
    requires
        built@.len() == decls@.len(),
    ensures
        superstate_pairs_res_view(r) == spec_link_superstates(
            superstate_pairs_view(built@),
            crate::model::superstate_specs_view(decls@),
            superstate_pairs_view(built@),
            action_pairs_view(acts@),
        ),
{
    let ghost bv = superstate_pairs_view(built@);
    let ghost dv = crate::model::superstate_specs_view(decls@);
    let ghost actv = action_pairs_view(acts@);
    let mut out: Vec<(String, Superstate)> = Vec::new();
    let mut i: usize = 0;
    proof {
        assert(bv.take(0) =~= Seq::<(Seq<char>, SuperstateView)>::empty());
        assert(dv.take(0) =~= Seq::<SuperstateSpecView>::empty());
        assert(superstate_pairs_view(out@) =~= Seq::<(Seq<char>, SuperstateView)>::empty());
    }
    while i < decls.len()
        invariant
            i <= dv.len(),
            bv == superstate_pairs_view(built@),
            dv == crate::model::superstate_specs_view(decls@),
            dv.len() == decls@.len(),
            bv.len() == dv.len(),
            actv == action_pairs_view(acts@),
            spec_link_superstates(bv.take(i as int), dv.take(i as int), bv, actv) == Result::<
                Seq<(Seq<char>, SuperstateView)>,
                LowerErrorView,
            >::Ok(superstate_pairs_view(out@)),
        decreases dv.len() - i,
    {
        proof {
            assert(bv.take(i + 1).drop_last() =~= bv.take(i as int));
            assert(dv.take(i + 1).drop_last() =~= dv.take(i as int));
            assert(bv.take(i + 1).last() == bv[i as int]);
            assert(dv.take(i + 1).last() == dv[i as int]);
            assert(dv[i as int] == decls@[i as int]@);
            assert(bv[i as int] == (built@[i as int].0@, built@[i as int].1@));
        }
        match link_superstate(&built[i].1, &decls[i], built, acts) {
            Result::Ok(st) => {
                let ghost o0 = out@;
                out.push((built[i].0.clone(), st));
                proof {
                    assert(superstate_pairs_view(out@) =~= superstate_pairs_view(o0).push(
                        (bv[i as int].0, st@),
                    ));
                }
            },
            Result::Err(e) => {
                proof {
                    assert(spec_link_superstate(bv[i as int].1, dv[i as int], bv, actv)
                        == Result::<SuperstateView, LowerErrorView>::Err(e@));
                    assert(spec_link_superstates(bv.take(i + 1), dv.take(i + 1), bv, actv)
                        == Result::<Seq<(Seq<char>, SuperstateView)>, LowerErrorView>::Err(e@));
                    lemma_link_superstates_stops(bv, dv, bv, actv, i as int);
                }
                return Result::Err(e);
            },
        }
        i = i + 1;
    }
    proof {
        assert(bv.take(bv.len() as int) =~= bv);
        assert(dv.take(dv.len() as int) =~= dv);
    }
    Result::Ok(out)
}

} // verus!
