//! Partitioning the shared-storage type's generic parameters: re-associate
//! `where`-clause predicates to the parameter they constrain, then keep
//! exactly the parameters that are both allowed to propagate and referenced
//! by some variant's field types, in their original declaration order.

use vstd::prelude::*;
use vstd::string::StringExecFns;

use crate::ir::{FilteredGenerics, FilteredGenericsView};
use crate::model::{
    params_view, predicates_view, strings_view, GenericParamDef, GenericParamView, GenericsSpec,
    GenericsView, ParamKind, PredicateDef, PredicateView, StateSpec, StateSpecView, SuperstateSpec,
    SuperstateSpecView,
};

verus! {

/// One shared-storage generic parameter with the predicates that
/// constrain it, re-associated from the `where` clause.
#[derive(Debug, PartialEq, Eq)]
pub struct GenericEntry {
    pub param: GenericParamDef,
    pub predicates: Vec<PredicateDef>,
}

#[verifier::ext_equal]
pub struct GenericEntryView {
    pub param: GenericParamView,
    pub predicates: Seq<PredicateView>,
}

impl View for GenericEntry {
    type V = GenericEntryView;

    open spec fn view(&self) -> GenericEntryView {
        GenericEntryView { param: self.param@, predicates: predicates_view(self.predicates@) }
    }
}

pub open spec fn entries_view(v: Seq<GenericEntry>) -> Seq<GenericEntryView> {
    v.map_values(|e: GenericEntry| e@)
}

// ---- building the parameter table ----

/// The first entry whose parameter a predicate's target names, if any.
pub open spec fn spec_entry_index(entries: Seq<GenericEntryView>, target: Seq<char>) -> Option<int>
    decreases entries.len(),
{
    if entries.len() == 0 {
        Option::None
    } else if entries[0].param.name == target {
        Option::Some(0int)
    } else {
        match spec_entry_index(entries.skip(1), target) {
            Option::None => Option::None,
            Option::Some(i) => Option::Some(i + 1),
        }
    }
}

/// Attaching one predicate: it joins the first entry whose parameter it
/// constrains; one constraining no parameter is dropped.
pub open spec fn spec_attach_one(entries: Seq<GenericEntryView>, p: PredicateView) -> Seq<
    GenericEntryView,
> {
    match spec_entry_index(entries, p.target) {
        Option::Some(i) => entries.update(
            i,
            GenericEntryView {
                param: entries[i].param,
                predicates: entries[i].predicates.push(p),
            },
        ),
        Option::None => entries,
    }
}

/// Attaching a whole `where` clause, in declaration order.
pub open spec fn spec_attach(entries: Seq<GenericEntryView>, preds: Seq<PredicateView>) -> Seq<
    GenericEntryView,
>
    decreases preds.len(),
{
    if preds.len() == 0 {
        entries
    } else {
        spec_attach(spec_attach_one(entries, preds[0]), preds.skip(1))
    }
}

/// The shared-storage type's parameter table: each parameter in its
/// declaration order, with its re-associated predicates.
pub open spec fn spec_generics_table(g: GenericsView) -> Seq<GenericEntryView> {
    spec_attach(
        g.params.map_values(|p: GenericParamView| GenericEntryView { param: p, predicates: Seq::empty() }),
        g.predicates,
    )
}

proof fn lemma_entry_index_first(entries: Seq<GenericEntryView>, target: Seq<char>, j: int)
    requires
        0 <= j < entries.len(),
        entries[j].param.name == target,
        forall|k: int| 0 <= k < j ==> entries[k].param.name != target,
    ensures
        spec_entry_index(entries, target) == Option::Some(j),
    decreases j,
{
    if j == 0 {
    } else {
        assert(entries[0].param.name != target);
        assert forall|k: int| 0 <= k < j - 1 implies entries.skip(1)[k].param.name != target by {
            assert(entries.skip(1)[k] == entries[k + 1]);
        }
        assert(entries.skip(1)[j - 1] == entries[j]);
        lemma_entry_index_first(entries.skip(1), target, j - 1);
    }
}

proof fn lemma_entry_index_none(entries: Seq<GenericEntryView>, target: Seq<char>)
    requires
        forall|k: int| 0 <= k < entries.len() ==> entries[k].param.name != target,
    ensures
        spec_entry_index(entries, target) is None,
    decreases entries.len(),
{
    if entries.len() == 0 {
    } else {
        assert forall|k: int|
            0 <= k < entries.len() - 1 implies entries.skip(1)[k].param.name != target by {
            assert(entries.skip(1)[k] == entries[k + 1]);
        }
        lemma_entry_index_none(entries.skip(1), target);
    }
}

/// Finds the first entry whose parameter the given target names.
fn find_entry(entries: &Vec<GenericEntry>, target: &String) -> (r: Option<usize>)
    ensures
        match r {
            Option::Some(j) => j < entries@.len() && spec_entry_index(
                entries_view(entries@),
                target@,
            ) == Option::Some(j as int),
            Option::None => spec_entry_index(entries_view(entries@), target@) is None,
        },
{
    let mut j: usize = 0;
    while j < entries.len()
        invariant
            j <= entries@.len(),
            forall|k: int| 0 <= k < j ==> entries_view(entries@)[k].param.name != target@,
        decreases entries@.len() - j,
    {
        if entries[j].param.name == *target {
            proof {
                assert(entries_view(entries@)[j as int] == entries@[j as int]@);
                lemma_entry_index_first(entries_view(entries@), target@, j as int);
            }
            return Option::Some(j);
        }
        proof {
            assert(entries_view(entries@)[j as int] == entries@[j as int]@);
        }
        j = j + 1;
    }
    proof {
        lemma_entry_index_none(entries_view(entries@), target@);
    }
    Option::None
}

/// Builds the parameter table of the shared-storage type's generics.
pub fn map_generics(g: &GenericsSpec) -> (r: Vec<GenericEntry>)
    ensures
        entries_view(r@) == spec_generics_table(g@),
{
    let ghost initial = g@.params.map_values(
        |p: GenericParamView| GenericEntryView { param: p, predicates: Seq::empty() },
    );
    let mut entries: Vec<GenericEntry> = Vec::new();
    let mut i: usize = 0;
    proof {
        assert(entries_view(entries@) =~= initial.take(0));
    }
    while i < g.params.len()
        invariant
            i <= g.params@.len(),
            initial == g@.params.map_values(
                |p: GenericParamView| GenericEntryView { param: p, predicates: Seq::empty() },
            ),
            initial.len() == g.params@.len(),
            entries_view(entries@) == initial.take(i as int),
        decreases g.params@.len() - i,
    {
        let ghost e0 = entries@;
        entries.push(GenericEntry { param: g.params[i].duplicate(), predicates: Vec::new() });
        proof {
            assert(entries_view(e0).len() == e0.len());
            assert(e0.len() == i);
            assert(entries@ == e0.push(entries@[i as int]));
            assert(entries@[i as int]@.param == g.params@[i as int]@);
            assert(initial[i as int].param == g@.params[i as int]);
            assert(g@.params[i as int] == g.params@[i as int]@);
            assert(entries@[i as int]@ =~= initial[i as int]);
            assert(entries_view(entries@) =~= entries_view(e0).push(entries@[i as int]@));
            assert(initial.take(i + 1) =~= initial.take(i as int).push(initial[i as int]));
        }
        i = i + 1;
    }
    proof {
        assert(initial.take(initial.len() as int) =~= initial);
    }
    let ghost pv = g@.predicates;
    let mut k: usize = 0;
    proof {
        assert(pv.skip(0) =~= pv);
    }
    while k < g.predicates.len()
        invariant
            k <= g.predicates@.len(),
            pv == g@.predicates,
            pv.len() == g.predicates@.len(),
            spec_attach(entries_view(entries@), pv.skip(k as int)) == spec_generics_table(g@),
        decreases g.predicates@.len() - k,
    {
        let ghost ev = entries_view(entries@);
        let ghost rest = pv.skip(k as int);
        proof {
            assert(rest[0] == pv[k as int]);
            assert(rest.skip(1) =~= pv.skip(k as int + 1));
            assert(pv[k as int] == g.predicates@[k as int]@);
        }
        let p = g.predicates[k].duplicate();
        match find_entry(&entries, &g.predicates[k].target) {
            Option::Some(j) => {
                let ghost ej = entries@[j as int]@;
                entries[j].predicates.push(p);
                proof {
                    assert(entries@[j as int]@ =~= GenericEntryView {
                        param: ej.param,
                        predicates: ej.predicates.push(pv[k as int]),
                    });
                    assert(entries_view(entries@) =~= ev.update(j as int, entries@[j as int]@));
                    assert(entries_view(entries@) == spec_attach_one(ev, pv[k as int]));
                }
            },
            Option::None => {
                proof {
                    assert(entries_view(entries@) == spec_attach_one(ev, pv[k as int]));
                }
            },
        }
        k = k + 1;
    }
    proof {
        assert(pv.skip(pv.len() as int) =~= Seq::<PredicateView>::empty());
    }
    entries
}

// ---- referenced and allowed parameter sets ----

/// Whether a name occurs in a list of names.
pub open spec fn seq_contains_str(v: Seq<Seq<char>>, n: Seq<char>) -> bool {
    exists|i: int| 0 <= i < v.len() && v[i] == n
}

pub fn contains_string(v: &Vec<String>, n: &String) -> (r: bool)
    ensures
        r == seq_contains_str(strings_view(v@), n@),
{
    let mut i: usize = 0;
    while i < v.len()
        invariant
            i <= v@.len(),
            forall|k: int| 0 <= k < i ==> strings_view(v@)[k] != n@,
        decreases v@.len() - i,
    {
        if v[i] == *n {
            proof {
                assert(strings_view(v@)[i as int] == n@);
            }
            return true;
        }
        proof {
            assert(strings_view(v@)[i as int] == v@[i as int]@);
        }
        i = i + 1;
    }
    false
}

/// The generic parameters referenced by any state's field types: the
/// union, kept as the concatenation of the per-state sets.
pub open spec fn spec_state_candidates(sts: Seq<StateSpecView>) -> Seq<Seq<char>>
    decreases sts.len(),
{
    if sts.len() == 0 {
        Seq::empty()
    } else {
        spec_state_candidates(sts.drop_last()) + sts.last().candidate_generics
    }
}

/// The generic parameters referenced by any superstate's field types.
pub open spec fn spec_superstate_candidates(sups: Seq<SuperstateSpecView>) -> Seq<Seq<char>>
    decreases sups.len(),
{
    if sups.len() == 0 {
        Seq::empty()
    } else {
        spec_superstate_candidates(sups.drop_last()) + sups.last().candidate_generics
    }
}

pub fn union_state_candidates(states: &Vec<StateSpec>) -> (r: Vec<String>)
    ensures
        strings_view(r@) == spec_state_candidates(crate::model::state_specs_view(states@)),
{
    let ghost sts = crate::model::state_specs_view(states@);
    let mut out: Vec<String> = Vec::new();
    let mut i: usize = 0;
    proof {
        assert(sts.take(0) =~= Seq::<StateSpecView>::empty());
        assert(strings_view(out@) =~= spec_state_candidates(sts.take(0)));
    }
    while i < states.len()
        invariant
            i <= states@.len(),
            sts == crate::model::state_specs_view(states@),
            sts.len() == states@.len(),
            strings_view(out@) == spec_state_candidates(sts.take(i as int)),
        decreases states@.len() - i,
    {
        let ghost base = strings_view(out@);
        let ghost cs = sts[i as int].candidate_generics;
        let mut j: usize = 0;
        proof {
            assert(cs == strings_view(states@[i as int].candidate_generics@));
            assert(base + cs.take(0) =~= base);
        }
        while j < states[i].candidate_generics.len()
            invariant
                i < states@.len(),
                j <= cs.len(),
                sts == crate::model::state_specs_view(states@),
                cs == sts[i as int].candidate_generics,
                cs == strings_view(states@[i as int].candidate_generics@),
                cs.len() == states@[i as int].candidate_generics@.len(),
                strings_view(out@) == base + cs.take(j as int),
            decreases cs.len() - j,
        {
            let ghost o0 = out@;
            out.push(states[i].candidate_generics[j].clone());
            proof {
                assert(strings_view(out@) =~= strings_view(o0).push(cs[j as int]));
                assert(base + cs.take(j + 1) =~= (base + cs.take(j as int)).push(cs[j as int]));
            }
            j = j + 1;
        }
        proof {
            assert(cs.take(cs.len() as int) =~= cs);
            assert(sts.take(i + 1).drop_last() =~= sts.take(i as int));
            assert(sts.take(i + 1).last() == sts[i as int]);
        }
        i = i + 1;
    }
    proof {
        assert(sts.take(sts.len() as int) =~= sts);
    }
    out
}

pub fn union_superstate_candidates(superstates: &Vec<SuperstateSpec>) -> (r: Vec<String>)
    ensures
        strings_view(r@) == spec_superstate_candidates(
            crate::model::superstate_specs_view(superstates@),
        ),
{
    let ghost sups = crate::model::superstate_specs_view(superstates@);
    let mut out: Vec<String> = Vec::new();
    let mut i: usize = 0;
    proof {
        assert(sups.take(0) =~= Seq::<SuperstateSpecView>::empty());
        assert(strings_view(out@) =~= spec_superstate_candidates(sups.take(0)));
    }
    while i < superstates.len()
        invariant
            i <= superstates@.len(),
            sups == crate::model::superstate_specs_view(superstates@),
            sups.len() == superstates@.len(),
            strings_view(out@) == spec_superstate_candidates(sups.take(i as int)),
        decreases superstates@.len() - i,
    {
        let ghost base = strings_view(out@);
        let ghost cs = sups[i as int].candidate_generics;
        let mut j: usize = 0;
        proof {
            assert(cs == strings_view(superstates@[i as int].candidate_generics@));
            assert(base + cs.take(0) =~= base);
        }
        while j < superstates[i].candidate_generics.len()
            invariant
                i < superstates@.len(),
                j <= cs.len(),
                sups == crate::model::superstate_specs_view(superstates@),
                cs == sups[i as int].candidate_generics,
                cs == strings_view(superstates@[i as int].candidate_generics@),
                cs.len() == superstates@[i as int].candidate_generics@.len(),
                strings_view(out@) == base + cs.take(j as int),
            decreases cs.len() - j,
        {
            let ghost o0 = out@;
            out.push(superstates[i].candidate_generics[j].clone());
            proof {
                assert(strings_view(out@) =~= strings_view(o0).push(cs[j as int]));
                assert(base + cs.take(j + 1) =~= (base + cs.take(j as int)).push(cs[j as int]));
            }
            j = j + 1;
        }
        proof {
            assert(cs.take(cs.len() as int) =~= cs);
            assert(sups.take(i + 1).drop_last() =~= sups.take(i as int));
            assert(sups.take(i + 1).last() == sups[i as int]);
        }
        i = i + 1;
    }
    proof {
        assert(sups.take(sups.len() as int) =~= sups);
    }
    out
}

// ---- filtering ----

/// The filtered generics of one generated type: of the shared-storage
/// parameters, in declaration order, exactly those that are both allowed
/// to propagate and referenced by some variant field, each with its
/// re-associated predicates.
pub open spec fn spec_filter_generics(
    entries: Seq<GenericEntryView>,
    allowed: Seq<Seq<char>>,
    referenced: Seq<Seq<char>>,
) -> FilteredGenericsView
    decreases entries.len(),
{
    if entries.len() == 0 {
        FilteredGenericsView { params: Seq::empty(), predicates: Seq::empty() }
    } else {
        let f = spec_filter_generics(entries.drop_last(), allowed, referenced);
        let e = entries.last();
        if seq_contains_str(allowed, e.param.name) && seq_contains_str(referenced, e.param.name) {
            FilteredGenericsView {
                params: f.params.push(e.param),
                predicates: f.predicates + e.predicates,
            }
        } else {
            f
        }
    }
}

/// Keeps the parameters that are both allowed to propagate and referenced.
pub fn filter_generics(
    entries: &Vec<GenericEntry>,
    allowed: &Vec<String>,
    referenced: &Vec<String>,
) -> (r: FilteredGenerics)
    ensures
        r@ == spec_filter_generics(
            entries_view(entries@),
            strings_view(allowed@),
            strings_view(referenced@),
        ),
{
    let ghost ev = entries_view(entries@);
    let ghost av = strings_view(allowed@);
    let ghost rv = strings_view(referenced@);
    let mut out = FilteredGenerics { params: Vec::new(), predicates: Vec::new() };
    let mut i: usize = 0;
    proof {
        assert(ev.take(0) =~= Seq::<GenericEntryView>::empty());
        assert(out@ =~= spec_filter_generics(ev.take(0), av, rv));
    }
    while i < entries.len()
        invariant
            i <= entries@.len(),
            ev == entries_view(entries@),
            ev.len() == entries@.len(),
            av == strings_view(allowed@),
            rv == strings_view(referenced@),
            out@ == spec_filter_generics(ev.take(i as int), av, rv),
        decreases entries@.len() - i,
    {
        proof {
            assert(ev.take(i + 1).drop_last() =~= ev.take(i as int));
            assert(ev.take(i + 1).last() == ev[i as int]);
            assert(ev[i as int] == entries@[i as int]@);
        }
        if contains_string(allowed, &entries[i].param.name) && contains_string(
            referenced,
            &entries[i].param.name,
        ) {
            let ghost p0 = params_view(out.params@);
            let ghost q0 = predicates_view(out.predicates@);
            out.params.push(entries[i].param.duplicate());
            proof {
                assert(params_view(out.params@) =~= p0.push(ev[i as int].param));
            }
            let ghost qs = ev[i as int].predicates;
            let mut j: usize = 0;
            proof {
                assert(qs == predicates_view(entries@[i as int].predicates@));
                assert(predicates_view(out.predicates@) =~= q0 + qs.take(0));
            }
            while j < entries[i].predicates.len()
                invariant
                    i < entries@.len(),
                    j <= qs.len(),
                    ev == entries_view(entries@),
                    qs == ev[i as int].predicates,
                    qs == predicates_view(entries@[i as int].predicates@),
                    qs.len() == entries@[i as int].predicates@.len(),
                    params_view(out.params@) == p0.push(ev[i as int].param),
                    predicates_view(out.predicates@) == q0 + qs.take(j as int),
                decreases qs.len() - j,
            {
                let ghost d0 = out.predicates@;
                out.predicates.push(entries[i].predicates[j].duplicate());
                proof {
                    assert(predicates_view(out.predicates@) =~= predicates_view(d0).push(
                        qs[j as int],
                    ));
                    assert(q0 + qs.take(j + 1) =~= (q0 + qs.take(j as int)).push(qs[j as int]));
                }
                j = j + 1;
            }
            proof {
                assert(qs.take(qs.len() as int) =~= qs);
                assert(out@ =~= spec_filter_generics(ev.take(i + 1), av, rv));
            }
        } else {
            proof {
                assert(out@ =~= spec_filter_generics(ev.take(i + 1), av, rv));
            }
        }
        i = i + 1;
    }
    proof {
        assert(ev.take(ev.len() as int) =~= ev);
    }
    out
}

// ---- the synthetic scope lifetime ----

/// Whether any superstate variant carries a borrowed-scope field: exactly
/// then the superstate type needs the synthetic scope lifetime.
pub open spec fn spec_any_superstate_inputs(sups: Seq<SuperstateSpecView>) -> bool {
    exists|i: int| 0 <= i < sups.len() && sups[i].state_inputs.len() > 0
}

pub fn any_superstate_inputs(superstates: &Vec<SuperstateSpec>) -> (r: bool)
    ensures
        r == spec_any_superstate_inputs(crate::model::superstate_specs_view(superstates@)),
{
    let ghost sups = crate::model::superstate_specs_view(superstates@);
    let mut i: usize = 0;
    while i < superstates.len()
        invariant
            i <= superstates@.len(),
            sups == crate::model::superstate_specs_view(superstates@),
            forall|k: int| 0 <= k < i ==> sups[k].state_inputs.len() == 0,
        decreases superstates@.len() - i,
    {
        if superstates[i].state_inputs.len() > 0 {
            proof {
                assert(sups[i as int].state_inputs.len() > 0);
            }
            return true;
        }
        proof {
            assert(sups[i as int].state_inputs.len() == 0);
        }
        i = i + 1;
    }
    false
}

/// The synthetic scope-lifetime parameter a superstate type gains when
/// some variant borrows into a state.
pub open spec fn spec_scope_lifetime_param() -> GenericParamView {
    GenericParamView { kind: ParamKind::LifetimeParam, name: "'sub"@, decl: "'sub"@ }
}

pub fn scope_lifetime_param() -> (r: GenericParamDef)
    ensures
        r@ == spec_scope_lifetime_param(),
{
    GenericParamDef {
        kind: ParamKind::LifetimeParam,
        name: String::from_str("'sub"),
        decl: String::from_str("'sub"),
    }
}

} // verus!
