//! Traits and their supertraits: the closure of a trait reference under the
//! `Self: Trait` predicates of the traits it names, and the associated types
//! that can be reached through it.
use vstd::prelude::*;
use crate::binders::{map_trait_ref, trait_refs_view, Binders, VarOp};
use crate::db::{AssocItemId, Database, TypeNs, TypeParamProvenance};
use crate::generics::{bound_vars, generic_param_list, generics, own_params, GenericParam};
use crate::ids::{GenericDefId, Name, TraitId, TypeAliasId, TypeParamId};
use crate::ty::{DebruijnIndex, GenericPredicate, PredV, Substs, TraitRef, TraitRefV};

verus! {

/// The `Self` parameter among a trait's own parameters: the first one that
/// has that provenance.
pub open spec fn trait_self_param(own: Seq<GenericParam>, from: int) -> Option<TypeParamId>
    decreases own.len() - from,
{
    if from < 0 || from >= own.len() {
        None
    } else if own[from].provenance == TypeParamProvenance::TraitSelf {
        Some(own[from].id)
    } else {
        trait_self_param(own, from + 1)
    }
}

/// The trait references of the `Implemented` predicates among `preds`, in
/// order, each with the variables of its binder replaced by `substs`.
pub open spec fn implemented_with(preds: Seq<Binders<GenericPredicate>>, substs: Seq<crate::ty::TyV>) -> Seq<
    TraitRefV,
>
    decreases preds.len(),
{
    if preds.len() == 0 {
        Seq::empty()
    } else {
        let front = implemented_with(preds.drop_last(), substs);
        match preds.last().value@ {
            PredV::Implemented(t) => front.push(map_trait_ref(VarOp::Subst(substs), t, 0)),
            _ => front,
        }
    }
}

/// The trait references of the `Implemented` predicates among `preds`, in
/// order, as they stand under their binders.
pub open spec fn implemented_raw(preds: Seq<Binders<GenericPredicate>>) -> Seq<TraitRefV>
    decreases preds.len(),
{
    if preds.len() == 0 {
        Seq::empty()
    } else {
        let front = implemented_raw(preds.drop_last());
        match preds.last().value@ {
            PredV::Implemented(t) => front.push(t),
            _ => front,
        }
    }
}

/// The supertraits that the trait of `t` names directly, instantiated for
/// `t`: what is known to be implemented by the trait's `Self`.
pub open spec fn direct_super_trait_refs(db: Database, t: TraitRefV) -> Seq<TraitRefV> {
    match trait_self_param(own_params(db, GenericDefId::TraitId(t.trait_)), 0) {
        Some(p) => implemented_with(db.spec_generic_predicates_for_param(p), t.substs),
        None => Seq::empty(),
    }
}

/// Whether one of `s` names the trait `id`.
pub open spec fn names_trait(s: Seq<TraitRefV>, id: TraitId) -> bool {
    exists|i: int| 0 <= i < s.len() && (#[trigger] s[i]).trait_ == id
}

/// `result` followed by those of `cands`, from position `from` on, whose
/// trait nothing before them names.
pub open spec fn add_new_traits(result: Seq<TraitRefV>, cands: Seq<TraitRefV>, from: int) -> Seq<TraitRefV>
    decreases cands.len() - from,
{
    if from < 0 || from >= cands.len() {
        result
    } else if names_trait(result, cands[from].trait_) {
        add_new_traits(result, cands, from + 1)
    } else {
        add_new_traits(result.push(cands[from]), cands, from + 1)
    }
}

/// The work list `result`, of which the entries before `i` were expanded,
/// after at most `fuel` further expansions. Expanding an entry appends its
/// direct supertraits that are new.
#[verifier::opaque]
pub open spec fn super_trait_closure(db: Database, result: Seq<TraitRefV>, i: nat, fuel: nat) -> Seq<
    TraitRefV,
>
    decreases fuel,
{
    if fuel == 0 || i >= result.len() {
        result
    } else {
        super_trait_closure(
            db,
            add_new_traits(result, direct_super_trait_refs(db, result[i as int]), 0),
            i + 1,
            (fuel - 1) as nat,
        )
    }
}

/// `t` and all its supertraits, each trait once, in the order in which a
/// search that expands the oldest entry first meets them.
pub open spec fn all_super_trait_refs_spec(db: Database, t: TraitRefV) -> Seq<TraitRefV> {
    super_trait_closure(db, seq![t], 0, (usize::MAX as nat) + 1)
}

/// The associated type named `name` among a trait's items: the first item
/// with that name that is a type alias.
pub open spec fn assoc_type_by_name(items: Seq<(Name, AssocItemId)>, name: Name, from: int) -> Option<
    TypeAliasId,
>
    decreases items.len() - from,
{
    if from < 0 || from >= items.len() {
        None
    } else {
        match items[from].1 {
            AssocItemId::TypeAliasId(t) if items[from].0 == name => Some(t),
            _ => assoc_type_by_name(items, name, from + 1),
        }
    }
}

/// The associated type named `name` of the trait `id`.
pub open spec fn trait_assoc_type(db: Database, id: TraitId, name: Name) -> Option<TypeAliasId> {
    match db.spec_trait_data(id) {
        Some(d) => assoc_type_by_name(d.items@, name, 0),
        None => None,
    }
}

/// The first of `ts`, from position `from` on, whose trait has an associated
/// type named `name`, with that type.
pub open spec fn first_with_assoc_type(db: Database, ts: Seq<TraitRefV>, name: Name, from: int) -> Option<
    (TraitRefV, TypeAliasId),
>
    decreases ts.len() - from,
{
    if from < 0 || from >= ts.len() {
        None
    } else {
        match trait_assoc_type(db, ts[from].trait_, name) {
            Some(a) => Some((ts[from], a)),
            None => first_with_assoc_type(db, ts, name, from + 1),
        }
    }
}

/// The associated type named `name` of the trait of `t` or of one of its
/// supertraits, with the reference to the trait that declares it. Where
/// several declare one, the trait that the search meets first wins.
pub open spec fn assoc_type_including_super_traits(db: Database, t: TraitRefV, name: Name) -> Option<
    (TraitRefV, TypeAliasId),
> {
    first_with_assoc_type(db, all_super_trait_refs_spec(db, t), name, 0)
}

/// The traits that are known to hold of what `res` names: for the self type
/// of an impl the impl's trait, for a generic parameter the traits of the
/// predicates on it and, for the `Self` of a trait, the trait itself.
pub open spec fn traits_from_env(db: Database, res: TypeNs) -> Seq<TraitRefV> {
    match res {
        TypeNs::SelfType(impl_id) => match db.spec_impl_trait(impl_id) {
            Some(t) => seq![t.value@],
            None => Seq::empty(),
        },
        TypeNs::GenericParam(p) => {
            let from_preds = implemented_raw(db.spec_generic_predicates_for_param(p));
            match p.parent {
                GenericDefId::TraitId(trait_id) => {
                    let own = own_params(db, p.parent);
                    if p.local_id < own.len() && own[p.local_id as int].provenance
                        == TypeParamProvenance::TraitSelf {
                        from_preds.push(
                            TraitRefV {
                                trait_: trait_id,
                                substs: bound_vars(
                                    generic_param_list(db, p.parent).len(),
                                    DebruijnIndex { depth: 0 },
                                ),
                            },
                        )
                    } else {
                        from_preds
                    }
                },
                _ => from_preds,
            }
        },
        _ => Seq::empty(),
    }
}

/// One candidate for `T::Name`: an associated type, its name, and the
/// reference to the trait that declares it.
pub struct AssocTypeCandidate {
    pub name: Name,
    pub trait_ref: TraitRef,
    pub associated_ty: TypeAliasId,
}

/// The model of [`AssocTypeCandidate`].
pub struct AssocTypeCandidateV {
    pub name: Name,
    pub trait_ref: TraitRefV,
    pub associated_ty: TypeAliasId,
}

impl View for AssocTypeCandidate {
    type V = AssocTypeCandidateV;

    open spec fn view(&self) -> AssocTypeCandidateV {
        AssocTypeCandidateV { name: self.name, trait_ref: self.trait_ref@, associated_ty: self.associated_ty }
    }
}

pub open spec fn candidates_view(s: Seq<AssocTypeCandidate>) -> Seq<AssocTypeCandidateV> {
    Seq::new(s.len(), |i: int| s[i]@)
}

/// The associated types among `items`, in order, as candidates through `t`.
pub open spec fn candidates_of_items(items: Seq<(Name, AssocItemId)>, t: TraitRefV) -> Seq<
    AssocTypeCandidateV,
>
    decreases items.len(),
{
    if items.len() == 0 {
        Seq::empty()
    } else {
        let front = candidates_of_items(items.drop_last(), t);
        match items.last().1 {
            AssocItemId::TypeAliasId(a) => front.push(
                AssocTypeCandidateV { name: items.last().0, trait_ref: t, associated_ty: a },
            ),
            _ => front,
        }
    }
}

/// The associated types of the traits of `ts`, trait after trait.
pub open spec fn candidates_of_traits(db: Database, ts: Seq<TraitRefV>) -> Seq<AssocTypeCandidateV>
    decreases ts.len(),
{
    if ts.len() == 0 {
        Seq::empty()
    } else {
        candidates_of_traits(db, ts.drop_last()) + (match db.spec_trait_data(ts.last().trait_) {
            Some(d) => candidates_of_items(d.items@, ts.last()),
            None => Seq::empty(),
        })
    }
}

/// The candidates that the traits of `env` and their supertraits offer,
/// trait of `env` after trait of `env`.
pub open spec fn candidates_of_env(db: Database, env: Seq<TraitRefV>) -> Seq<AssocTypeCandidateV>
    decreases env.len(),
{
    if env.len() == 0 {
        Seq::empty()
    } else {
        candidates_of_env(db, env.drop_last()) + candidates_of_traits(
            db,
            all_super_trait_refs_spec(db, env.last()),
        )
    }
}

/// The associated types that `res::Name` can mean, in the order in which
/// they are tried.
pub open spec fn shorthand_candidates(db: Database, res: TypeNs) -> Seq<AssocTypeCandidateV> {
    candidates_of_env(db, traits_from_env(db, res))
}

// ---------------------------------------------------------------------------
// Executable code
// ---------------------------------------------------------------------------

fn find_trait_self_param(db: &Database, trait_: TraitId) -> (r: Option<TypeParamId>)
    ensures
        r == trait_self_param(own_params(*db, GenericDefId::TraitId(trait_)), 0),
{
    let def = GenericDefId::TraitId(trait_);
    match db.item(def) {
        Some(item) => {
            let types = &item.generic_params.types;
            let ghost own = own_params(*db, def);
            let mut i: usize = 0;
            while i < types.len() && i <= u32::MAX as usize
                invariant
                    i <= types.len(),
                    i <= u32::MAX + 1,
                    db.spec_item(def) == Some(*item),
                    types == &item.generic_params.types,
                    own == own_params(*db, def),
                    def == GenericDefId::TraitId(trait_),
                    trait_self_param(own, 0) == trait_self_param(own, i as int),
                decreases types.len() - i,
            {
                assert(own[i as int] == GenericParam {
                    id: TypeParamId { parent: def, local_id: i as u32 },
                    provenance: types@[i as int].provenance,
                });
                if types[i].provenance == TypeParamProvenance::TraitSelf {
                    return Some(TypeParamId { parent: def, local_id: i as u32 });
                }
                i += 1;
            }
            None
        },
        None => None,
    }
}

fn direct_super_trait_refs_of(db: &Database, t: &TraitRef) -> (r: Vec<TraitRef>)
    ensures
        trait_refs_view(r@) == direct_super_trait_refs(*db, t@),
{
    let mut r: Vec<TraitRef> = Vec::new();
    let p = match find_trait_self_param(db, t.trait_) {
        Some(p) => p,
        None => {
            assert(trait_refs_view(r@) =~= direct_super_trait_refs(*db, t@));
            return r;
        },
    };
    match db.generic_predicates_for_param(p) {
        Some(preds) => {
            let mut i: usize = 0;
            while i < preds.len()
                invariant
                    i <= preds.len(),
                    trait_refs_view(r@) == implemented_with(preds@.take(i as int), t@.substs),
                decreases preds.len() - i,
            {
                proof {
                    assert(preds@.take(i + 1).drop_last() == preds@.take(i as int));
                }
                match &preds[i].value {
                    GenericPredicate::Implemented(tr) => {
                        let ghost before = trait_refs_view(r@);
                        r.push(tr.subst_bound_vars(&t.substs));
                        assert(trait_refs_view(r@) =~= before.push(
                            map_trait_ref(VarOp::Subst(t@.substs), tr@, 0),
                        ));
                    },
                    _ => {},
                }
                i += 1;
            }
            proof {
                assert(preds@.take(preds.len() as int) == preds@);
            }
        },
        None => {
            assert(trait_refs_view(r@) =~= direct_super_trait_refs(*db, t@));
        },
    }
    r
}

fn names_trait_exec(result: &Vec<TraitRef>, id: TraitId) -> (r: bool)
    ensures
        r == names_trait(trait_refs_view(result@), id),
{
    let mut i: usize = 0;
    while i < result.len()
        invariant
            i <= result.len(),
            forall|j: int| 0 <= j < i ==> (#[trigger] trait_refs_view(result@)[j]).trait_ != id,
        decreases result.len() - i,
    {
        if result[i].trait_ == id {
            assert(trait_refs_view(result@)[i as int].trait_ == id);
            return true;
        }
        i += 1;
    }
    false
}

/// `trait_ref` and all its supertraits, each trait once; `trait_ref` comes
/// first, and the supertraits of an entry come after it.
pub fn all_super_trait_refs(db: &Database, trait_ref: TraitRef) -> (r: Vec<TraitRef>)
    ensures
        trait_refs_view(r@) == all_super_trait_refs_spec(*db, trait_ref@),
{
        reveal(super_trait_closure);
    let ghost start = trait_ref@;
    let ghost fuel = (usize::MAX as nat) + 1;
    let mut result: Vec<TraitRef> = Vec::new();
    result.push(trait_ref);
    assert(trait_refs_view(result@) =~= seq![start]);
    let mut i: usize = 0;
    while i < result.len()
        invariant
            i <= result.len(),
            fuel == (usize::MAX as nat) + 1,
            super_trait_closure(*db, seq![start], 0, fuel) == super_trait_closure(
                *db,
                trait_refs_view(result@),
                i as nat,
                (fuel - i) as nat,
            ),
        decreases usize::MAX - i,
    {
        reveal(super_trait_closure);
        let supers = direct_super_trait_refs_of(db, &result[i]);
        let ghost before = trait_refs_view(result@);
        let ghost cands = trait_refs_view(supers@);
        assert(cands == direct_super_trait_refs(*db, before[i as int]));
        let mut k: usize = 0;
        while k < supers.len()
            invariant
                k <= supers.len(),
                i < result.len(),
                cands == trait_refs_view(supers@),
                add_new_traits(before, cands, 0) == add_new_traits(trait_refs_view(result@), cands, k as int),
            decreases supers.len() - k,
        {
            if !names_trait_exec(&result, supers[k].trait_) {
                let ghost prev = trait_refs_view(result@);
                result.push(supers[k].duplicate());
                assert(trait_refs_view(result@) =~= prev.push(cands[k as int]));
            }
            k += 1;
        }
        i += 1;
    }
    result
}

fn associated_type_by_name(db: &Database, trait_: TraitId, name: Name) -> (r: Option<TypeAliasId>)
    ensures
        r == trait_assoc_type(*db, trait_, name),
{
    match db.trait_data(trait_) {
        Some(d) => {
            let mut i: usize = 0;
            while i < d.items.len()
                invariant
                    i <= d.items.len(),
                    db.spec_trait_data(trait_) == Some(*d),
                    assoc_type_by_name(d.items@, name, 0) == assoc_type_by_name(d.items@, name, i as int),
                decreases d.items.len() - i,
            {
                assert(assoc_type_by_name(d.items@, name, i as int) == match d.items@[i as int].1 {
                    AssocItemId::TypeAliasId(t) if d.items@[i as int].0 == name => Some(t),
                    _ => assoc_type_by_name(d.items@, name, i + 1),
                });
                match d.items[i].1 {
                    AssocItemId::TypeAliasId(t) => {
                        if d.items[i].0 == name {
                            return Some(t);
                        }
                    },
                    _ => {},
                }
                i += 1;
            }
            None
        },
        None => None,
    }
}

/// Looks `name` up as an associated type of the trait of `trait_ref` and of
/// its supertraits.
pub fn associated_type_by_name_including_super_traits(db: &Database, trait_ref: TraitRef, name: Name) -> (r:
    Option<(TraitRef, TypeAliasId)>)
    ensures
        match r {
            Some((t, a)) => assoc_type_including_super_traits(*db, trait_ref@, name) == Some((t@, a)),
            None => assoc_type_including_super_traits(*db, trait_ref@, name) is None,
        },
{
    let all = all_super_trait_refs(db, trait_ref);
    let ghost ts = trait_refs_view(all@);
    let mut i: usize = 0;
    while i < all.len()
        invariant
            i <= all.len(),
            ts == trait_refs_view(all@),
            ts == all_super_trait_refs_spec(*db, trait_ref@),
            first_with_assoc_type(*db, ts, name, 0) == first_with_assoc_type(*db, ts, name, i as int),
        decreases all.len() - i,
    {
        assert(ts[i as int] == all@[i as int]@);
        match associated_type_by_name(db, all[i].trait_, name) {
            Some(a) => {
                return Some((all[i].duplicate(), a));
            },
            None => {},
        }
        i += 1;
    }
    None
}

fn traits_from_env_exec(db: &Database, res: TypeNs) -> (r: Vec<TraitRef>)
    ensures
        trait_refs_view(r@) == traits_from_env(*db, res),
{
    let mut r: Vec<TraitRef> = Vec::new();
    match res {
        TypeNs::SelfType(impl_id) => {
            match db.impl_trait(impl_id) {
                Some(t) => {
                    r.push(t.value.duplicate());
                    assert(trait_refs_view(r@) =~= seq![t.value@]);
                },
                None => {
                    assert(trait_refs_view(r@) =~= Seq::empty());
                },
            }
        },
        TypeNs::GenericParam(p) => {
            match db.generic_predicates_for_param(p) {
                Some(preds) => {
                    let mut i: usize = 0;
                    while i < preds.len()
                        invariant
                            i <= preds.len(),
                            trait_refs_view(r@) == implemented_raw(preds@.take(i as int)),
                        decreases preds.len() - i,
                    {
                        proof {
                            assert(preds@.take(i + 1).drop_last() == preds@.take(i as int));
                        }
                        match &preds[i].value {
                            GenericPredicate::Implemented(tr) => {
                                let ghost before = trait_refs_view(r@);
                                r.push(tr.duplicate());
                                assert(trait_refs_view(r@) =~= before.push(tr@));
                            },
                            _ => {},
                        }
                        i += 1;
                    }
                    proof {
                        assert(preds@.take(preds.len() as int) == preds@);
                    }
                },
                None => {
                    assert(trait_refs_view(r@) =~= implemented_raw(
                        db.spec_generic_predicates_for_param(p),
                    ));
                },
            }
            match p.parent {
                GenericDefId::TraitId(trait_id) => {
                    let is_self = match db.item(p.parent) {
                        Some(item) => (p.local_id as usize) < item.generic_params.types.len()
                            && item.generic_params.types[p.local_id as usize].provenance
                            == TypeParamProvenance::TraitSelf,
                        None => false,
                    };
                    if is_self {
                        let g = generics(db, p.parent);
                        let ghost before = trait_refs_view(r@);
                        let t = TraitRef {
                            trait_: trait_id,
                            substs: Substs::bound_vars(&g, DebruijnIndex::innermost()),
                        };
                        r.push(t);
                        assert(trait_refs_view(r@) =~= before.push(t@));
                    }
                },
                _ => {},
            }
        },
        _ => {
            assert(trait_refs_view(r@) =~= Seq::empty());
        },
    }
    r
}

/// The associated types that `res::Name` can mean, in the order in which
/// they are tried: for each trait that is known to hold of `res`, the
/// associated types of that trait and of its supertraits.
pub fn shorthand_candidate_list(db: &Database, res: TypeNs) -> (r: Vec<AssocTypeCandidate>)
    ensures
        candidates_view(r@) == shorthand_candidates(*db, res),
{
    let env = traits_from_env_exec(db, res);
    let mut r: Vec<AssocTypeCandidate> = Vec::new();
    assert(candidates_view(r@) =~= Seq::empty());
    let mut e: usize = 0;
    while e < env.len()
        invariant
            e <= env.len(),
            candidates_view(r@) == candidates_of_env(*db, trait_refs_view(env@).take(e as int)),
        decreases env.len() - e,
    {
        let ghost envv = trait_refs_view(env@);
        proof {
            assert(envv.take(e + 1).drop_last() == envv.take(e as int));
        }
        let all = all_super_trait_refs(db, env[e].duplicate());
        let ghost base = candidates_view(r@);
        let ghost ts = trait_refs_view(all@);
        let mut i: usize = 0;
        assert(ts.take(0) =~= Seq::empty());
        assert(candidates_view(r@) =~= base + candidates_of_traits(*db, ts.take(0)));
        while i < all.len()
            invariant
                i <= all.len(),
                ts == trait_refs_view(all@),
                candidates_view(r@) == base + candidates_of_traits(*db, ts.take(i as int)),
            decreases all.len() - i,
        {
            proof {
                assert(ts.take(i + 1).drop_last() == ts.take(i as int));
            }
            let ghost at_trait = candidates_view(r@);
            match db.trait_data(all[i].trait_) {
                Some(d) => {
                    let mut k: usize = 0;
                    assert(d.items@.take(0) =~= Seq::empty());
                    assert(candidates_view(r@) =~= at_trait + candidates_of_items(d.items@.take(0), ts[i as int]));
                    while k < d.items.len()
                        invariant
                            k <= d.items.len(),
                            i < all.len(),
                            ts == trait_refs_view(all@),
                            candidates_view(r@) == at_trait + candidates_of_items(
                                d.items@.take(k as int),
                                ts[i as int],
                            ),
                        decreases d.items.len() - k,
                    {
                        proof {
                            assert(d.items@.take(k + 1).drop_last() == d.items@.take(k as int));
                        }
                        match d.items[k].1 {
                            AssocItemId::TypeAliasId(a) => {
                                let ghost prev = candidates_view(r@);
                                let c = AssocTypeCandidate {
                                    name: d.items[k].0,
                                    trait_ref: all[i].duplicate(),
                                    associated_ty: a,
                                };
                                r.push(c);
                                assert(candidates_view(r@) =~= prev.push(c@));
                            },
                            _ => {},
                        }
                        k += 1;
                    }
                    proof {
                        assert(d.items@.take(d.items.len() as int) == d.items@);
                    }
                },
                None => {},
            }
            assert(candidates_view(r@) =~= base + candidates_of_traits(*db, ts.take(i + 1)));
            i += 1;
        }
        proof {
            assert(ts.take(all.len() as int) == ts);
            assert(envv.take(e + 1).last() == envv[e as int]);
        }
        e += 1;
    }
    proof {
        assert(trait_refs_view(env@).take(env.len() as int) == trait_refs_view(env@));
    }
    r
}

/// Whether `cb`, asked about the candidate `c`, can answer `answer`.
pub open spec fn answers<R, F: Fn(&Name, &TraitRef, TypeAliasId) -> Option<R>>(
    cb: F,
    c: AssocTypeCandidateV,
    answer: Option<R>,
) -> bool {
    exists|t: TraitRef| t@ == c.trait_ref && call_ensures(cb, (&c.name, &t, c.associated_ty), answer)
}

/// Asks `cb` about the associated types that `res::Name` can mean, in the
/// order in which they are tried, and returns the first answer that is not
/// `None`: `cb` said `None` of every candidate before the one that it
/// answered for, and of all candidates where the result is `None`.
pub fn associated_type_shorthand_candidates<R, F: Fn(&Name, &TraitRef, TypeAliasId) -> Option<R>>(
    db: &Database,
    res: TypeNs,
    cb: F,
) -> (r: Option<R>)
    requires
        forall|name: &Name, t: &TraitRef, a: TypeAliasId| call_requires(cb, (name, t, a)),
    ensures
        match r {
            Some(x) => exists|i: int|
                0 <= i < shorthand_candidates(*db, res).len() && answers(
                    cb,
                    #[trigger] shorthand_candidates(*db, res)[i],
                    Some(x),
                ) && forall|j: int|
                    0 <= j < i ==> answers(cb, #[trigger] shorthand_candidates(*db, res)[j], None::<R>),
            None => forall|j: int|
                0 <= j < shorthand_candidates(*db, res).len() ==> answers(
                    cb,
                    #[trigger] shorthand_candidates(*db, res)[j],
                    None::<R>,
                ),
        },
{
    let candidates = shorthand_candidate_list(db, res);
    let ghost cands = shorthand_candidates(*db, res);
    let mut i: usize = 0;
    while i < candidates.len()
        invariant
            i <= candidates.len(),
            cands == candidates_view(candidates@),
            cands == shorthand_candidates(*db, res),
            forall|name: &Name, t: &TraitRef, a: TypeAliasId| call_requires(cb, (name, t, a)),
            forall|j: int| 0 <= j < i ==> answers(cb, #[trigger] cands[j], None::<R>),
        decreases candidates.len() - i,
    {
        let c = &candidates[i];
        assert(cands[i as int] == c@);
        match cb(&c.name, &c.trait_ref, c.associated_ty) {
            Some(x) => {
                assert(answers(cb, cands[i as int], Some(x)));
                return Some(x);
            },
            None => {
                assert(answers(cb, cands[i as int], None::<R>));
            },
        }
        i += 1;
    }
    None
}

} // verus!
