//! Binder consistency of what lowering produces: over a database whose
//! evaluated answers are binder-consistent and whose scopes name only
//! parameters that are in scope, every type and predicate that a pass
//! produces mentions only variables that are bound where it stands.
use vstd::prelude::*;
use crate::binders::{
    binder_consistent_ty, closed_pred, closed_preds, closed_trait_ref, closed_trait_refs,
    closed_ty, closed_tys, lemma_closed_weaken, lemma_closed_weaken_tys, lemma_shift_closed_tys,
    lemma_subst_closed, lemma_subst_closed_tys, map_tys, subst_ty, Binders, VarOp,
};
use crate::db::{Database, Resolver, TypeNs};
use crate::generics::{
    bound_vars, generic_param_list, generics_len, lemma_param_index_bound, own_params,
    parent_params, placeholders,
};
use crate::ids::{GenericDefId, ImplId, Name, TraitId, TyDefId, TypeAliasId, TypeParamId};
use crate::semantics::{
    declared_impl_self_ty, declared_ty, fill_defaults, first_named, lower_ty_relative_path_spec,
    lower_type_param, pad_unknown, params_as_types, provenance_split_spec,
    select_associated_type_spec, unknowns, LowerEnv, LowerState, TypeParamLoweringMode,
};
use crate::traits::{
    add_new_traits, all_super_trait_refs_spec, assoc_type_including_super_traits,
    candidates_of_env, candidates_of_items, candidates_of_traits, direct_super_trait_refs,
    first_with_assoc_type, implemented_raw, implemented_with, shorthand_candidates,
    super_trait_closure, trait_self_param, traits_from_env, AssocTypeCandidateV,
};
use crate::ty::{DebruijnIndex, GenericPredicate, PredV, TraitRefV, Ty, TyV};

verus! {

// ---------------------------------------------------------------------------
// Well-formed databases and scopes
// ---------------------------------------------------------------------------

/// Whether every answer that the database holds of a query evaluated before
/// is binder-consistent: a declared type, a self type and a default under the
/// number of binders that it is stored with, and a predicate on a parameter
/// and the trait of an impl, which are read without their binders, under the
/// generic parameters of the definition that they belong to.
#[verifier::opaque]
pub open spec fn answers_consistent(db: Database) -> bool {
    &&& forall|t: TypeAliasId| #[trigger]
        db.spec_type_alias_data(t) matches Some(d) ==> (d.ty matches Some(b) ==> binder_consistent_ty(b@))
    &&& forall|i: ImplId| #[trigger]
        db.spec_impl_data(i) matches Some(d) ==> {
            &&& d.self_ty matches Some(b) ==> binder_consistent_ty(b@)
            &&& d.trait_ref matches Some(b) ==> closed_tys(
                b.value@.substs,
                0,
                seq![generic_param_list(db, GenericDefId::ImplId(i)).len()],
            )
        }
    &&& forall|def: GenericDefId, k: int|
        0 <= k < db.spec_generic_defaults(def).len() ==> binder_consistent_ty(
            (#[trigger] db.spec_generic_defaults(def)[k])@,
        )
    &&& forall|p: TypeParamId, k: int|
        0 <= k < db.spec_generic_predicates_for_param(p).len() ==> closed_pred(
            (#[trigger] db.spec_generic_predicates_for_param(p)[k]).value@,
            0,
            seq![generic_param_list(db, p.parent).len()],
        )
}

/// Whether the generic parameters of `owner` are among those in scope of
/// `scope`: `owner` is the definition in scope itself, or the definition that
/// it inherits its parameters from.
pub open spec fn visible(db: Database, scope: Option<GenericDefId>, owner: GenericDefId) -> bool {
    match scope {
        Some(d) => owner == d || (db.spec_parent_generic_def(d) == Some(owner) && db.spec_parent_generic_def(
            owner,
        ) is None),
        None => false,
    }
}

/// Whether what `res` names lies in the scope `scope`: a generic parameter
/// is one of those in scope, and `Self` is the impl or data type in scope.
pub open spec fn resolution_in_scope(db: Database, scope: Option<GenericDefId>, res: TypeNs) -> bool {
    match res {
        TypeNs::GenericParam(p) => visible(db, scope, p.parent),
        TypeNs::SelfType(i) => visible(db, scope, GenericDefId::ImplId(i)),
        TypeNs::AdtSelfType(a) => visible(db, scope, GenericDefId::AdtId(a)),
        _ => true,
    }
}

/// Whether every answer of name resolution in `resolver` lies in the scope
/// of `resolver`.
#[verifier::opaque]
pub open spec fn resolver_consistent(db: Database, resolver: Resolver) -> bool {
    forall|i: int|
        0 <= i < resolver.type_ns@.len() ==> resolution_in_scope(
            db,
            resolver.generic_def,
            (#[trigger] resolver.type_ns@[i]).resolution,
        )
}

/// Whether `resolver` is the scope of `def`, and consistent.
pub open spec fn scope_of(db: Database, resolver: Resolver, def: Option<GenericDefId>) -> bool {
    resolver.generic_def == def && resolver_consistent(db, resolver)
}

/// Whether the database is consistent: its evaluated answers are
/// binder-consistent, the scope that it holds for a definition is the scope
/// of that definition and names only what is in scope, and the generic
/// parameters in scope of a definition can be counted.
pub open spec fn database_consistent(db: Database) -> bool {
    &&& answers_consistent(db)
    &&& forall|def: GenericDefId| #[trigger]
        db.spec_item(def) matches Some(item) ==> scope_of(db, item.resolver, Some(def))
    &&& forall|s: crate::ids::StaticId| #[trigger]
        db.spec_static_data(s) matches Some(d) ==> scope_of(db, d.resolver, None)
    &&& forall|def: GenericDefId| #[trigger] generic_param_list(db, def).len() <= usize::MAX
}

/// Whether a pass in `env` reads consistent answers in a consistent scope.
pub open spec fn env_consistent(env: LowerEnv) -> bool {
    answers_consistent(env.db) && resolver_consistent(env.db, env.resolver)
}

/// The number of generic parameters in scope that are not made for an
/// `impl Trait` argument.
pub open spec fn declared_len(env: LowerEnv) -> nat {
    let split = provenance_split_spec(env.db, env.resolver.generic_def);
    split.0 + split.1 + split.2
}

/// The number of variables that the binder of the generic parameters must
/// have for what a pass in `env` has produced up to the state `st` to be
/// bound: the number of generic parameters in scope and, where `impl Trait`
/// lowers to variables, one more than the index of the last such variable.
#[verifier::opaque]
pub open spec fn reach(env: LowerEnv, st: LowerState) -> nat {
    let n = env.generics_len();
    if env.impl_trait_mode is Variable && declared_len(env) + st.counter > n {
        declared_len(env) + st.counter as nat
    } else {
        n
    }
}

/// Whether the bounds of the opaque types made so far are bound one binder
/// inside the generic parameters.
pub open spec fn opaque_consistent(env: LowerEnv, st: LowerState) -> bool {
    forall|j: int|
        0 <= j < st.opaque.len() ==> closed_preds((#[trigger] st.opaque[j]).value, 1, seq![env.generics_len()])
}

// ---------------------------------------------------------------------------
// What is read from the database is bound
// ---------------------------------------------------------------------------

/// The parameters of a definition whose parameters are in scope are among
/// the parameters in scope.
pub proof fn lemma_visible_len(db: Database, scope: Option<GenericDefId>, owner: GenericDefId)
    requires
        visible(db, scope, owner),
    ensures
        generic_param_list(db, owner).len() <= generics_len(db, scope),
{
    let d = scope.unwrap();
    if owner != d {
        assert(parent_params(db, owner) =~= Seq::empty());
        assert(generic_param_list(db, owner) =~= own_params(db, owner));
        assert(parent_params(db, d) == own_params(db, owner));
    }
}

pub proof fn lemma_bound_vars_closed(n: nat, debruijn: DebruijnIndex, m: nat)
    requires
        n <= m,
    ensures
        closed_tys(bound_vars(n, debruijn), debruijn.depth as nat, seq![m]),
{
}

pub proof fn lemma_placeholders_closed(params: Seq<crate::generics::GenericParam>, inner: nat, scopes: Seq<nat>)
    ensures
        closed_tys(placeholders(params), inner, scopes),
{
}

/// The declared type of a definition, as the database has it, is bound
/// under some one binder.
pub proof fn lemma_declared_ty_closed(db: Database, def: TyDefId) -> (m: nat)
    requires
        answers_consistent(db),
    ensures
        closed_ty(declared_ty(db, def).value, 0, seq![m]),
{
    reveal(answers_consistent);
    match def {
        TyDefId::BuiltinType(_) => 0,
        TyDefId::AdtId(adt) => {
            let n = generic_param_list(db, GenericDefId::AdtId(adt)).len();
            lemma_bound_vars_closed(n, DebruijnIndex { depth: 0 }, n);
            n
        },
        TyDefId::TypeAliasId(t) => match db.spec_type_alias_data(t) {
            Some(d) => match d.ty {
                Some(b) => b.num_binders as nat,
                None => 0,
            },
            None => 0,
        },
    }
}

/// The self type of an impl, as the database has it, is bound under some one
/// binder.
pub proof fn lemma_declared_impl_self_ty_closed(db: Database, impl_id: ImplId) -> (m: nat)
    requires
        answers_consistent(db),
    ensures
        closed_ty(declared_impl_self_ty(db, impl_id).value, 0, seq![m]),
{
    reveal(answers_consistent);
    match db.spec_impl_data(impl_id) {
        Some(d) => match d.self_ty {
            Some(b) => b.num_binders as nat,
            None => 0,
        },
        None => 0,
    }
}

/// The trait references of evaluated predicates, instantiated with bound
/// types, are bound.
pub proof fn lemma_implemented_with_closed(
    preds: Seq<Binders<GenericPredicate>>,
    substs: Seq<TyV>,
    m: nat,
    inner: nat,
    scopes: Seq<nat>,
)
    requires
        forall|k: int| 0 <= k < preds.len() ==> closed_pred((#[trigger] preds[k]).value@, 0, seq![m]),
        closed_tys(substs, inner, scopes),
    ensures
        closed_trait_refs(implemented_with(preds, substs), inner, scopes),
    decreases preds.len(),
{
    if preds.len() > 0 {
        lemma_implemented_with_closed(preds.drop_last(), substs, m, inner, scopes);
        match preds.last().value@ {
            PredV::Implemented(t) => {
                lemma_subst_closed_tys(t.substs, substs, 0, m, inner, scopes);
            },
            _ => {},
        }
    }
}

/// The trait references of evaluated predicates, read as they stand, are
/// bound under the binder that the predicates are bound under.
pub proof fn lemma_implemented_raw_closed(preds: Seq<Binders<GenericPredicate>>, m: nat)
    requires
        forall|k: int| 0 <= k < preds.len() ==> closed_pred((#[trigger] preds[k]).value@, 0, seq![m]),
    ensures
        closed_trait_refs(implemented_raw(preds), 0, seq![m]),
    decreases preds.len(),
{
    if preds.len() > 0 {
        lemma_implemented_raw_closed(preds.drop_last(), m);
    }
}

/// The direct supertraits of a bound trait reference are bound.
pub proof fn lemma_direct_super_closed(db: Database, t: TraitRefV, inner: nat, scopes: Seq<nat>)
    requires
        answers_consistent(db),
        closed_trait_ref(t, inner, scopes),
    ensures
        closed_trait_refs(direct_super_trait_refs(db, t), inner, scopes),
{
    reveal(answers_consistent);
    match trait_self_param(own_params(db, GenericDefId::TraitId(t.trait_)), 0) {
        Some(p) => {
            lemma_implemented_with_closed(
                db.spec_generic_predicates_for_param(p),
                t.substs,
                generic_param_list(db, p.parent).len(),
                inner,
                scopes,
            );
        },
        None => {},
    }
}

pub proof fn lemma_add_new_traits_closed(
    result: Seq<TraitRefV>,
    cands: Seq<TraitRefV>,
    from: int,
    inner: nat,
    scopes: Seq<nat>,
)
    requires
        closed_trait_refs(result, inner, scopes),
        closed_trait_refs(cands, inner, scopes),
    ensures
        closed_trait_refs(add_new_traits(result, cands, from), inner, scopes),
    decreases cands.len() - from,
{
    if 0 <= from < cands.len() {
        if crate::traits::names_trait(result, cands[from].trait_) {
            lemma_add_new_traits_closed(result, cands, from + 1, inner, scopes);
        } else {
            lemma_add_new_traits_closed(result.push(cands[from]), cands, from + 1, inner, scopes);
        }
    }
}

/// The supertraits of bound trait references are bound.
pub proof fn lemma_super_trait_closure_closed(
    db: Database,
    result: Seq<TraitRefV>,
    i: nat,
    fuel: nat,
    inner: nat,
    scopes: Seq<nat>,
)
    requires
        answers_consistent(db),
        closed_trait_refs(result, inner, scopes),
    ensures
        closed_trait_refs(super_trait_closure(db, result, i, fuel), inner, scopes),
    decreases fuel,
{
    reveal(super_trait_closure);
    if fuel != 0 && i < result.len() {
        let supers = direct_super_trait_refs(db, result[i as int]);
        lemma_direct_super_closed(db, result[i as int], inner, scopes);
        lemma_add_new_traits_closed(result, supers, 0, inner, scopes);
        lemma_super_trait_closure_closed(
            db,
            add_new_traits(result, supers, 0),
            i + 1,
            (fuel - 1) as nat,
            inner,
            scopes,
        );
    }
}

pub proof fn lemma_all_super_trait_refs_closed(db: Database, t: TraitRefV, inner: nat, scopes: Seq<nat>)
    requires
        answers_consistent(db),
        closed_trait_ref(t, inner, scopes),
    ensures
        closed_trait_refs(all_super_trait_refs_spec(db, t), inner, scopes),
{
    lemma_super_trait_closure_closed(db, seq![t], 0, (usize::MAX as nat) + 1, inner, scopes);
}

pub proof fn lemma_first_with_assoc_type_closed(
    db: Database,
    ts: Seq<TraitRefV>,
    name: Name,
    from: int,
    inner: nat,
    scopes: Seq<nat>,
)
    requires
        closed_trait_refs(ts, inner, scopes),
    ensures
        first_with_assoc_type(db, ts, name, from) matches Some((t, _)) ==> closed_trait_ref(t, inner, scopes),
    decreases ts.len() - from,
{
    if 0 <= from < ts.len() {
        lemma_first_with_assoc_type_closed(db, ts, name, from + 1, inner, scopes);
    }
}

/// The trait reference through which an associated type is found from a
/// bound trait reference is bound.
pub proof fn lemma_assoc_type_closed(db: Database, t: TraitRefV, name: Name, inner: nat, scopes: Seq<nat>)
    requires
        answers_consistent(db),
        closed_trait_ref(t, inner, scopes),
    ensures
        assoc_type_including_super_traits(db, t, name) matches Some((s, _)) ==> closed_trait_ref(
            s,
            inner,
            scopes,
        ),
{
    lemma_all_super_trait_refs_closed(db, t, inner, scopes);
    lemma_first_with_assoc_type_closed(db, all_super_trait_refs_spec(db, t), name, 0, inner, scopes);
}

/// Whether the trait reference of every candidate is bound.
pub open spec fn candidates_closed(cands: Seq<AssocTypeCandidateV>, inner: nat, scopes: Seq<nat>) -> bool {
    forall|i: int| 0 <= i < cands.len() ==> closed_trait_ref((#[trigger] cands[i]).trait_ref, inner, scopes)
}

proof fn lemma_candidates_of_items_closed(
    items: Seq<(Name, crate::db::AssocItemId)>,
    t: TraitRefV,
    inner: nat,
    scopes: Seq<nat>,
)
    requires
        closed_trait_ref(t, inner, scopes),
    ensures
        candidates_closed(candidates_of_items(items, t), inner, scopes),
    decreases items.len(),
{
    if items.len() > 0 {
        lemma_candidates_of_items_closed(items.drop_last(), t, inner, scopes);
    }
}

proof fn lemma_candidates_of_traits_closed(db: Database, ts: Seq<TraitRefV>, inner: nat, scopes: Seq<nat>)
    requires
        closed_trait_refs(ts, inner, scopes),
    ensures
        candidates_closed(candidates_of_traits(db, ts), inner, scopes),
    decreases ts.len(),
{
    if ts.len() > 0 {
        lemma_candidates_of_traits_closed(db, ts.drop_last(), inner, scopes);
        match db.spec_trait_data(ts.last().trait_) {
            Some(d) => lemma_candidates_of_items_closed(d.items@, ts.last(), inner, scopes),
            None => {},
        }
    }
}

proof fn lemma_candidates_of_env_closed(db: Database, env: Seq<TraitRefV>, inner: nat, scopes: Seq<nat>)
    requires
        answers_consistent(db),
        closed_trait_refs(env, inner, scopes),
    ensures
        candidates_closed(candidates_of_env(db, env), inner, scopes),
    decreases env.len(),
{
    if env.len() > 0 {
        lemma_candidates_of_env_closed(db, env.drop_last(), inner, scopes);
        lemma_all_super_trait_refs_closed(db, env.last(), inner, scopes);
        lemma_candidates_of_traits_closed(db, all_super_trait_refs_spec(db, env.last()), inner, scopes);
    }
}

/// The traits known to hold of something in scope are bound under the
/// generic parameters in scope.
pub proof fn lemma_traits_from_env_closed(db: Database, scope: Option<GenericDefId>, res: TypeNs)
    requires
        answers_consistent(db),
        resolution_in_scope(db, scope, res),
    ensures
        closed_trait_refs(traits_from_env(db, res), 0, seq![generics_len(db, scope)]),
{
    reveal(answers_consistent);
    let n = generics_len(db, scope);
    match res {
        TypeNs::SelfType(impl_id) => {
            lemma_visible_len(db, scope, GenericDefId::ImplId(impl_id));
            match db.spec_impl_trait(impl_id) {
                Some(t) => {
                    let m = generic_param_list(db, GenericDefId::ImplId(impl_id)).len();
                    assert(db.spec_impl_data(impl_id) is Some);
                    lemma_closed_weaken_tys(t.value@.substs, 0, seq![m], seq![n]);
                },
                None => {},
            }
        },
        TypeNs::GenericParam(p) => {
            lemma_visible_len(db, scope, p.parent);
            let m = generic_param_list(db, p.parent).len();
            let preds = db.spec_generic_predicates_for_param(p);
            lemma_implemented_raw_closed(preds, m);
            let raw = implemented_raw(preds);
            assert forall|i: int| 0 <= i < raw.len() implies closed_trait_ref(#[trigger] raw[i], 0, seq![n]) by {
                lemma_closed_weaken_tys(raw[i].substs, 0, seq![m], seq![n]);
            }
            lemma_bound_vars_closed(m, DebruijnIndex { depth: 0 }, n);
        },
        _ => {},
    }
}

/// The candidates for an associated type of something in scope are bound
/// under the generic parameters in scope.
pub proof fn lemma_shorthand_candidates_closed(db: Database, scope: Option<GenericDefId>, res: TypeNs)
    requires
        answers_consistent(db),
        resolution_in_scope(db, scope, res),
    ensures
        candidates_closed(shorthand_candidates(db, res), 0, seq![generics_len(db, scope)]),
{
    lemma_traits_from_env_closed(db, scope, res);
    lemma_candidates_of_env_closed(db, traits_from_env(db, res), 0, seq![generics_len(db, scope)]);
}

proof fn lemma_first_named_in(cands: Seq<AssocTypeCandidateV>, name: Name, from: int, inner: nat, scopes: Seq<nat>)
    requires
        candidates_closed(cands, inner, scopes),
    ensures
        first_named(cands, name, from) matches Some(c) ==> closed_trait_ref(c.trait_ref, inner, scopes),
    decreases cands.len() - from,
{
    if 0 <= from < cands.len() {
        lemma_first_named_in(cands, name, from + 1, inner, scopes);
    }
}

/// An associated type of something in scope lowers to a bound type.
pub proof fn lemma_select_associated_type_closed(env: LowerEnv, res: Option<TypeNs>, name: Name)
    requires
        env_consistent(env),
        res matches Some(r) ==> resolution_in_scope(env.db, env.resolver.generic_def, r),
    ensures
        closed_ty(
            select_associated_type_spec(env, res, name),
            env.in_binders.depth as nat,
            seq![env.generics_len()],
        ),
{
    reveal(select_associated_type_spec);
    let n = env.generics_len();
    let c = env.in_binders.depth as nat;
    match res {
        Some(r) => {
            lemma_shorthand_candidates_closed(env.db, env.resolver.generic_def, r);
            let cands = shorthand_candidates(env.db, r);
            lemma_first_named_in(cands, name, 0, 0, seq![n]);
            match first_named(cands, name, 0) {
                Some(cand) => {
                    match env.type_param_mode {
                        TypeParamLoweringMode::Placeholder => match env.resolver.generic_def {
                            Some(def) => {
                                let ps = placeholders(generic_param_list(env.db, def));
                                lemma_placeholders_closed(generic_param_list(env.db, def), 0, seq![n]);
                                lemma_subst_closed_tys(cand.trait_ref.substs, ps, 0, n, 0, seq![n]);
                                lemma_shift_closed_tys(
                                    map_tys(VarOp::Subst(ps), cand.trait_ref.substs, 0),
                                    c,
                                    0,
                                    0,
                                    seq![n],
                                );
                            },
                            None => {},
                        },
                        TypeParamLoweringMode::Variable => {
                            lemma_shift_closed_tys(cand.trait_ref.substs, c, 0, 0, seq![n]);
                        },
                    }
                },
                None => {},
            }
        },
        None => {},
    }
}

/// A type and the path segments that follow it lower to a bound type where
/// the type is bound.
pub proof fn lemma_relative_path_closed(
    env: LowerEnv,
    ty: TyV,
    res: Option<TypeNs>,
    remaining: Seq<crate::type_ref::PathSegment>,
    bound: nat,
)
    requires
        env_consistent(env),
        res matches Some(r) ==> resolution_in_scope(env.db, env.resolver.generic_def, r),
        closed_ty(ty, env.in_binders.depth as nat, seq![bound]),
        env.generics_len() <= bound,
    ensures
        closed_ty(
            lower_ty_relative_path_spec(env, ty, res, remaining).0,
            env.in_binders.depth as nat,
            seq![bound],
        ),
        lower_ty_relative_path_spec(env, ty, res, remaining).1 matches Some(r) ==> resolution_in_scope(
            env.db,
            env.resolver.generic_def,
            r,
        ),
{
    reveal(lower_ty_relative_path_spec);
    if remaining.len() == 1 {
        lemma_select_associated_type_closed(env, res, remaining[0].name);
        lemma_closed_weaken(
            select_associated_type_spec(env, res, remaining[0].name),
            env.in_binders.depth as nat,
            seq![env.generics_len()],
            seq![bound],
        );
    }
}

/// The parameters in scope of a definition whose parameters are in scope,
/// as types, are bound.
pub proof fn lemma_params_as_types_closed(env: LowerEnv, def: GenericDefId)
    requires
        visible(env.db, env.resolver.generic_def, def),
    ensures
        closed_tys(params_as_types(env, def), env.in_binders.depth as nat, seq![env.generics_len()]),
{
    lemma_visible_len(env.db, env.resolver.generic_def, def);
    match env.type_param_mode {
        TypeParamLoweringMode::Placeholder => {},
        TypeParamLoweringMode::Variable => {
            lemma_bound_vars_closed(
                generic_param_list(env.db, def).len(),
                env.in_binders,
                env.generics_len(),
            );
        },
    }
}

/// A type parameter lowers to a bound type: to a variable of the binder of
/// the generic parameters, where the variable counts from the place of the
/// pass, and else to a variable that is bound where at least one inner
/// binder surrounds it.
pub proof fn lemma_lower_type_param_closed(env: LowerEnv, p: TypeParamId, debruijn: DebruijnIndex)
    requires
        debruijn.depth <= env.in_binders.depth,
    ensures
        closed_ty(lower_type_param(env, p, debruijn), env.in_binders.depth as nat, seq![env.generics_len()]),
{
    match env.type_param_mode {
        TypeParamLoweringMode::Placeholder => {},
        TypeParamLoweringMode::Variable => match env.resolver.generic_def {
            Some(def) => {
                lemma_param_index_bound(generic_param_list(env.db, def), p, 0);
            },
            None => {},
        },
    }
}

pub proof fn lemma_defaults_consistent(db: Database, def: GenericDefId)
    requires
        answers_consistent(db),
    ensures
        forall|k: int|
            0 <= k < db.spec_generic_defaults(def).len() ==> binder_consistent_ty(
                (#[trigger] db.spec_generic_defaults(def)[k])@,
            ),
{
    reveal(answers_consistent);
}

/// Filling in defaults keeps a substitution bound.
pub proof fn lemma_fill_defaults_closed(
    defaults: Seq<Binders<Ty>>,
    substs: Seq<TyV>,
    total: nat,
    inner: nat,
    scopes: Seq<nat>,
)
    requires
        forall|k: int| 0 <= k < defaults.len() ==> binder_consistent_ty((#[trigger] defaults[k])@),
        closed_tys(substs, inner, scopes),
    ensures
        closed_tys(fill_defaults(defaults, substs, total), inner, scopes),
        substs.len() <= total ==> fill_defaults(defaults, substs, total).len() <= total,
        fill_defaults(defaults, substs, total).len() >= substs.len(),
    decreases total - substs.len(),
{
    if substs.len() < total && substs.len() < defaults.len() {
        let d = defaults[substs.len() as int];
        lemma_subst_closed(d.value@, substs, 0, d.num_binders as nat, inner, scopes);
        lemma_fill_defaults_closed(
            defaults,
            substs.push(subst_ty(d.value@, substs)),
            total,
            inner,
            scopes,
        );
    }
}

/// Filling in defaults never takes a substitution beyond the number of
/// parameters, and padding brings it to that number.
pub proof fn lemma_fill_defaults_len(defaults: Seq<Binders<Ty>>, substs: Seq<TyV>, total: nat)
    requires
        substs.len() <= total,
    ensures
        fill_defaults(defaults, substs, total).len() <= total,
        pad_unknown(fill_defaults(defaults, substs, total), total).len() == total,
    decreases total - substs.len(),
{
    if substs.len() < total && substs.len() < defaults.len() {
        let d = defaults[substs.len() as int];
        lemma_fill_defaults_len(defaults, substs.push(subst_ty(d.value@, substs)), total);
    }
}

} // verus!
