//! Binder consistency of a pass: by induction over the syntax, every type
//! and predicate that lowering produces in a consistent environment is bound
//! where the pass stands.
use vstd::prelude::*;
use crate::binders::{
    closed_pred, closed_preds, closed_trait_ref, closed_ty, closed_tys, lemma_closed_deeper_tys,
    lemma_closed_weaken, lemma_closed_weaken_preds, lemma_closed_weaken_tys, lemma_subst_closed,
    scopes_within, subst_ty, Binders,
};
use crate::consistency::{
    env_consistent, lemma_assoc_type_closed, lemma_bound_vars_closed,
    lemma_declared_impl_self_ty_closed, lemma_declared_ty_closed, lemma_defaults_consistent,
    lemma_fill_defaults_closed, lemma_lower_type_param_closed, lemma_params_as_types_closed,
    lemma_relative_path_closed, opaque_consistent, reach, resolution_in_scope, resolver_consistent,
    visible,
};
use crate::db::TypeNs;
use crate::generics::{generic_param_list, generics_len, lemma_provenance_counts, parent_params};
use crate::ids::{GenericDefId, ImplId, Name, TraitId, TyDefId};
use crate::semantics::{
    assoc_type_bindings_spec, bindings_of, declared_impl_self_ty, declared_ty, fill_defaults,
    generic_def_of, lower_impl_trait_spec, lower_partly_resolved_path_spec, lower_path_inner_spec,
    lower_path_spec, lower_trait_ref_from_path_spec, lower_trait_ref_from_resolved_path_spec,
    lower_ty_relative_path_spec, lower_ty_spec, lower_type_args_spec, lower_type_bound_spec,
    lower_type_bounds_spec, lower_type_param, lower_tys_spec, pad_unknown, params_as_types,
    provenance_split_spec, self_var, substs_from_path_segment_spec, unknowns,
    ImplTraitLoweringMode, LowerEnv, LowerState,
};
use crate::traits::assoc_type_including_super_traits;
use crate::ty::{DebruijnIndex, PredV, ProjectionTyV, TraitRefV, TyV};
use crate::type_ref::{AssociatedTypeBinding, GenericArg, Path, PathSegment, TypeBound, TypeRef};

verus! {

// ---------------------------------------------------------------------------
// What a pass produces is bound
// ---------------------------------------------------------------------------

/// Whether a pass that went from the state `a` to the state `b` only went
/// on: it met no fewer `impl Trait` occurrences and holds no fewer opaque
/// types; where it makes opaque types and held one for each occurrence
/// before, it does so after; and where the opaque types were bound before,
/// they are bound after.
pub open spec fn state_grows(env: LowerEnv, a: LowerState, b: LowerState) -> bool {
    &&& a.counter <= b.counter
    &&& a.opaque.len() <= b.opaque.len()
    &&& env.impl_trait_mode is Opaque && a.counter == a.opaque.len() ==> b.counter == b.opaque.len()
    &&& opaque_consistent(env, a) ==> opaque_consistent(env, b)
}

/// Whether `r`, lowered from the state `st`, is bound where the pass stands,
/// and names, if anything, something in scope.
pub open spec fn ty_bound(env: LowerEnv, st: LowerState, r: (TyV, Option<TypeNs>, LowerState)) -> bool {
    &&& state_grows(env, st, r.2)
    &&& closed_ty(r.0, env.in_binders.depth as nat, seq![reach(env, r.2)])
    &&& r.1 matches Some(x) ==> resolution_in_scope(env.db, env.resolver.generic_def, x)
}

/// Whether the types `r`, lowered from the state `st`, are bound under
/// `level` inner binders.
pub open spec fn tys_bound(env: LowerEnv, st: LowerState, r: (Seq<TyV>, LowerState), level: nat) -> bool {
    state_grows(env, st, r.1) && closed_tys(r.0, level, seq![reach(env, r.1)])
}

/// Whether the predicates `r`, lowered from the state `st`, are bound under
/// `level` inner binders.
pub open spec fn preds_bound(env: LowerEnv, st: LowerState, r: (Seq<PredV>, LowerState), level: nat) -> bool {
    state_grows(env, st, r.1) && closed_preds(r.0, level, seq![reach(env, r.1)])
}

proof fn lemma_reach_grows(env: LowerEnv, a: LowerState, b: LowerState)
    requires
        a.counter <= b.counter,
    ensures
        reach(env, a) <= reach(env, b),
        env.generics_len() <= reach(env, a),
        scopes_within(seq![reach(env, a)], seq![reach(env, b)]),
        scopes_within(seq![env.generics_len()], seq![reach(env, a)]),
{
    reveal(reach);
}

/// What `reach` is, as far as the proofs below use it.
proof fn lemma_reach_facts(env: LowerEnv, st: LowerState, d: DebruijnIndex)
    ensures
        reach(env.with_binders(d), st) == reach(env, st),
        env.with_binders(d).generics_len() == env.generics_len(),
        !(env.impl_trait_mode is Variable) ==> reach(env, st) == env.generics_len(),
        env.impl_trait_mode is Variable ==> reach(env, st) >= crate::consistency::declared_len(env)
            + st.counter,
        env_consistent(env.with_binders(d)) == env_consistent(env),
        opaque_consistent(env.with_binders(d), st) == opaque_consistent(env, st),
{
    reveal(reach);
}

proof fn lemma_later_ty(env: LowerEnv, a: LowerState, b: LowerState, t: TyV, level: nat)
    requires
        a.counter <= b.counter,
        closed_ty(t, level, seq![reach(env, a)]),
    ensures
        closed_ty(t, level, seq![reach(env, b)]),
{
    lemma_reach_grows(env, a, b);
    lemma_closed_weaken(t, level, seq![reach(env, a)], seq![reach(env, b)]);
}

proof fn lemma_later_tys(env: LowerEnv, a: LowerState, b: LowerState, s: Seq<TyV>, level: nat)
    requires
        a.counter <= b.counter,
        closed_tys(s, level, seq![reach(env, a)]),
    ensures
        closed_tys(s, level, seq![reach(env, b)]),
{
    lemma_reach_grows(env, a, b);
    lemma_closed_weaken_tys(s, level, seq![reach(env, a)], seq![reach(env, b)]);
}

proof fn lemma_later_preds(env: LowerEnv, a: LowerState, b: LowerState, s: Seq<PredV>, level: nat)
    requires
        a.counter <= b.counter,
        closed_preds(s, level, seq![reach(env, a)]),
    ensures
        closed_preds(s, level, seq![reach(env, b)]),
{
    lemma_reach_grows(env, a, b);
    lemma_closed_weaken_preds(s, level, seq![reach(env, a)], seq![reach(env, b)]);
}

proof fn lemma_from_generics_ty(env: LowerEnv, st: LowerState, t: TyV, level: nat)
    requires
        closed_ty(t, level, seq![env.generics_len()]),
    ensures
        closed_ty(t, level, seq![reach(env, st)]),
{
    lemma_reach_grows(env, st, st);
    lemma_closed_weaken(t, level, seq![env.generics_len()], seq![reach(env, st)]);
}

/// A resolved path lies in the scope of the pass.
proof fn lemma_resolved_in_scope(env: LowerEnv, segments: Seq<PathSegment>)
    requires
        resolver_consistent(env.db, env.resolver),
    ensures
        env.resolver.spec_resolve(segments) matches Some((res, _)) ==> resolution_in_scope(
            env.db,
            env.resolver.generic_def,
            res,
        ),
{
    reveal(resolver_consistent);
    lemma_find_entry_in_range(env.resolver.type_ns@, crate::db::path_names(segments), 0);
}

proof fn lemma_find_entry_in_range(entries: Seq<crate::db::TypeNsEntry>, names: Seq<Name>, from: int)
    requires
        0 <= from,
    ensures
        crate::db::find_entry(entries, names, from) matches Some(i) ==> from <= i < entries.len(),
    decreases entries.len() - from,
{
    if from < entries.len() && entries[from].path@ != names {
        lemma_find_entry_in_range(entries, names, from + 1);
    }
}

/// What a type reference lowers to is bound where the pass stands.
pub proof fn lemma_lower_ty_bound(env: LowerEnv, st: LowerState, type_ref: TypeRef)
    requires
        env_consistent(env),
    ensures
        ty_bound(env, st, lower_ty_spec(env, st, type_ref)),
    decreases type_ref, 0nat,
{
    reveal(lower_ty_spec);
    reveal(lower_tys_spec);
    reveal(lower_path_spec);
    reveal(lower_type_bounds_spec);
    reveal(lower_impl_trait_spec);
    let c = env.in_binders.depth as nat;
    match type_ref {
        TypeRef::Never | TypeRef::Placeholder | TypeRef::Error => {},
        TypeRef::Tuple(inner) => {
            lemma_lower_tys_bound(env, st, inner@);
        },
        TypeRef::Path(path) => {
            lemma_lower_path_bound(env, st, path);
        },
        TypeRef::RawPtr(inner, _) => {
            lemma_lower_ty_bound(env, st, *inner);
        },
        TypeRef::Array(inner) => {
            lemma_lower_ty_bound(env, st, *inner);
        },
        TypeRef::Slice(inner) => {
            lemma_lower_ty_bound(env, st, *inner);
        },
        TypeRef::Reference(inner, _, _) => {
            lemma_lower_ty_bound(env, st, *inner);
        },
        TypeRef::Fn(params, _) => {
            lemma_lower_tys_bound(env, st, params@);
        },
        TypeRef::DynTrait(bounds) => match env.in_binders.spec_shifted_in_from(DebruijnIndex { depth: 1 }) {
            Some(d) => {
                lemma_reach_facts(env, st, d);
                lemma_lower_type_bounds_bound(env.with_binders(d), st, bounds@, self_var());
                let (preds, st2) = lower_type_bounds_spec(env.with_binders(d), st, bounds@, self_var());
                lemma_reach_facts(env, st2, d);
            },
            None => {},
        },
        TypeRef::ImplTrait(bounds) => match env.impl_trait_mode {
            ImplTraitLoweringMode::Opaque => match env.resolver.generic_def {
                Some(GenericDefId::FunctionId(func)) => if st.counter < u16::MAX && st.counter
                    == st.opaque.len() {
                    let idx = st.counter;
                    let reserved = LowerState {
                        counter: (idx + 1) as u16,
                        opaque: st.opaque.push(Binders { num_binders: 1, value: Seq::empty() }),
                    };
                    let zero = DebruijnIndex { depth: 0 };
                    let env0 = env.with_binders(zero);
                    lemma_reach_facts(env, reserved, zero);
                    lemma_lower_impl_trait_bound(env0, reserved, bounds@);
                    let (actual, st2) = lower_impl_trait_spec(env0, reserved, bounds@);
                    lemma_reach_facts(env, st2, zero);
                    lemma_bound_vars_closed(env.generics_len(), env.in_binders, env.generics_len());
                    let st3 = LowerState {
                        counter: st2.counter,
                        opaque: if idx < st2.opaque.len() {
                            st2.opaque.update(idx as int, actual)
                        } else {
                            st2.opaque
                        },
                    };
                    lemma_reach_facts(env, st3, zero);
                    if opaque_consistent(env, st) {
                        assert(opaque_consistent(env, reserved));
                        assert(opaque_consistent(env0, st2));
                        assert(opaque_consistent(env, st3));
                    }
                },
                _ => {},
            },
            ImplTraitLoweringMode::Param => {},
            ImplTraitLoweringMode::Variable => {
                let count = crate::type_ref::impl_trait_count(type_ref);
                assert(count >= 1);
                if st.counter + count <= u16::MAX {
                    let st2 = LowerState { counter: (st.counter + count) as u16, opaque: st.opaque };
                    lemma_reach_facts(env, st2, env.in_binders);
                }
            },
            ImplTraitLoweringMode::Disallowed => {},
        },
    }
}

/// What a list of type references lowers to is bound where the pass stands.
pub proof fn lemma_lower_tys_bound(env: LowerEnv, st: LowerState, type_refs: Seq<TypeRef>)
    requires
        env_consistent(env),
    ensures
        tys_bound(env, st, lower_tys_spec(env, st, type_refs), env.in_binders.depth as nat),
        lower_tys_spec(env, st, type_refs).0.len() == type_refs.len(),
    decreases type_refs, 0nat,
{
    reveal(lower_tys_spec);
    reveal(lower_ty_spec);
    if type_refs.len() > 0 {
        lemma_lower_tys_bound(env, st, type_refs.drop_last());
        let (front, st1) = lower_tys_spec(env, st, type_refs.drop_last());
        lemma_lower_ty_bound(env, st1, type_refs.last());
        let (t, _, st2) = lower_ty_spec(env, st1, type_refs.last());
        lemma_later_tys(env, st1, st2, front, env.in_binders.depth as nat);
    }
}

proof fn lemma_lower_path_bound(env: LowerEnv, st: LowerState, path: Path)
    requires
        env_consistent(env),
    ensures
        ty_bound(env, st, lower_path_spec(env, st, path)),
    decreases path, 5nat,
{
    reveal(lower_path_spec);
    reveal(lower_ty_spec);
    reveal(lower_partly_resolved_path_spec);
    match path.type_anchor {
        Some(anchor) => {
            lemma_lower_ty_bound(env, st, *anchor);
            let (ty, res, st2) = lower_ty_spec(env, st, *anchor);
            lemma_reach_grows(env, st2, st2);
            lemma_relative_path_closed(env, ty, res, path.segments@, reach(env, st2));
        },
        None => {
            lemma_resolved_in_scope(env, path.segments@);
            match env.resolver.spec_resolve(path.segments@) {
                None => {},
                Some((resolution, remaining_index)) => {
                    let n = path.segments@.len() as int;
                    let from = match remaining_index {
                        None => n,
                        Some(i) => i as int,
                    };
                    lemma_find_entry_in_range(
                        env.resolver.type_ns@,
                        crate::db::path_names(path.segments@),
                        0,
                    );
                    assert(1 <= from <= n);
                    lemma_lower_partly_bound(
                        env,
                        st,
                        resolution,
                        path.segments@[from - 1],
                        path.segments@.subrange(from, n),
                        false,
                    );
                },
            }
        },
    }
}

proof fn lemma_lower_partly_bound(
    env: LowerEnv,
    st: LowerState,
    resolution: TypeNs,
    resolved_segment: PathSegment,
    remaining: Seq<PathSegment>,
    infer_args: bool,
)
    requires
        env_consistent(env),
        resolution_in_scope(env.db, env.resolver.generic_def, resolution),
    ensures
        ty_bound(
            env,
            st,
            lower_partly_resolved_path_spec(env, st, resolution, resolved_segment, remaining, infer_args),
        ),
    decreases resolved_segment, 3nat,
{
    reveal(lower_partly_resolved_path_spec);
    reveal(lower_trait_ref_from_resolved_path_spec);
    reveal(lower_path_inner_spec);
    match resolution {
        TypeNs::TraitId(trait_) => {
            if remaining.len() == 0 {
                lemma_trait_object_bound(env, st, trait_, resolved_segment);
            } else {
                lemma_trait_assoc_bound(env, st, trait_, resolved_segment, remaining[0].name);
            }
        },
        TypeNs::EnumVariantId(_) => {},
        TypeNs::GenericParam(p) => {
            lemma_lower_type_param_closed(env, p, env.in_binders);
            lemma_known_then_relative(env, st, lower_type_param(env, p, env.in_binders), resolution, remaining);
        },
        TypeNs::SelfType(impl_id) => {
            lemma_impl_self_type_closed(env, impl_id);
            let substs = params_as_types(env, GenericDefId::ImplId(impl_id));
            lemma_known_then_relative(
                env,
                st,
                subst_ty(declared_impl_self_ty(env.db, impl_id).value, substs),
                resolution,
                remaining,
            );
        },
        TypeNs::AdtSelfType(adt) => {
            lemma_adt_self_type_closed(env, adt);
            let substs = params_as_types(env, GenericDefId::AdtId(adt));
            lemma_known_then_relative(
                env,
                st,
                subst_ty(declared_ty(env.db, TyDefId::AdtId(adt)).value, substs),
                resolution,
                remaining,
            );
        },
        TypeNs::AdtId(it) => {
            lemma_path_inner_then_relative(
                env,
                st,
                resolution,
                resolved_segment,
                remaining,
                TyDefId::AdtId(it),
                infer_args,
            );
        },
        TypeNs::BuiltinType(it) => {
            lemma_path_inner_then_relative(
                env,
                st,
                resolution,
                resolved_segment,
                remaining,
                TyDefId::BuiltinType(it),
                infer_args,
            );
        },
        TypeNs::TypeAliasId(it) => {
            lemma_path_inner_then_relative(
                env,
                st,
                resolution,
                resolved_segment,
                remaining,
                TyDefId::TypeAliasId(it),
                infer_args,
            );
        },
    }
}

/// The self type of an impl in scope, with the parameters in scope put in,
/// is bound.
proof fn lemma_impl_self_type_closed(env: LowerEnv, impl_id: ImplId)
    requires
        env_consistent(env),
        visible(env.db, env.resolver.generic_def, GenericDefId::ImplId(impl_id)),
    ensures
        closed_ty(
            subst_ty(
                declared_impl_self_ty(env.db, impl_id).value,
                params_as_types(env, GenericDefId::ImplId(impl_id)),
            ),
            env.in_binders.depth as nat,
            seq![env.generics_len()],
        ),
{
    let substs = params_as_types(env, GenericDefId::ImplId(impl_id));
    lemma_params_as_types_closed(env, GenericDefId::ImplId(impl_id));
    let m = lemma_declared_impl_self_ty_closed(env.db, impl_id);
    lemma_subst_closed(
        declared_impl_self_ty(env.db, impl_id).value,
        substs,
        0,
        m,
        env.in_binders.depth as nat,
        seq![env.generics_len()],
    );
}

/// The data type in scope, with the parameters in scope put in, is bound.
proof fn lemma_adt_self_type_closed(env: LowerEnv, adt: crate::ids::AdtId)
    requires
        env_consistent(env),
        visible(env.db, env.resolver.generic_def, GenericDefId::AdtId(adt)),
    ensures
        closed_ty(
            subst_ty(
                declared_ty(env.db, TyDefId::AdtId(adt)).value,
                params_as_types(env, GenericDefId::AdtId(adt)),
            ),
            env.in_binders.depth as nat,
            seq![env.generics_len()],
        ),
{
    let substs = params_as_types(env, GenericDefId::AdtId(adt));
    lemma_params_as_types_closed(env, GenericDefId::AdtId(adt));
    let m = lemma_declared_ty_closed(env.db, TyDefId::AdtId(adt));
    lemma_subst_closed(
        declared_ty(env.db, TyDefId::AdtId(adt)).value,
        substs,
        0,
        m,
        env.in_binders.depth as nat,
        seq![env.generics_len()],
    );
}

/// A type that is bound under the generic parameters and the segments that
/// follow it lower to a bound type.
proof fn lemma_known_then_relative(
    env: LowerEnv,
    st: LowerState,
    ty: TyV,
    resolution: TypeNs,
    remaining: Seq<PathSegment>,
)
    requires
        env_consistent(env),
        resolution_in_scope(env.db, env.resolver.generic_def, resolution),
        closed_ty(ty, env.in_binders.depth as nat, seq![env.generics_len()]),
    ensures
        ({
            let (t, r) = lower_ty_relative_path_spec(env, ty, Some(resolution), remaining);
            ty_bound(env, st, (t, r, st))
        }),
{
    lemma_from_generics_ty(env, st, ty, env.in_binders.depth as nat);
    lemma_reach_grows(env, st, st);
    lemma_relative_path_closed(env, ty, Some(resolution), remaining, reach(env, st));
}

/// A bare trait lowers to a bound trait object.
proof fn lemma_trait_object_bound(env: LowerEnv, st: LowerState, trait_: TraitId, resolved_segment: PathSegment)
    requires
        env_consistent(env),
    ensures
        ({
            let (trait_ref, st2) = lower_trait_ref_from_resolved_path_spec(
                env,
                st,
                trait_,
                resolved_segment,
                Some(self_var()),
            );
            state_grows(env, st, st2) && closed_ty(
                TyV::Dyn(seq![PredV::Implemented(trait_ref)]),
                env.in_binders.depth as nat,
                seq![reach(env, st2)],
            )
        }),
    decreases resolved_segment, 2nat, 1nat,
{
    let c = env.in_binders.depth as nat;
    lemma_trait_ref_resolved_bound(env, st, trait_, resolved_segment, Some(self_var()), c + 1);
    let (trait_ref, st2) = lower_trait_ref_from_resolved_path_spec(
        env,
        st,
        trait_,
        resolved_segment,
        Some(self_var()),
    );
    let preds = seq![PredV::Implemented(trait_ref)];
    assert(preds.len() == 1);
    assert(preds[0] == PredV::Implemented(trait_ref));
    assert(closed_pred(preds[0], c + 1, seq![reach(env, st2)]));
    assert(closed_preds(preds, c + 1, seq![reach(env, st2)]));
}

/// An associated type of a trait or of one of its supertraits, named through
/// the trait, lowers to a bound projection.
proof fn lemma_trait_assoc_bound(
    env: LowerEnv,
    st: LowerState,
    trait_: TraitId,
    resolved_segment: PathSegment,
    name: Name,
)
    requires
        env_consistent(env),
    ensures
        ({
            let (trait_ref, st2) = lower_trait_ref_from_resolved_path_spec(
                env,
                st,
                trait_,
                resolved_segment,
                None,
            );
            state_grows(env, st, st2) && closed_ty(
                match assoc_type_including_super_traits(env.db, trait_ref, name) {
                    Some((super_trait_ref, associated_ty)) => TyV::Projection(
                        ProjectionTyV { associated_ty_id: associated_ty, substitution: super_trait_ref.substs },
                    ),
                    None => TyV::Unknown,
                },
                env.in_binders.depth as nat,
                seq![reach(env, st2)],
            )
        }),
    decreases resolved_segment, 2nat, 1nat,
{
    let c = env.in_binders.depth as nat;
    lemma_trait_ref_resolved_bound(env, st, trait_, resolved_segment, None, c);
    let (trait_ref, st2) = lower_trait_ref_from_resolved_path_spec(env, st, trait_, resolved_segment, None);
    lemma_assoc_type_closed(env.db, trait_ref, name, c, seq![reach(env, st2)]);
}

proof fn lemma_path_inner_then_relative(
    env: LowerEnv,
    st: LowerState,
    resolution: TypeNs,
    resolved_segment: PathSegment,
    remaining: Seq<PathSegment>,
    typeable: TyDefId,
    infer_args: bool,
)
    requires
        env_consistent(env),
        resolution_in_scope(env.db, env.resolver.generic_def, resolution),
    ensures
        ({
            let (ty, st2) = lower_path_inner_spec(env, st, resolved_segment, typeable, infer_args);
            let (t, r) = lower_ty_relative_path_spec(env, ty, Some(resolution), remaining);
            ty_bound(env, st, (t, r, st2))
        }),
    decreases resolved_segment, 2nat, 1nat,
{
    lemma_lower_path_inner_bound(env, st, resolved_segment, typeable, infer_args);
    let (ty, st2) = lower_path_inner_spec(env, st, resolved_segment, typeable, infer_args);
    lemma_reach_grows(env, st2, st2);
    lemma_relative_path_closed(env, ty, Some(resolution), remaining, reach(env, st2));
}

proof fn lemma_lower_path_inner_bound(
    env: LowerEnv,
    st: LowerState,
    segment: PathSegment,
    typeable: TyDefId,
    infer_args: bool,
)
    requires
        env_consistent(env),
    ensures
        ({
            let r = lower_path_inner_spec(env, st, segment, typeable, infer_args);
            state_grows(env, st, r.1) && closed_ty(r.0, env.in_binders.depth as nat, seq![reach(env, r.1)])
        }),
    decreases segment, 2nat, 0nat,
{
    reveal(lower_path_inner_spec);
    reveal(substs_from_path_segment_spec);
    lemma_substs_bound(env, st, segment, generic_def_of(typeable), infer_args);
    let (substs, st2) = substs_from_path_segment_spec(env, st, segment, generic_def_of(typeable), infer_args);
    let m = lemma_declared_ty_closed(env.db, typeable);
    lemma_subst_closed(
        declared_ty(env.db, typeable).value,
        substs,
        0,
        m,
        env.in_binders.depth as nat,
        seq![reach(env, st2)],
    );
}

proof fn lemma_lower_type_args_bound(env: LowerEnv, st: LowerState, args: Seq<GenericArg>, skip: nat, take: nat)
    requires
        env_consistent(env),
    ensures
        ({
            let r = lower_type_args_spec(env, st, args, skip, take);
            tys_bound(env, st, (r.0, r.1), env.in_binders.depth as nat) && r.0.len() <= take
        }),
    decreases args, 0nat, 0nat,
{
    reveal(lower_type_args_spec);
    reveal(lower_ty_spec);
    if args.len() > 0 {
        lemma_lower_type_args_bound(env, st, args.drop_last(), skip, take);
        let (front, st1, seen) = lower_type_args_spec(env, st, args.drop_last(), skip, take);
        match args.last() {
            GenericArg::Type(t) => if seen >= skip && front.len() < take {
                lemma_lower_ty_bound(env, st1, t);
                let (ty, _, st2) = lower_ty_spec(env, st1, t);
                lemma_later_tys(env, st1, st2, front, env.in_binders.depth as nat);
            },
            GenericArg::Lifetime(_) => {},
        }
    }
}

#[verifier::rlimit(60)]
/// What the generic arguments of a path segment lower to is bound where the
/// pass stands, and has one entry for each generic parameter.
pub proof fn lemma_substs_bound(
    env: LowerEnv,
    st: LowerState,
    segment: PathSegment,
    def_generic: Option<GenericDefId>,
    infer_args: bool,
)
    requires
        env_consistent(env),
    ensures
        tys_bound(
            env,
            st,
            substs_from_path_segment_spec(env, st, segment, def_generic, infer_args),
            env.in_binders.depth as nat,
        ),
        substs_from_path_segment_spec(env, st, segment, def_generic, infer_args).0.len() == generics_len(
            env.db,
            def_generic,
        ),
    decreases segment, 1nat, 0nat,
{
    reveal(substs_from_path_segment_spec);
    reveal(lower_type_args_spec);
    let c = env.in_binders.depth as nat;
    let split = provenance_split_spec(env.db, def_generic);
    let total = generics_len(env.db, def_generic);
    match def_generic {
        Some(d) => {
            lemma_provenance_counts(generic_param_list(env.db, d), parent_params(env.db, d).len() as int);
        },
        None => {},
    }
    assert(split.0 + split.1 + split.2 + split.3 == total);
    let (written, st2, explicit) = match segment.args_and_bindings {
        Some(ga) => {
            let front = if ga.has_self_type {
                unknowns(split.0)
            } else {
                unknowns(split.0 + split.1)
            };
            let expected = if ga.has_self_type {
                split.1 + split.2
            } else {
                split.2
            };
            let skip: nat = if ga.has_self_type && split.1 == 0 {
                1
            } else {
                0
            };
            lemma_lower_type_args_bound(env, st, ga.args@, skip, expected);
            let (lowered, st2, _) = lower_type_args_spec(env, st, ga.args@, skip, expected);
            (front + lowered, st2, lowered.len() > 0)
        },
        None => (unknowns(split.0), st, false),
    };
    assert(closed_tys(written, c, seq![reach(env, st2)]));
    assert(written.len() <= total);
    let filled = if !infer_args || explicit {
        match def_generic {
            Some(def) => fill_defaults(env.db.spec_generic_defaults(def), written, total),
            None => written,
        }
    } else {
        written
    };
    if !infer_args || explicit {
        match def_generic {
            Some(def) => {
                lemma_defaults_consistent(env.db, def);
                lemma_fill_defaults_closed(
                    env.db.spec_generic_defaults(def),
                    written,
                    total,
                    c,
                    seq![reach(env, st2)],
                );
            },
            None => {},
        }
    }
    assert(filled.len() <= total);
    assert(closed_tys(pad_unknown(filled, total), c, seq![reach(env, st2)]));
}

proof fn lemma_trait_ref_resolved_bound(
    env: LowerEnv,
    st: LowerState,
    trait_: TraitId,
    segment: PathSegment,
    explicit_self_ty: Option<TyV>,
    level: nat,
)
    requires
        env_consistent(env),
        env.in_binders.depth <= level,
        explicit_self_ty matches Some(t) ==> closed_ty(t, level, seq![reach(env, st)]),
    ensures
        ({
            let r = lower_trait_ref_from_resolved_path_spec(env, st, trait_, segment, explicit_self_ty);
            state_grows(env, st, r.1) && closed_trait_ref(r.0, level, seq![reach(env, r.1)])
        }),
    decreases segment, 2nat, 0nat,
{
    reveal(lower_trait_ref_from_resolved_path_spec);
    reveal(substs_from_path_segment_spec);
    lemma_substs_bound(env, st, segment, Some(GenericDefId::TraitId(trait_)), false);
    let (substs, st2) = substs_from_path_segment_spec(
        env,
        st,
        segment,
        Some(GenericDefId::TraitId(trait_)),
        false,
    );
    lemma_closed_deeper_tys(substs, env.in_binders.depth as nat, level, seq![reach(env, st2)]);
    match explicit_self_ty {
        Some(t) => {
            lemma_later_ty(env, st, st2, t, level);
        },
        None => {},
    }
}

pub proof fn lemma_trait_ref_from_path_bound(
    env: LowerEnv,
    st: LowerState,
    path: Path,
    explicit_self_ty: Option<TyV>,
    level: nat,
)
    requires
        env_consistent(env),
        env.in_binders.depth <= level,
        explicit_self_ty matches Some(t) ==> closed_ty(t, level, seq![reach(env, st)]),
    ensures
        ({
            let r = lower_trait_ref_from_path_spec(env, st, path, explicit_self_ty);
            state_grows(env, st, r.1) && (r.0 matches Some(t) ==> closed_trait_ref(
                t,
                level,
                seq![reach(env, r.1)],
            ))
        }),
    decreases path, 0nat, 0nat,
{
    reveal(lower_trait_ref_from_path_spec);
    reveal(lower_trait_ref_from_resolved_path_spec);
    match env.resolver.spec_resolve_fully(path.segments@) {
        Some(TypeNs::TraitId(tr)) => if path.segments@.len() > 0 {
            lemma_trait_ref_resolved_bound(env, st, tr, path.segments@.last(), explicit_self_ty, level);
        },
        _ => {},
    }
}

/// What a bound on a bound type lowers to is bound where the pass stands.
pub proof fn lemma_lower_type_bound_bound(env: LowerEnv, st: LowerState, bound: TypeBound, self_ty: TyV)
    requires
        env_consistent(env),
        closed_ty(self_ty, env.in_binders.depth as nat, seq![reach(env, st)]),
    ensures
        preds_bound(env, st, lower_type_bound_spec(env, st, bound, self_ty), env.in_binders.depth as nat),
    decreases bound, 1nat, 0nat,
{
    reveal(lower_type_bound_spec);
    reveal(lower_trait_ref_from_path_spec);
    reveal(assoc_type_bindings_spec);
    let c = env.in_binders.depth as nat;
    match bound {
        TypeBound::Path(path) => {
            lemma_trait_ref_from_path_bound(env, st, path, Some(self_ty), c);
            let (tr, st2) = lower_trait_ref_from_path_spec(env, st, path, Some(self_ty));
            match tr {
                Some(t) => match bindings_of(path) {
                    Some(bindings) => {
                        lemma_assoc_bindings_bound(env, st2, bindings, t);
                        let (more, st3) = assoc_type_bindings_spec(env, st2, bindings, t);
                        lemma_later_tys(env, st2, st3, t.substs, c);
                    },
                    None => {},
                },
                None => {},
            }
        },
        TypeBound::Lifetime(_) => {},
        TypeBound::Error => {},
    }
}

proof fn lemma_lower_type_bounds_bound(env: LowerEnv, st: LowerState, bounds: Seq<TypeBound>, self_ty: TyV)
    requires
        env_consistent(env),
        closed_ty(self_ty, env.in_binders.depth as nat, seq![env.generics_len()]),
    ensures
        preds_bound(env, st, lower_type_bounds_spec(env, st, bounds, self_ty), env.in_binders.depth as nat),
    decreases bounds, 0nat, 0nat,
{
    reveal(lower_type_bounds_spec);
    reveal(lower_type_bound_spec);
    let c = env.in_binders.depth as nat;
    if bounds.len() > 0 {
        lemma_lower_type_bounds_bound(env, st, bounds.drop_last(), self_ty);
        let (front, st1) = lower_type_bounds_spec(env, st, bounds.drop_last(), self_ty);
        lemma_from_generics_ty(env, st1, self_ty, c);
        lemma_lower_type_bound_bound(env, st1, bounds.last(), self_ty);
        let (preds, st2) = lower_type_bound_spec(env, st1, bounds.last(), self_ty);
        lemma_later_preds(env, st1, st2, front, c);
    }
}

proof fn lemma_assoc_bindings_bound(
    env: LowerEnv,
    st: LowerState,
    bindings: Seq<AssociatedTypeBinding>,
    trait_ref: TraitRefV,
)
    requires
        env_consistent(env),
        closed_trait_ref(trait_ref, env.in_binders.depth as nat, seq![reach(env, st)]),
    ensures
        preds_bound(
            env,
            st,
            assoc_type_bindings_spec(env, st, bindings, trait_ref),
            env.in_binders.depth as nat,
        ),
    decreases bindings, 0nat, 0nat,
{
    reveal(assoc_type_bindings_spec);
    reveal(lower_ty_spec);
    reveal(lower_type_bounds_spec);
    let c = env.in_binders.depth as nat;
    if bindings.len() > 0 {
        lemma_assoc_bindings_bound(env, st, bindings.drop_last(), trait_ref);
        let (front, st1) = assoc_type_bindings_spec(env, st, bindings.drop_last(), trait_ref);
        let binding = bindings.last();
        lemma_later_tys(env, st, st1, trait_ref.substs, c);
        lemma_assoc_type_closed(env.db, trait_ref, binding.name, c, seq![reach(env, st1)]);
        match assoc_type_including_super_traits(env.db, trait_ref, binding.name) {
            None => {},
            Some((super_trait_ref, associated_ty)) => {
                let projection_ty = ProjectionTyV {
                    associated_ty_id: associated_ty,
                    substitution: super_trait_ref.substs,
                };
                let (eq, st2) = match binding.type_ref {
                    Some(t) => {
                        lemma_lower_ty_bound(env, st1, t);
                        let (ty, _, st2) = lower_ty_spec(env, st1, t);
                        (seq![PredV::Projection(projection_ty, ty)], st2)
                    },
                    None => (Seq::empty(), st1),
                };
                lemma_later_tys(env, st1, st2, super_trait_ref.substs, c);
                lemma_projection_bounds_bound(env, st2, binding.bounds@, projection_ty);
                let (bounds, st3) = lower_type_bounds_spec(
                    env,
                    st2,
                    binding.bounds@,
                    TyV::Projection(projection_ty),
                );
                lemma_later_preds(env, st1, st3, front, c);
                lemma_later_preds(env, st2, st3, eq, c);
            },
        }
    }
}

/// Bounds on a bound projection lower to bound predicates.
proof fn lemma_projection_bounds_bound(
    env: LowerEnv,
    st: LowerState,
    bounds: Seq<TypeBound>,
    projection_ty: ProjectionTyV,
)
    requires
        env_consistent(env),
        closed_tys(projection_ty.substitution, env.in_binders.depth as nat, seq![reach(env, st)]),
    ensures
        preds_bound(
            env,
            st,
            lower_type_bounds_spec(env, st, bounds, TyV::Projection(projection_ty)),
            env.in_binders.depth as nat,
        ),
    decreases bounds, 0nat, 1nat,
{
    reveal(lower_type_bounds_spec);
    reveal(lower_type_bound_spec);
    let c = env.in_binders.depth as nat;
    let self_ty = TyV::Projection(projection_ty);
    if bounds.len() > 0 {
        lemma_projection_bounds_bound(env, st, bounds.drop_last(), projection_ty);
        let (front, st1) = lower_type_bounds_spec(env, st, bounds.drop_last(), self_ty);
        lemma_later_tys(env, st, st1, projection_ty.substitution, c);
        lemma_lower_type_bound_bound(env, st1, bounds.last(), self_ty);
        let (preds, st2) = lower_type_bound_spec(env, st1, bounds.last(), self_ty);
        lemma_later_preds(env, st1, st2, front, c);
    }
}

/// The bounds of an `impl Trait` are bound one binder inside the place of
/// the pass.
pub proof fn lemma_lower_impl_trait_bound(env: LowerEnv, st: LowerState, bounds: Seq<TypeBound>)
    requires
        env_consistent(env),
    ensures
        ({
            let r = lower_impl_trait_spec(env, st, bounds);
            state_grows(env, st, r.1) && closed_preds(
                r.0.value,
                env.in_binders.depth as nat + 1,
                seq![reach(env, r.1)],
            )
        }),
    decreases bounds, 1nat, 0nat,
{
    reveal(lower_impl_trait_spec);
    reveal(lower_type_bounds_spec);
    match env.in_binders.spec_shifted_in_from(DebruijnIndex { depth: 1 }) {
        Some(d) => {
            lemma_reach_facts(env, st, d);
            lemma_lower_type_bounds_bound(env.with_binders(d), st, bounds, self_var());
            let (preds, st2) = lower_type_bounds_spec(env.with_binders(d), st, bounds, self_var());
            lemma_reach_facts(env, st2, d);
        },
        None => {},
    }
}

/// Opaque types are numbered in the order in which they are met. An
/// `impl Trait` in the return type of a function that is met after `n` others
/// becomes the opaque type number `n` of the function, its bounds stand at
/// position `n`, and what is met after it is numbered from `n + 1` on.
pub proof fn lemma_opaque_numbering(env: LowerEnv, st: LowerState, bounds: Vec<TypeBound>)
    requires
        env_consistent(env),
        env.impl_trait_mode is Opaque,
        env.resolver.generic_def matches Some(GenericDefId::FunctionId(_)),
        st.counter < u16::MAX,
        st.counter == st.opaque.len(),
    ensures
        ({
            let r = lower_ty_spec(env, st, TypeRef::ImplTrait(bounds));
            let bounds_of_it = lower_impl_trait_spec(
                env.with_binders(DebruijnIndex { depth: 0 }),
                LowerState {
                    counter: (st.counter + 1) as u16,
                    opaque: st.opaque.push(Binders { num_binders: 1, value: Seq::empty() }),
                },
                bounds@,
            ).0;
            &&& r.0 matches TyV::Opaque(id, _) && id.idx == st.counter && Some(GenericDefId::FunctionId(id.func))
                == env.resolver.generic_def
            &&& r.2.counter > st.counter
            &&& r.2.counter == r.2.opaque.len()
            &&& r.2.opaque[st.counter as int] == bounds_of_it
        }),
{
    reveal(lower_ty_spec);
    reveal(lower_impl_trait_spec);
    let zero = DebruijnIndex { depth: 0 };
    let reserved = LowerState {
        counter: (st.counter + 1) as u16,
        opaque: st.opaque.push(Binders { num_binders: 1, value: Seq::empty() }),
    };
    lemma_reach_facts(env, reserved, zero);
    lemma_lower_impl_trait_bound(env.with_binders(zero), reserved, bounds@);
}

} // verus!
