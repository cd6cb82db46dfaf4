//! Binder consistency of the answers of the queries: over a consistent
//! database, every value under binders that a query returns mentions, of the
//! variables of its binder, only those that the binder has.
use vstd::prelude::*;
use crate::binders::{
    binder_consistent_pred, binder_consistent_ty, closed_preds, closed_ty, closed_tys,
    lemma_truncate_closed, Binders,
};
use crate::consistency::{
    database_consistent, declared_len, env_consistent, lemma_bound_vars_closed, opaque_consistent,
    reach, scope_of,
};
use crate::db::{Database, Resolver};
use crate::generics::{generic_param_list, generics_len, GenericParam};
use crate::ids::{
    AdtId, FunctionId, GenericDefId, ImplId, StaticId, TyDefId, TypeAliasId, TypeParamId,
    ValueTyDefId, VariantId,
};
use crate::laws::{
    lemma_lower_ty_bound, lemma_lower_type_bound_bound, lemma_lower_tys_bound,
    lemma_trait_ref_from_path_bound, preds_bound,
};
use crate::semantics::{
    base_env, binders_of, callable_item_sig_spec, constructor_sig_spec, declared_impl_self_ty,
    declared_ty, field_type_refs, field_types_spec, fn_def_ty, fn_sig_for_fn_spec, fresh_state,
    generic_defaults_spec, generic_predicates_spec, has_callable_def, has_value_def,
    impl_self_ty_query_spec, impl_trait_query_spec, lower_bound_on_target_spec,
    lower_defaults_spec, lower_trait_ref_from_path_spec, lower_ty_spec, lower_type_param,
    lower_tys_spec, lower_where_predicate_spec, lower_where_predicates_spec, lowered_in_scope,
    param_default, resolver_of, return_type_impl_traits_spec, ty_query_spec, value_ty_query_spec,
    variant_generic_def, CallableSigV, ImplTraitLoweringMode, LowerEnv, LowerState,
    TypeParamLoweringMode,
};
use crate::ty::{CallableDefId, DebruijnIndex, TyV};
use crate::type_ref::{TypeRef, WherePredicate, WherePredicateTypeTarget};

verus! {

/// Whether a signature under binders mentions, of the variables of its
/// binder, only those that the binder has.
pub open spec fn binder_consistent_sig(b: Binders<CallableSigV>) -> bool {
    closed_tys(b.value.params_and_return, 0, seq![b.num_binders as nat])
}

/// A pass in the scope of a definition of a consistent database reads
/// consistently, and what it produces before it meets an `impl Trait` that
/// lowers to a variable is bound under the generic parameters in scope.
proof fn lemma_scope_env(
    db: Database,
    resolver: Resolver,
    def: Option<GenericDefId>,
    type_param_mode: TypeParamLoweringMode,
    impl_trait_mode: ImplTraitLoweringMode,
    st: LowerState,
)
    requires
        database_consistent(db),
        scope_of(db, resolver, def),
    ensures
        env_consistent(base_env(db, resolver, type_param_mode, impl_trait_mode)),
        base_env(db, resolver, type_param_mode, impl_trait_mode).generics_len() == generics_len(db, def),
        !(impl_trait_mode is Variable) ==> reach(
            base_env(db, resolver, type_param_mode, impl_trait_mode),
            st,
        ) == generics_len(db, def),
        impl_trait_mode is Variable && declared_len(base_env(db, resolver, type_param_mode, impl_trait_mode))
            + st.counter <= generics_len(db, def) ==> reach(
            base_env(db, resolver, type_param_mode, impl_trait_mode),
            st,
        ) == generics_len(db, def),
        opaque_consistent(base_env(db, resolver, type_param_mode, impl_trait_mode), fresh_state()),
{
    reveal(reach);
}

/// A type lowered in the scope of a definition is bound under the generic
/// parameters of the definition.
pub proof fn lemma_lowered_in_scope_consistent(db: Database, def: GenericDefId, type_ref: TypeRef)
    requires
        database_consistent(db),
        db.spec_item(def) is Some,
    ensures
        binder_consistent_ty(lowered_in_scope(db, def, type_ref)),
{
    let env = base_env(
        db,
        resolver_of(db, def),
        TypeParamLoweringMode::Variable,
        ImplTraitLoweringMode::Disallowed,
    );
    lemma_lower_ty_bound_in(db, resolver_of(db, def), Some(def), TypeParamLoweringMode::Variable, type_ref);
    assert(generic_param_list(db, def).len() <= usize::MAX);
}

/// A type lowered at the start of a pass that does not lower `impl Trait`
/// to variables is bound under the generic parameters in scope.
proof fn lemma_lower_ty_bound_in(
    db: Database,
    resolver: Resolver,
    def: Option<GenericDefId>,
    type_param_mode: TypeParamLoweringMode,
    type_ref: TypeRef,
)
    requires
        database_consistent(db),
        scope_of(db, resolver, def),
    ensures
        closed_ty(
            lower_ty_spec(
                base_env(db, resolver, type_param_mode, ImplTraitLoweringMode::Disallowed),
                fresh_state(),
                type_ref,
            ).0,
            0,
            seq![generics_len(db, def)],
        ),
{
    let env = base_env(db, resolver, type_param_mode, ImplTraitLoweringMode::Disallowed);
    let r = lower_ty_spec(env, fresh_state(), type_ref);
    lemma_scope_env(db, resolver, def, type_param_mode, ImplTraitLoweringMode::Disallowed, r.2);
    lemma_lower_ty_bound(env, fresh_state(), type_ref);
}

/// The declared type of a definition in the type namespace is
/// binder-consistent.
pub proof fn lemma_ty_query_consistent(db: Database, def: TyDefId)
    requires
        database_consistent(db),
        def matches TyDefId::TypeAliasId(t) ==> db.spec_type_alias_data(t) is Some,
    ensures
        binder_consistent_ty(ty_query_spec(db, def)),
{
    match def {
        TyDefId::BuiltinType(_) => {},
        TyDefId::AdtId(adt) => {
            lemma_adt_ty_consistent(db, adt);
        },
        TyDefId::TypeAliasId(t) => {
            let data = db.spec_type_alias_data(t).unwrap();
            assert(db.spec_item(GenericDefId::TypeAliasId(t)) is Some);
            if !data.is_extern {
                lemma_lowered_in_scope_consistent(
                    db,
                    GenericDefId::TypeAliasId(t),
                    match data.type_ref {
                        Some(r) => r,
                        None => TypeRef::Error,
                    },
                );
            }
        },
    }
}

/// The declared type of a data type is binder-consistent.
pub proof fn lemma_adt_ty_consistent(db: Database, adt: AdtId)
    requires
        database_consistent(db),
    ensures
        binder_consistent_ty(declared_ty(db, TyDefId::AdtId(adt))),
{
    let n = generic_param_list(db, GenericDefId::AdtId(adt)).len();
    assert(n <= usize::MAX);
    lemma_bound_vars_closed(n, DebruijnIndex { depth: 0 }, n);
}

/// The type of a callable item as a value is binder-consistent.
pub proof fn lemma_fn_def_ty_consistent(db: Database, callable: CallableDefId, def: GenericDefId)
    requires
        database_consistent(db),
    ensures
        binder_consistent_ty(fn_def_ty(db, callable, def)),
{
    let n = generic_param_list(db, def).len();
    assert(n <= usize::MAX);
    lemma_bound_vars_closed(n, DebruijnIndex { depth: 0 }, n);
}

/// The declared type of a definition in the value namespace is
/// binder-consistent.
pub proof fn lemma_value_ty_query_consistent(db: Database, def: ValueTyDefId)
    requires
        database_consistent(db),
        has_value_def(db, def),
    ensures
        binder_consistent_ty(value_ty_query_spec(db, def)),
{
    match def {
        ValueTyDefId::FunctionId(f) => {
            lemma_fn_def_ty_consistent(db, CallableDefId::FunctionId(f), GenericDefId::FunctionId(f));
        },
        ValueTyDefId::StructId(s) => {
            lemma_adt_ty_consistent(db, AdtId::StructId(s));
            lemma_fn_def_ty_consistent(
                db,
                CallableDefId::StructId(s),
                GenericDefId::AdtId(AdtId::StructId(s)),
            );
        },
        ValueTyDefId::UnionId(u) => {
            lemma_adt_ty_consistent(db, AdtId::UnionId(u));
        },
        ValueTyDefId::EnumVariantId(e) => {
            lemma_adt_ty_consistent(db, AdtId::EnumId(e.parent));
            lemma_fn_def_ty_consistent(
                db,
                CallableDefId::EnumVariantId(e),
                GenericDefId::AdtId(AdtId::EnumId(e.parent)),
            );
        },
        ValueTyDefId::ConstId(c) => {
            assert(db.spec_item(GenericDefId::ConstId(c)) is Some);
            lemma_lowered_in_scope_consistent(
                db,
                GenericDefId::ConstId(c),
                db.spec_const_data(c).unwrap().type_ref,
            );
        },
        ValueTyDefId::StaticId(s) => {
            let data = db.spec_static_data(s).unwrap();
            lemma_lower_ty_bound_in(db, data.resolver, None, TypeParamLoweringMode::Placeholder, data.type_ref);
        },
    }
}

/// The self type of an impl is binder-consistent.
pub proof fn lemma_impl_self_ty_query_consistent(db: Database, impl_id: ImplId)
    requires
        database_consistent(db),
        db.spec_impl_data(impl_id) is Some,
    ensures
        binder_consistent_ty(impl_self_ty_query_spec(db, impl_id)),
{
    assert(db.spec_item(GenericDefId::ImplId(impl_id)) is Some);
    lemma_lowered_in_scope_consistent(
        db,
        GenericDefId::ImplId(impl_id),
        db.spec_impl_data(impl_id).unwrap().target_type,
    );
}

/// The lowered types of the fields of a struct, union or variant are bound
/// under the generic parameters of the data type.
pub proof fn lemma_field_types_consistent(db: Database, id: VariantId)
    requires
        database_consistent(db),
        db.spec_variant_data(id) is Some,
    ensures
        closed_tys(field_types_spec(db, id), 0, seq![binders_of(db, variant_generic_def(id)) as nat]),
{
    let def = variant_generic_def(id);
    assert(db.spec_item(def) is Some);
    let env = base_env(
        db,
        resolver_of(db, def),
        TypeParamLoweringMode::Variable,
        ImplTraitLoweringMode::Disallowed,
    );
    let refs = field_type_refs(db.spec_variant_data(id).unwrap().fields@);
    let r = lower_tys_spec(env, fresh_state(), refs);
    lemma_scope_env(
        db,
        resolver_of(db, def),
        Some(def),
        TypeParamLoweringMode::Variable,
        ImplTraitLoweringMode::Disallowed,
        r.1,
    );
    lemma_lower_tys_bound(env, fresh_state(), refs);
    assert(generic_param_list(db, def).len() <= usize::MAX);
}

/// The signature of the constructor of a tuple struct or tuple variant is
/// binder-consistent.
pub proof fn lemma_constructor_sig_consistent(db: Database, id: VariantId, adt: AdtId)
    requires
        database_consistent(db),
        db.spec_variant_data(id) is Some,
        variant_generic_def(id) == GenericDefId::AdtId(adt),
    ensures
        binder_consistent_sig(constructor_sig_spec(db, id, adt)),
{
    lemma_field_types_consistent(db, id);
    lemma_adt_ty_consistent(db, adt);
}

/// Whether the function `def` has a generic parameter for every
/// `impl Trait` that its parameter types count.
pub open spec fn impl_trait_params_suffice(db: Database, def: FunctionId) -> bool
    recommends
        db.spec_function_data(def) is Some,
{
    let data = db.spec_function_data(def).unwrap();
    let env = base_env(
        db,
        data.item.resolver,
        TypeParamLoweringMode::Variable,
        ImplTraitLoweringMode::Variable,
    );
    declared_len(env) + lower_tys_spec(env, fresh_state(), data.params@).1.counter <= generics_len(
        db,
        Some(GenericDefId::FunctionId(def)),
    )
}

/// The signature of a function is binder-consistent where the function has
/// a generic parameter for every `impl Trait` that its parameter types
/// count.
pub proof fn lemma_fn_sig_consistent(db: Database, def: FunctionId)
    requires
        database_consistent(db),
        db.spec_function_data(def) is Some,
        impl_trait_params_suffice(db, def),
    ensures
        binder_consistent_sig(fn_sig_for_fn_spec(db, def)),
{
    let data = db.spec_function_data(def).unwrap();
    let gdef = GenericDefId::FunctionId(def);
    assert(db.spec_item(gdef) is Some);
    assert(generic_param_list(db, gdef).len() <= usize::MAX);
    let env_params = base_env(
        db,
        data.item.resolver,
        TypeParamLoweringMode::Variable,
        ImplTraitLoweringMode::Variable,
    );
    let params = lower_tys_spec(env_params, fresh_state(), data.params@);
    lemma_scope_env(
        db,
        data.item.resolver,
        Some(gdef),
        TypeParamLoweringMode::Variable,
        ImplTraitLoweringMode::Variable,
        params.1,
    );
    lemma_lower_tys_bound(env_params, fresh_state(), data.params@);
    let env_ret = base_env(
        db,
        data.item.resolver,
        TypeParamLoweringMode::Variable,
        ImplTraitLoweringMode::Opaque,
    );
    let ret = lower_ty_spec(env_ret, fresh_state(), data.ret_type);
    lemma_scope_env(
        db,
        data.item.resolver,
        Some(gdef),
        TypeParamLoweringMode::Variable,
        ImplTraitLoweringMode::Opaque,
        ret.2,
    );
    lemma_lower_ty_bound(env_ret, fresh_state(), data.ret_type);
}

/// The signature of a callable item is binder-consistent.
pub proof fn lemma_callable_item_sig_consistent(db: Database, def: CallableDefId)
    requires
        database_consistent(db),
        has_callable_def(db, def),
        def matches CallableDefId::FunctionId(f) ==> impl_trait_params_suffice(db, f),
    ensures
        binder_consistent_sig(callable_item_sig_spec(db, def)),
{
    match def {
        CallableDefId::FunctionId(f) => lemma_fn_sig_consistent(db, f),
        CallableDefId::StructId(s) => lemma_constructor_sig_consistent(
            db,
            VariantId::StructId(s),
            AdtId::StructId(s),
        ),
        CallableDefId::EnumVariantId(e) => lemma_constructor_sig_consistent(
            db,
            VariantId::EnumVariantId(e),
            AdtId::EnumId(e.parent),
        ),
    }
}

/// The bounds of the opaque types of a function's return type are bound one
/// binder inside the function's generic parameters.
pub proof fn lemma_return_type_impl_traits_consistent(db: Database, def: FunctionId)
    requires
        database_consistent(db),
        db.spec_function_data(def) is Some,
    ensures
        forall|j: int|
            0 <= j < return_type_impl_traits_spec(db, def).len() ==> closed_preds(
                (#[trigger] return_type_impl_traits_spec(db, def)[j]).value,
                1,
                seq![binders_of(db, GenericDefId::FunctionId(def)) as nat],
            ),
{
    let data = db.spec_function_data(def).unwrap();
    let gdef = GenericDefId::FunctionId(def);
    assert(db.spec_item(gdef) is Some);
    assert(generic_param_list(db, gdef).len() <= usize::MAX);
    let env_ret = base_env(
        db,
        data.item.resolver,
        TypeParamLoweringMode::Variable,
        ImplTraitLoweringMode::Opaque,
    );
    let ret = lower_ty_spec(env_ret, fresh_state(), data.ret_type);
    lemma_scope_env(
        db,
        data.item.resolver,
        Some(gdef),
        TypeParamLoweringMode::Variable,
        ImplTraitLoweringMode::Opaque,
        ret.2,
    );
    lemma_lower_ty_bound(env_ret, fresh_state(), data.ret_type);
}

/// The trait of an impl is bound under the generic parameters of the impl.
pub proof fn lemma_impl_trait_query_consistent(db: Database, impl_id: ImplId)
    requires
        database_consistent(db),
        db.spec_impl_data(impl_id) is Some,
        closed_ty(
            declared_impl_self_ty(db, impl_id).value,
            0,
            seq![generic_param_list(db, GenericDefId::ImplId(impl_id)).len()],
        ),
    ensures
        impl_trait_query_spec(db, impl_id) matches Some(b) ==> closed_tys(
            b.value.substs,
            0,
            seq![generic_param_list(db, GenericDefId::ImplId(impl_id)).len()],
        ),
{
    let data = db.spec_impl_data(impl_id).unwrap();
    let gdef = GenericDefId::ImplId(impl_id);
    assert(db.spec_item(gdef) is Some);
    let env = base_env(
        db,
        data.item.resolver,
        TypeParamLoweringMode::Variable,
        ImplTraitLoweringMode::Disallowed,
    );
    let self_ty = declared_impl_self_ty(db, impl_id);
    match data.target_trait {
        Some(TypeRef::Path(path)) => {
            let r = lower_trait_ref_from_path_spec(env, fresh_state(), path, Some(self_ty.value));
            lemma_scope_env(
                db,
                data.item.resolver,
                Some(gdef),
                TypeParamLoweringMode::Variable,
                ImplTraitLoweringMode::Disallowed,
                fresh_state(),
            );
            lemma_scope_env(
                db,
                data.item.resolver,
                Some(gdef),
                TypeParamLoweringMode::Variable,
                ImplTraitLoweringMode::Disallowed,
                r.1,
            );
            lemma_trait_ref_from_path_bound(env, fresh_state(), path, Some(self_ty.value), 0);
        },
        _ => {},
    }
}

/// What a `where` predicate lowers to at the start of a pass is bound under
/// the generic parameters in scope.
proof fn lemma_where_predicate_bound(env: LowerEnv, st: LowerState, pred: WherePredicate)
    requires
        env_consistent(env),
        env.in_binders.depth == 0,
    ensures
        preds_bound(env, st, lower_where_predicate_spec(env, st, pred), 0),
{
    match pred {
        WherePredicate::TypeBound { target, bound } => lemma_bound_on_target_bound(env, st, target, bound),
        WherePredicate::ForLifetime { lifetimes: _, target, bound } => lemma_bound_on_target_bound(
            env,
            st,
            target,
            bound,
        ),
        WherePredicate::Lifetime { target: _, bound: _ } => {},
    }
}

proof fn lemma_bound_on_target_bound(
    env: LowerEnv,
    st: LowerState,
    target: WherePredicateTypeTarget,
    bound: crate::type_ref::TypeBound,
)
    requires
        env_consistent(env),
        env.in_binders.depth == 0,
    ensures
        preds_bound(env, st, lower_bound_on_target_spec(env, st, target, bound), 0),
{
    reveal(reach);
    match target {
        WherePredicateTypeTarget::TypeRef(t) => {
            lemma_lower_ty_bound(env, st, t);
            let (ty, _, st2) = lower_ty_spec(env, st, t);
            lemma_lower_type_bound_bound(env, st2, bound, ty);
        },
        WherePredicateTypeTarget::TypeParam(local_id) => match env.resolver.generic_def {
            Some(def) => {
                let p = TypeParamId { parent: def, local_id };
                crate::consistency::lemma_lower_type_param_closed(env, p, DebruijnIndex { depth: 0 });
                let ty = lower_type_param(env, p, DebruijnIndex { depth: 0 });
                crate::binders::lemma_closed_weaken(ty, 0, seq![env.generics_len()], seq![reach(env, st)]);
                lemma_lower_type_bound_bound(env, st, bound, ty);
            },
            None => {
                lemma_lower_type_bound_bound(env, st, bound, TyV::Unknown);
            },
        },
    }
}

/// What the `where` predicates in scope lower to at the start of a pass is
/// bound under the generic parameters in scope.
proof fn lemma_where_predicates_bound(
    env: LowerEnv,
    st: LowerState,
    preds: Seq<WherePredicate>,
    only: Option<TypeParamId>,
)
    requires
        env_consistent(env),
        env.in_binders.depth == 0,
    ensures
        preds_bound(env, st, lower_where_predicates_spec(env, st, preds, only), 0),
    decreases preds.len(),
{
    if preds.len() > 0 {
        lemma_where_predicates_bound(env, st, preds.drop_last(), only);
        let (front, st1) = lower_where_predicates_spec(env, st, preds.drop_last(), only);
        let wanted = match only {
            Some(p) => crate::semantics::predicate_is_on(env.resolver, preds.last(), p),
            None => true,
        };
        if wanted {
            lemma_where_predicate_bound(env, st1, preds.last());
            let (lowered, st2) = lower_where_predicate_spec(env, st1, preds.last());
            reveal(reach);
            crate::binders::lemma_closed_weaken_preds(front, 0, seq![reach(env, st1)], seq![reach(env, st2)]);
        }
    }
}

/// The predicates of a definition, and those on one of its parameters, are
/// binder-consistent.
pub proof fn lemma_generic_predicates_consistent(db: Database, def: GenericDefId, only: Option<TypeParamId>)
    requires
        database_consistent(db),
        db.spec_item(def) is Some,
    ensures
        forall|k: int|
            0 <= k < generic_predicates_spec(db, def, only).len() ==> binder_consistent_pred(
                #[trigger] generic_predicates_spec(db, def, only)[k],
            ),
        forall|k: int|
            0 <= k < generic_predicates_spec(db, def, only).len() ==> (#[trigger] generic_predicates_spec(
                db,
                def,
                only,
            )[k]).num_binders == generic_param_list(db, def).len(),
{
    let resolver = resolver_of(db, def);
    let env = base_env(db, resolver, TypeParamLoweringMode::Variable, ImplTraitLoweringMode::Disallowed);
    let r = lower_where_predicates_spec(env, fresh_state(), resolver.where_predicates@, only);
    lemma_scope_env(
        db,
        resolver,
        Some(def),
        TypeParamLoweringMode::Variable,
        ImplTraitLoweringMode::Disallowed,
        r.1,
    );
    lemma_where_predicates_bound(env, fresh_state(), resolver.where_predicates@, only);
    assert(generic_param_list(db, def).len() <= usize::MAX);
}

/// The lowered default of the parameter at position `i` stands under `i`
/// binders and mentions only parameters before it: a default that names a
/// parameter at its own position or later has `Unknown` in that place.
pub proof fn lemma_defaults_in_order(env: LowerEnv, st: LowerState, params: Seq<GenericParam>)
    requires
        env_consistent(env),
        env.in_binders.depth == 0,
        !(env.impl_trait_mode is Variable),
        params.len() <= usize::MAX,
    ensures
        lower_defaults_spec(env, st, params).0.len() == params.len(),
        forall|i: int|
            0 <= i < params.len() ==> (#[trigger] lower_defaults_spec(env, st, params).0[i]).num_binders == i
                && binder_consistent_ty(lower_defaults_spec(env, st, params).0[i]),
    decreases params.len(),
{
    if params.len() > 0 {
        lemma_defaults_in_order(env, st, params.drop_last());
        let (front, st1) = lower_defaults_spec(env, st, params.drop_last());
        let idx = (params.len() - 1) as nat;
        match param_default(env.db, params.last()) {
            Some(t) => {
                lemma_lower_ty_bound(env, st1, t);
                let (ty, _, st2) = lower_ty_spec(env, st1, t);
                lemma_truncate_closed(ty, idx, 0, reach(env, st2));
            },
            None => {},
        }
    }
}

/// The lowered defaults of the generic parameters of a definition are
/// binder-consistent, each under as many binders as parameters come before
/// it.
pub proof fn lemma_generic_defaults_consistent(db: Database, def: GenericDefId)
    requires
        database_consistent(db),
        db.spec_item(def) is Some,
    ensures
        generic_defaults_spec(db, def).len() == generic_param_list(db, def).len(),
        forall|i: int|
            0 <= i < generic_defaults_spec(db, def).len() ==> (#[trigger] generic_defaults_spec(
                db,
                def,
            )[i]).num_binders == i && binder_consistent_ty(generic_defaults_spec(db, def)[i]),
{
    let resolver = resolver_of(db, def);
    let env = base_env(db, resolver, TypeParamLoweringMode::Variable, ImplTraitLoweringMode::Disallowed);
    lemma_scope_env(
        db,
        resolver,
        Some(def),
        TypeParamLoweringMode::Variable,
        ImplTraitLoweringMode::Disallowed,
        fresh_state(),
    );
    assert(generic_param_list(db, def).len() <= usize::MAX);
    lemma_defaults_in_order(env, fresh_state(), generic_param_list(db, def));
}

} // verus!
