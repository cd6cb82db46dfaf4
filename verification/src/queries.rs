//! The declared types and signatures of items, and the predicates of generic
//! definitions. Each function here is one query: it reads the item from the
//! database, opens one pass of lowering in the item's scope, and builds its
//! answer from what the pass returns.
use vstd::prelude::*;
use crate::binders::{
    binder_consistent_pred, binder_consistent_ty, bound_preds_view, bound_tys_view, closed_preds,
    closed_ty, closed_tys, map_bound_vars, Binders, BoundVarOp,
};
use crate::consistency::database_consistent;
use crate::db::{Database, FunctionData, ItemData, Resolver, StructKind, VariantData};
use crate::generics::{generic_param_list, generics, GenericParam};
use crate::ids::{
    AdtId, AssocContainerId, ConstId, ConstParamId, CrateId, EnumVariantId, FunctionId,
    GenericDefId, ImplId, StaticId, StructId, TraitId, TyDefId, TypeAliasId, TypeParamId,
    ValueTyDefId, VariantId,
};
use crate::lower::{type_for_adt, TyLoweringContext};
use crate::query_laws::{
    binder_consistent_sig, impl_trait_params_suffice, lemma_callable_item_sig_consistent,
    lemma_constructor_sig_consistent, lemma_fn_def_ty_consistent, lemma_fn_sig_consistent,
    lemma_generic_defaults_consistent, lemma_generic_predicates_consistent,
    lemma_impl_self_ty_query_consistent, lemma_impl_trait_query_consistent,
    lemma_lowered_in_scope_consistent, lemma_return_type_impl_traits_consistent,
    lemma_ty_query_consistent, lemma_value_ty_query_consistent,
};
use crate::semantics::{
    args_segment, base_env, binders_of, callable_item_sig_spec, const_param_ty_query_spec,
    constructor_sig_spec, constructor_ty_spec, declared_impl_self_ty, field_type_refs,
    field_types_spec, fn_def_ty, fn_sig_for_fn_spec, fresh_state, generic_defaults_spec,
    generic_predicates_spec, has_callable_def, has_const_param, has_value_def,
    impl_self_ty_query_spec, impl_trait_query_spec, impl_traits_view, implementing_types,
    lower_defaults_spec, lower_ty_spec, lower_tys_spec, lower_where_predicates_spec,
    lowered_in_scope, only_param_spec, param_default, predicate_is_on,
    return_type_impl_traits_spec, substs_from_path_segment_spec, target_is, trait_environment_spec,
    ty_query_spec, type_for_static_spec, type_for_type_alias_spec, under_binders,
    value_generic_def, value_ty_query_spec, variant_generic_def, without_errors, CallableSigV,
    ImplTraitLoweringMode, ReturnTypeImplTraits, TraitEnvironmentV, TypeParamLoweringMode,
};
use crate::ty::{
    preds_view, tys_view, CallableDefId, DebruijnIndex, GenericPredicate, Substs, TraitRef, Ty,
    TyV,
};
use crate::type_ref::{Path, TypeRef, WherePredicate, WherePredicateTypeTarget};

verus! {

/// A call signature: the parameter types followed by the return type.
#[derive(Debug, PartialEq, Eq, Hash)]
pub struct CallableSig {
    pub params_and_return: Vec<Ty>,
    pub is_varargs: bool,
}

impl View for CallableSig {
    type V = CallableSigV;

    open spec fn view(&self) -> CallableSigV {
        CallableSigV { params_and_return: tys_view(self.params_and_return@), is_varargs: self.is_varargs }
    }
}

impl CallableSig {
    pub fn from_params_and_return(params: Vec<Ty>, ret: Ty, is_varargs: bool) -> (r: CallableSig)
        ensures
            r@ == (CallableSigV { params_and_return: tys_view(params@).push(ret@), is_varargs }),
    {
        let mut params = params;
        let ghost before = tys_view(params@);
        params.push(ret);
        assert(tys_view(params@) =~= before.push(ret@));
        CallableSig { params_and_return: params, is_varargs }
    }
}

/// What a definition may assume of its generic parameters: the types that
/// are known to implement a trait, and the predicates that hold.
#[derive(Debug, PartialEq, Eq, Hash)]
pub struct TraitEnvironment {
    pub traits_from_clauses: Vec<(Ty, TraitId)>,
    pub env: Vec<GenericPredicate>,
}

pub open spec fn type_trait_pairs_view(s: Seq<(Ty, TraitId)>) -> Seq<(TyV, TraitId)> {
    Seq::new(s.len(), |i: int| (s[i].0@, s[i].1))
}

impl View for TraitEnvironment {
    type V = TraitEnvironmentV;

    open spec fn view(&self) -> TraitEnvironmentV {
        TraitEnvironmentV {
            traits_from_clauses: type_trait_pairs_view(self.traits_from_clauses@),
            env: preds_view(self.env@),
        }
    }
}

impl Database {
    /// The data of a function that the database holds.
    pub fn function(&self, id: FunctionId) -> (r: &FunctionData)
        requires
            self.spec_function_data(id) is Some,
        ensures
            Some(*r) == self.spec_function_data(id),
    {
        &self.functions[id.0 as usize]
    }

    /// What a definition that the database holds has as a generic item.
    pub fn item_of(&self, def: GenericDefId) -> (r: &ItemData)
        requires
            self.spec_item(def) is Some,
        ensures
            Some(*r) == self.spec_item(def),
    {
        match def {
            GenericDefId::FunctionId(id) => &self.functions[id.0 as usize].item,
            GenericDefId::AdtId(AdtId::StructId(id)) => &self.structs[id.0 as usize].item,
            GenericDefId::AdtId(AdtId::UnionId(id)) => &self.unions[id.0 as usize].item,
            GenericDefId::AdtId(AdtId::EnumId(id)) => &self.enums[id.0 as usize].item,
            GenericDefId::TraitId(id) => &self.traits[id.0 as usize].item,
            GenericDefId::TypeAliasId(id) => &self.type_aliases[id.0 as usize].item,
            GenericDefId::ImplId(id) => &self.impls[id.0 as usize].item,
            GenericDefId::EnumVariantId(_) => vstd::pervasive::unreached(),
            GenericDefId::ConstId(id) => &self.consts[id.0 as usize].item,
        }
    }

    /// The fields of a struct, union or variant that the database holds.
    pub fn variant(&self, id: VariantId) -> (r: &VariantData)
        requires
            self.spec_variant_data(id) is Some,
        ensures
            Some(*r) == self.spec_variant_data(id),
    {
        match id {
            VariantId::StructId(s) => &self.structs[s.0 as usize].variant_data,
            VariantId::UnionId(u) => &self.unions[u.0 as usize].variant_data,
            VariantId::EnumVariantId(v) => &self.enums[v.parent.0 as usize].variants[v.local_id as usize],
        }
    }
}

/// A pass in the scope `resolver` that starts at the binder of the generic
/// parameters.
fn new_context<'a>(
    db: &'a Database,
    resolver: &'a Resolver,
    type_param_mode: TypeParamLoweringMode,
    impl_trait_mode: ImplTraitLoweringMode,
) -> (ctx: TyLoweringContext<'a>)
    ensures
        ctx.env() == base_env(*db, *resolver, type_param_mode, impl_trait_mode),
        ctx.state() == fresh_state(),
{
    TyLoweringContext::new(db, resolver).with_impl_trait_mode(impl_trait_mode).with_type_param_mode(
        type_param_mode,
    )
}

/// Builds the signature of a callable item: a function, a tuple struct or a
/// tuple variant.
pub fn callable_item_sig(db: &Database, def: CallableDefId) -> (r: Binders<CallableSig>)
    requires
        has_callable_def(*db, def),
    ensures
        r@ == callable_item_sig_spec(*db, def),
        database_consistent(*db) && (def matches CallableDefId::FunctionId(f) ==> impl_trait_params_suffice(
            *db,
            f,
        )) ==> binder_consistent_sig(r@),
{
    proof {
        if database_consistent(*db) && (def matches CallableDefId::FunctionId(f)
            ==> impl_trait_params_suffice(*db, f)) {
            lemma_callable_item_sig_consistent(*db, def);
        }
    }
    match def {
        CallableDefId::FunctionId(f) => fn_sig_for_fn(db, f),
        CallableDefId::StructId(s) => fn_sig_for_struct_constructor(db, s),
        CallableDefId::EnumVariantId(e) => fn_sig_for_enum_variant_constructor(db, e),
    }
}

/// The signature of a function.
pub fn fn_sig_for_fn(db: &Database, def: FunctionId) -> (r: Binders<CallableSig>)
    requires
        db.spec_function_data(def) is Some,
    ensures
        r@ == fn_sig_for_fn_spec(*db, def),
        database_consistent(*db) && impl_trait_params_suffice(*db, def) ==> binder_consistent_sig(r@),
{
    proof {
        if database_consistent(*db) && impl_trait_params_suffice(*db, def) {
            lemma_fn_sig_consistent(*db, def);
        }
    }
    let data = db.function(def);
    let mut ctx_params = new_context(
        db,
        &data.item.resolver,
        TypeParamLoweringMode::Variable,
        ImplTraitLoweringMode::Variable,
    );
    let params = ctx_params.lower_tys(&data.params);
    let mut ctx_ret = new_context(
        db,
        &data.item.resolver,
        TypeParamLoweringMode::Variable,
        ImplTraitLoweringMode::Opaque,
    );
    let ret = ctx_ret.lower_ty(&data.ret_type);
    let generics = generics(db, GenericDefId::FunctionId(def));
    let num_binders = generics.len();
    Binders::new(num_binders, CallableSig::from_params_and_return(params, ret, data.is_varargs))
}

/// The opaque types of a function's return type, under the function's
/// generic parameters; `None` where the return type has none.
pub fn return_type_impl_traits(db: &Database, def: FunctionId) -> (r: Option<Binders<ReturnTypeImplTraits>>)
    requires
        db.spec_function_data(def) is Some,
    ensures
        match r {
            Some(b) => b.num_binders == binders_of(*db, GenericDefId::FunctionId(def)) && impl_traits_view(
                b.value.impl_traits@,
            ) == return_type_impl_traits_spec(*db, def) && return_type_impl_traits_spec(*db, def).len() > 0,
            None => return_type_impl_traits_spec(*db, def).len() == 0,
        },
        database_consistent(*db) ==> forall|j: int|
            0 <= j < return_type_impl_traits_spec(*db, def).len() ==> closed_preds(
                (#[trigger] return_type_impl_traits_spec(*db, def)[j]).value,
                1,
                seq![binders_of(*db, GenericDefId::FunctionId(def)) as nat],
            ),
{
    proof {
        if database_consistent(*db) {
            lemma_return_type_impl_traits_consistent(*db, def);
        }
    }
    let data = db.function(def);
    let mut ctx_ret = new_context(
        db,
        &data.item.resolver,
        TypeParamLoweringMode::Variable,
        ImplTraitLoweringMode::Opaque,
    );
    let _ret = ctx_ret.lower_ty(&data.ret_type);
    let generics = generics(db, GenericDefId::FunctionId(def));
    let num_binders = generics.len();
    let return_type_impl_traits = ReturnTypeImplTraits { impl_traits: ctx_ret.opaque_type_data };
    if return_type_impl_traits.impl_traits.len() == 0 {
        None
    } else {
        Some(Binders::new(num_binders, return_type_impl_traits))
    }
}

/// The declared type of a function: the function applied to its own generic
/// parameters.
pub fn type_for_fn(db: &Database, def: FunctionId) -> (r: Binders<Ty>)
    ensures
        r@ == fn_def_ty(*db, CallableDefId::FunctionId(def), GenericDefId::FunctionId(def)),
        database_consistent(*db) ==> binder_consistent_ty(r@),
{
    proof {
        if database_consistent(*db) {
            lemma_fn_def_ty_consistent(*db, CallableDefId::FunctionId(def), GenericDefId::FunctionId(def));
        }
    }
    let generics = generics(db, GenericDefId::FunctionId(def));
    let substs = Substs::bound_vars(&generics, DebruijnIndex::innermost());
    Binders::new(substs.len(), Ty::FunctionDef(CallableDefId::FunctionId(def), substs))
}

/// `type_ref` lowered in the scope of `def`.
fn lower_in_scope(db: &Database, def: GenericDefId, type_ref: &TypeRef) -> (r: Binders<Ty>)
    requires
        db.spec_item(def) is Some,
    ensures
        r@ == lowered_in_scope(*db, def, *type_ref),
        database_consistent(*db) ==> binder_consistent_ty(r@),
{
    proof {
        if database_consistent(*db) {
            lemma_lowered_in_scope_consistent(*db, def, *type_ref);
        }
    }
    let generics = generics(db, def);
    let mut ctx = new_context(
        db,
        &db.item_of(def).resolver,
        TypeParamLoweringMode::Variable,
        ImplTraitLoweringMode::Disallowed,
    );
    Binders::new(generics.len(), ctx.lower_ty(type_ref))
}

/// The declared type of a const.
pub fn type_for_const(db: &Database, def: ConstId) -> (r: Binders<Ty>)
    requires
        db.spec_const_data(def) is Some,
    ensures
        r@ == value_ty_query_spec(*db, ValueTyDefId::ConstId(def)),
        database_consistent(*db) ==> binder_consistent_ty(r@),
{
    proof {
        if database_consistent(*db) {
            lemma_value_ty_query_consistent(*db, ValueTyDefId::ConstId(def));
        }
    }
    match db.const_data(def) {
        Some(data) => lower_in_scope(db, GenericDefId::ConstId(def), &data.type_ref),
        None => Binders::new(0, Ty::Unknown),
    }
}

/// The declared type of a static.
pub fn type_for_static(db: &Database, def: StaticId) -> (r: Binders<Ty>)
    requires
        db.spec_static_data(def) is Some,
    ensures
        r@ == type_for_static_spec(*db, def),
        database_consistent(*db) ==> binder_consistent_ty(r@),
{
    proof {
        if database_consistent(*db) {
            lemma_value_ty_query_consistent(*db, ValueTyDefId::StaticId(def));
        }
    }
    match db.static_data(def) {
        Some(data) => {
            let mut ctx = TyLoweringContext::new(db, &data.resolver);
            Binders::new(0, ctx.lower_ty(&data.type_ref))
        },
        None => Binders::new(0, Ty::Unknown),
    }
}

/// The lowered types of the fields of `id`, in the order of declaration.
fn lower_field_types(db: &Database, id: VariantId) -> (r: Vec<Ty>)
    requires
        db.spec_variant_data(id) is Some,
        db.spec_item(variant_generic_def(id)) is Some,
    ensures
        tys_view(r@) == field_types_spec(*db, id),
        r.len() == db.spec_variant_data(id).unwrap().fields@.len(),
{
    reveal(lower_tys_spec);
    reveal(lower_ty_spec);
    let def = match id {
        VariantId::StructId(s) => GenericDefId::AdtId(AdtId::StructId(s)),
        VariantId::UnionId(u) => GenericDefId::AdtId(AdtId::UnionId(u)),
        VariantId::EnumVariantId(v) => GenericDefId::AdtId(AdtId::EnumId(v.parent)),
    };
    let fields = &db.variant(id).fields;
    let mut ctx = new_context(
        db,
        &db.item_of(def).resolver,
        TypeParamLoweringMode::Variable,
        ImplTraitLoweringMode::Disallowed,
    );
    let ghost env = ctx.env();
    let ghost refs = field_type_refs(fields@);
    let mut r: Vec<Ty> = Vec::new();
    let mut i: usize = 0;
    assert(refs.take(0) =~= Seq::empty());
    assert(tys_view(r@) =~= Seq::empty());
    while i < fields.len()
        invariant
            i <= fields.len(),
            r.len() == i,
            refs == field_type_refs(fields@),
            ctx.env() == env,
            (tys_view(r@), ctx.state()) == lower_tys_spec(env, fresh_state(), refs.take(i as int)),
        decreases fields.len() - i,
    {
        reveal(lower_tys_spec);
        reveal(lower_ty_spec);
        proof {
            assert(refs.take(i + 1).drop_last() == refs.take(i as int));
            assert(refs.take(i + 1).last() == fields@[i as int].type_ref);
        }
        let ghost before = tys_view(r@);
        let ty = ctx.lower_ty(&fields[i].type_ref);
        r.push(ty);
        assert(tys_view(r@) =~= before.push(ty@));
        i += 1;
    }
    proof {
        assert(refs.take(fields.len() as int) == refs);
    }
    r
}

/// The signature of the constructor of a tuple struct.
pub fn fn_sig_for_struct_constructor(db: &Database, def: StructId) -> (r: Binders<CallableSig>)
    requires
        db.spec_struct_data(def) is Some,
    ensures
        r@ == constructor_sig_spec(*db, VariantId::StructId(def), AdtId::StructId(def)),
        database_consistent(*db) ==> binder_consistent_sig(r@),
{
    proof {
        if database_consistent(*db) {
            lemma_constructor_sig_consistent(*db, VariantId::StructId(def), AdtId::StructId(def));
        }
    }
    let params = lower_field_types(db, VariantId::StructId(def));
    let ret = type_for_adt(db, AdtId::StructId(def));
    Binders::new(ret.num_binders, CallableSig::from_params_and_return(params, ret.value, false))
}

/// The type of the constructor of a struct as a value.
pub fn type_for_struct_constructor(db: &Database, def: StructId) -> (r: Binders<Ty>)
    requires
        db.spec_struct_data(def) is Some,
    ensures
        r@ == constructor_ty_spec(
            *db,
            VariantId::StructId(def),
            CallableDefId::StructId(def),
            AdtId::StructId(def),
        ),
        database_consistent(*db) ==> binder_consistent_ty(r@),
{
    proof {
        if database_consistent(*db) {
            lemma_value_ty_query_consistent(*db, ValueTyDefId::StructId(def));
        }
    }
    match db.variant(VariantId::StructId(def)).kind {
        StructKind::Unit => {
            return type_for_adt(db, AdtId::StructId(def));
        },
        _ => {},
    }
    let generics = generics(db, GenericDefId::AdtId(AdtId::StructId(def)));
    let substs = Substs::bound_vars(&generics, DebruijnIndex::innermost());
    Binders::new(substs.len(), Ty::FunctionDef(CallableDefId::StructId(def), substs))
}

/// The signature of the constructor of a tuple variant.
pub fn fn_sig_for_enum_variant_constructor(db: &Database, def: EnumVariantId) -> (r: Binders<CallableSig>)
    requires
        db.spec_variant_data(VariantId::EnumVariantId(def)) is Some,
    ensures
        r@ == constructor_sig_spec(*db, VariantId::EnumVariantId(def), AdtId::EnumId(def.parent)),
        database_consistent(*db) ==> binder_consistent_sig(r@),
{
    proof {
        if database_consistent(*db) {
            lemma_constructor_sig_consistent(*db, VariantId::EnumVariantId(def), AdtId::EnumId(def.parent));
        }
    }
    let params = lower_field_types(db, VariantId::EnumVariantId(def));
    let ret = type_for_adt(db, AdtId::EnumId(def.parent));
    Binders::new(ret.num_binders, CallableSig::from_params_and_return(params, ret.value, false))
}

/// The type of the constructor of a variant as a value.
pub fn type_for_enum_variant_constructor(db: &Database, def: EnumVariantId) -> (r: Binders<Ty>)
    requires
        db.spec_variant_data(VariantId::EnumVariantId(def)) is Some,
    ensures
        r@ == constructor_ty_spec(
            *db,
            VariantId::EnumVariantId(def),
            CallableDefId::EnumVariantId(def),
            AdtId::EnumId(def.parent),
        ),
        database_consistent(*db) ==> binder_consistent_ty(r@),
{
    proof {
        if database_consistent(*db) {
            lemma_value_ty_query_consistent(*db, ValueTyDefId::EnumVariantId(def));
        }
    }
    match db.variant(VariantId::EnumVariantId(def)).kind {
        StructKind::Unit => {
            return type_for_adt(db, AdtId::EnumId(def.parent));
        },
        _ => {},
    }
    let generics = generics(db, GenericDefId::AdtId(AdtId::EnumId(def.parent)));
    let substs = Substs::bound_vars(&generics, DebruijnIndex::innermost());
    Binders::new(substs.len(), Ty::FunctionDef(CallableDefId::EnumVariantId(def), substs))
}

/// The declared type of a type alias.
pub fn type_for_type_alias(db: &Database, t: TypeAliasId) -> (r: Binders<Ty>)
    requires
        db.spec_type_alias_data(t) is Some,
    ensures
        r@ == type_for_type_alias_spec(*db, t),
        database_consistent(*db) ==> binder_consistent_ty(r@),
{
    proof {
        if database_consistent(*db) {
            lemma_ty_query_consistent(*db, TyDefId::TypeAliasId(t));
        }
    }
    match db.type_alias_data(t) {
        Some(data) => {
            if data.is_extern {
                Binders::new(0, Ty::ForeignType(t))
            } else {
                match &data.type_ref {
                    Some(type_ref) => lower_in_scope(db, GenericDefId::TypeAliasId(t), type_ref),
                    None => lower_in_scope(db, GenericDefId::TypeAliasId(t), &TypeRef::Error),
                }
            }
        },
        None => Binders::new(0, Ty::Unknown),
    }
}

/// Builds the declared type of an item in the type namespace.
pub fn ty_query(db: &Database, def: TyDefId) -> (r: Binders<Ty>)
    requires
        def matches TyDefId::TypeAliasId(t) ==> db.spec_type_alias_data(t) is Some,
    ensures
        r@ == ty_query_spec(*db, def),
        database_consistent(*db) ==> binder_consistent_ty(r@),
{
    proof {
        if database_consistent(*db) {
            lemma_ty_query_consistent(*db, def);
        }
    }
    match def {
        TyDefId::BuiltinType(it) => Binders::new(0, Ty::Builtin(it)),
        TyDefId::AdtId(it) => type_for_adt(db, it),
        TyDefId::TypeAliasId(it) => type_for_type_alias(db, it),
    }
}

/// Builds the declared type of an item in the value namespace. For a
/// struct this is the type of its constructor, not the struct's own type.
pub fn value_ty_query(db: &Database, def: ValueTyDefId) -> (r: Binders<Ty>)
    requires
        has_value_def(*db, def),
    ensures
        r@ == value_ty_query_spec(*db, def),
        database_consistent(*db) ==> binder_consistent_ty(r@),
{
    proof {
        if database_consistent(*db) {
            lemma_value_ty_query_consistent(*db, def);
        }
    }
    match def {
        ValueTyDefId::FunctionId(it) => type_for_fn(db, it),
        ValueTyDefId::StructId(it) => type_for_struct_constructor(db, it),
        ValueTyDefId::UnionId(it) => type_for_adt(db, AdtId::UnionId(it)),
        ValueTyDefId::EnumVariantId(it) => type_for_enum_variant_constructor(db, it),
        ValueTyDefId::ConstId(it) => type_for_const(db, it),
        ValueTyDefId::StaticId(it) => type_for_static(db, it),
    }
}

/// The self type of an impl.
pub fn impl_self_ty_query(db: &Database, impl_id: ImplId) -> (r: Binders<Ty>)
    requires
        db.spec_impl_data(impl_id) is Some,
    ensures
        r@ == impl_self_ty_query_spec(*db, impl_id),
        database_consistent(*db) ==> binder_consistent_ty(r@),
{
    proof {
        if database_consistent(*db) {
            lemma_impl_self_ty_query_consistent(*db, impl_id);
        }
    }
    match db.impl_data(impl_id) {
        Some(data) => lower_in_scope(db, GenericDefId::ImplId(impl_id), &data.target_type),
        None => Binders::new(0, Ty::Unknown),
    }
}

/// The type of a const parameter.
pub fn const_param_ty_query(db: &Database, def: ConstParamId) -> (r: Ty)
    requires
        has_const_param(*db, def),
    ensures
        r@ == const_param_ty_query_spec(*db, def),
{
    let item = db.item_of(def.parent);
    let data = &item.generic_params.consts[def.local_id as usize];
    let mut ctx = TyLoweringContext::new(db, &item.resolver);
    ctx.lower_ty(&data.ty)
}

/// The trait that an impl implements.
pub fn impl_trait_query(db: &Database, impl_id: ImplId) -> (r: Option<Binders<TraitRef>>)
    requires
        db.spec_impl_data(impl_id) is Some,
    ensures
        match r {
            Some(b) => Some(b@) == impl_trait_query_spec(*db, impl_id),
            None => impl_trait_query_spec(*db, impl_id) is None,
        },
        database_consistent(*db) && closed_ty(
            declared_impl_self_ty(*db, impl_id).value,
            0,
            seq![generic_param_list(*db, GenericDefId::ImplId(impl_id)).len()],
        ) ==> (r matches Some(b) ==> closed_tys(
            b@.value.substs,
            0,
            seq![generic_param_list(*db, GenericDefId::ImplId(impl_id)).len()],
        )),
{
    proof {
        if database_consistent(*db) && closed_ty(
            declared_impl_self_ty(*db, impl_id).value,
            0,
            seq![generic_param_list(*db, GenericDefId::ImplId(impl_id)).len()],
        ) {
            lemma_impl_trait_query_consistent(*db, impl_id);
        }
    }
    let impl_data = match db.impl_data(impl_id) {
        Some(d) => d,
        None => {
            return None;
        },
    };
    let mut ctx = new_context(
        db,
        &impl_data.item.resolver,
        TypeParamLoweringMode::Variable,
        ImplTraitLoweringMode::Disallowed,
    );
    let self_ty = db.impl_self_ty(impl_id);
    let target_trait = match &impl_data.target_trait {
        Some(t) => t,
        None => {
            return None;
        },
    };
    match ctx.lower_trait_ref(target_trait, Some(self_ty.value)) {
        Some(t) => Some(Binders::new(self_ty.num_binders, t)),
        None => None,
    }
}

/// The identity of the crate that a callable item belongs to.
impl CallableDefId {
    pub fn krate(self, db: &Database) -> (r: CrateId)
        requires
            match self {
                CallableDefId::FunctionId(f) => db.spec_function_data(f) is Some,
                CallableDefId::StructId(s) => db.spec_struct_data(s) is Some,
                CallableDefId::EnumVariantId(e) => db.spec_enum_data(e.parent) is Some,
            },
        ensures
            r == match self {
                CallableDefId::FunctionId(f) => db.spec_function_data(f).unwrap().item.krate,
                CallableDefId::StructId(s) => db.spec_struct_data(s).unwrap().item.krate,
                CallableDefId::EnumVariantId(e) => db.spec_enum_data(e.parent).unwrap().item.krate,
            },
    {
        match self {
            CallableDefId::FunctionId(f) => db.functions[f.0 as usize].item.krate,
            CallableDefId::StructId(s) => db.structs[s.0 as usize].item.krate,
            CallableDefId::EnumVariantId(e) => db.enums[e.parent.0 as usize].item.krate,
        }
    }
}

impl<'a> TyLoweringContext<'a> {
    /// Tells from the shape of `type_ref` alone whether it names a generic
    /// parameter, and which. Nothing is lowered for this: lowering the target
    /// of a predicate can ask for the predicates that are being computed.
    pub fn lower_ty_only_param(&self, type_ref: &TypeRef) -> (r: Option<TypeParamId>)
        ensures
            r == only_param_spec(*self.resolver, *type_ref),
    {
        let path = match type_ref {
            TypeRef::Path(path) => path,
            _ => {
                return None;
            },
        };
        if path.type_anchor.is_some() {
            return None;
        }
        if path.segments.len() > 1 {
            return None;
        }
        match self.resolver.resolve_path_in_type_ns(path) {
            Some((crate::db::TypeNs::GenericParam(param_id), None)) => Some(param_id),
            _ => None,
        }
    }

    /// Collects the generic arguments of a path to `resolved` into a
    /// substitution. For an enum variant the arguments may be written on the
    /// segment of the enum or on that of the variant; the former wins.
    pub fn substs_from_path(&mut self, path: &Path, resolved: ValueTyDefId, infer_args: bool) -> (r: Substs)
        requires
            path.segments@.len() > 0,
        ensures
            final(self).env() == old(self).env(),
            (r@, final(self).state()) == substs_from_path_segment_spec(
                old(self).env(),
                old(self).state(),
                args_segment(path.segments@, resolved),
                value_generic_def(resolved),
                infer_args,
            ),
    {
        let len = path.segments.len();
        let last = &path.segments[len - 1];
        let (segment, generic_def) = match resolved {
            ValueTyDefId::FunctionId(it) => (last, Some(GenericDefId::FunctionId(it))),
            ValueTyDefId::StructId(it) => (last, Some(GenericDefId::AdtId(AdtId::StructId(it)))),
            ValueTyDefId::UnionId(it) => (last, Some(GenericDefId::AdtId(AdtId::UnionId(it)))),
            ValueTyDefId::ConstId(it) => (last, Some(GenericDefId::ConstId(it))),
            ValueTyDefId::StaticId(_) => (last, None),
            ValueTyDefId::EnumVariantId(var) => {
                let segment = if len >= 2 && path.segments[len - 2].args_and_bindings.is_some() {
                    &path.segments[len - 2]
                } else {
                    last
                };
                (segment, Some(GenericDefId::AdtId(AdtId::EnumId(var.parent))))
            },
        };
        self.substs_from_path_segment(segment, generic_def, infer_args)
    }

    fn predicate_is_on(&self, pred: &WherePredicate, param_id: TypeParamId) -> (r: bool)
        ensures
            r == predicate_is_on(*self.resolver, *pred, param_id),
    {
        match pred {
            WherePredicate::ForLifetime { lifetimes: _, target, bound: _ } => self.target_is(
                target,
                param_id,
            ),
            WherePredicate::TypeBound { target, bound: _ } => self.target_is(target, param_id),
            WherePredicate::Lifetime { target: _, bound: _ } => false,
        }
    }

    fn target_is(&self, target: &WherePredicateTypeTarget, param_id: TypeParamId) -> (r: bool)
        ensures
            r == target_is(*self.resolver, *target, param_id),
    {
        match target {
            WherePredicateTypeTarget::TypeRef(type_ref) => match self.lower_ty_only_param(type_ref) {
                Some(p) => p == param_id,
                None => false,
            },
            WherePredicateTypeTarget::TypeParam(local_id) => *local_id == param_id.local_id,
        }
    }

    /// Lowers the `where` predicates in scope, one after the other; with
    /// `only`, those on that parameter alone, which are picked before
    /// anything is lowered.
    pub fn lower_where_predicates(&mut self, only: Option<TypeParamId>) -> (r: Vec<GenericPredicate>)
        ensures
            final(self).env() == old(self).env(),
            (preds_view(r@), final(self).state()) == lower_where_predicates_spec(
                old(self).env(),
                old(self).state(),
                old(self).resolver.where_predicates@,
                only,
            ),
    {
        let ghost env = self.env();
        let ghost st = self.state();
        let where_predicates = self.resolver.where_predicates_in_scope();
        let ghost wps = where_predicates@;
        let mut r: Vec<GenericPredicate> = Vec::new();
        let mut i: usize = 0;
        assert(wps.take(0) =~= Seq::empty());
        assert(preds_view(r@) =~= Seq::empty());
        while i < where_predicates.len()
            invariant
                i <= where_predicates.len(),
                wps == where_predicates@,
                self.env() == env,
                env.resolver == *self.resolver,
                (preds_view(r@), self.state()) == lower_where_predicates_spec(env, st, wps.take(i as int), only),
            decreases where_predicates.len() - i,
        {
            proof {
                assert(wps.take(i + 1).drop_last() == wps.take(i as int));
            }
            let pred = &where_predicates[i];
            let wanted = match only {
                Some(p) => self.predicate_is_on(pred, p),
                None => true,
            };
            if wanted {
                let ghost front = preds_view(r@);
                let mut lowered = self.lower_where_predicate(pred);
                let ghost back = preds_view(lowered@);
                r.append(&mut lowered);
                assert(preds_view(r@) =~= front + back);
            }
            i += 1;
        }
        proof {
            assert(wps.take(where_predicates.len() as int) == wps);
        }
        r
    }
}

fn put_under_binders(preds: Vec<GenericPredicate>, n: usize) -> (r: Vec<Binders<GenericPredicate>>)
    ensures
        bound_preds_view(r@) == under_binders(preds_view(preds@), n),
{
    let mut preds = preds;
    let ghost all = preds_view(preds@);
    let mut r: Vec<Binders<GenericPredicate>> = Vec::new();
    let mut i: usize = 0;
    while i < preds.len()
        invariant
            i <= preds.len(),
            r.len() == i,
            all == preds_view(preds@),
            forall|j: int| 0 <= j < i ==> (#[trigger] r@[j])@ == (Binders { num_binders: n, value: all[j] }),
        decreases preds.len() - i,
    {
        r.push(Binders::new(n, preds[i].duplicate()));
        i += 1;
    }
    assert(bound_preds_view(r@) =~= under_binders(all, n));
    r
}

/// The predicates on one type parameter. This is what resolving `T::Item`
/// asks for. Only the `where` predicates whose target is the parameter by its
/// shape are lowered, so that two parameters whose bounds mention each
/// other's associated types do not ask for each other's predicates without
/// end.
pub fn generic_predicates_for_param_query(db: &Database, param_id: TypeParamId) -> (r: Vec<
    Binders<GenericPredicate>,
>)
    requires
        db.spec_item(param_id.parent) is Some,
    ensures
        bound_preds_view(r@) == generic_predicates_spec(*db, param_id.parent, Some(param_id)),
        database_consistent(*db) ==> forall|k: int|
            0 <= k < r@.len() ==> binder_consistent_pred((#[trigger] r@[k])@),
{
    proof {
        if database_consistent(*db) {
            lemma_generic_predicates_consistent(*db, param_id.parent, Some(param_id));
        }
    }
    let resolver = &db.item_of(param_id.parent).resolver;
    let mut ctx = new_context(
        db,
        resolver,
        TypeParamLoweringMode::Variable,
        ImplTraitLoweringMode::Disallowed,
    );
    let generics = generics(db, param_id.parent);
    let preds = ctx.lower_where_predicates(Some(param_id));
    let r = put_under_binders(preds, generics.len());
    proof {
        if database_consistent(*db) {
            let spec = generic_predicates_spec(*db, param_id.parent, Some(param_id));
            assert(bound_preds_view(r@) == spec);
            assert forall|k: int| 0 <= k < r@.len() implies binder_consistent_pred((#[trigger] r@[k])@) by {
                assert(bound_preds_view(r@)[k] == r@[k]@);
                assert(spec[k] == r@[k]@);
                assert(binder_consistent_pred(spec[k]));
            }
        }
    }
    r
}

/// What the predicates on a type parameter are taken to be where they
/// depend on themselves: none.
pub fn generic_predicates_for_param_recover(_db: &Database, _param_id: TypeParamId) -> (r: Vec<
    Binders<GenericPredicate>,
>)
    ensures
        r@.len() == 0,
{
    Vec::new()
}

/// The predicates of the `where` clauses of an item with generics.
pub fn generic_predicates_query(db: &Database, def: GenericDefId) -> (r: Vec<Binders<GenericPredicate>>)
    requires
        db.spec_item(def) is Some,
    ensures
        bound_preds_view(r@) == generic_predicates_spec(*db, def, None),
        database_consistent(*db) ==> forall|k: int|
            0 <= k < r@.len() ==> binder_consistent_pred((#[trigger] r@[k])@),
{
    proof {
        if database_consistent(*db) {
            lemma_generic_predicates_consistent(*db, def, None);
        }
    }
    let resolver = &db.item_of(def).resolver;
    let mut ctx = new_context(
        db,
        resolver,
        TypeParamLoweringMode::Variable,
        ImplTraitLoweringMode::Disallowed,
    );
    let generics = generics(db, def);
    let preds = ctx.lower_where_predicates(None);
    let r = put_under_binders(preds, generics.len());
    proof {
        if database_consistent(*db) {
            let spec = generic_predicates_spec(*db, def, None);
            assert(bound_preds_view(r@) == spec);
            assert forall|k: int| 0 <= k < r@.len() implies binder_consistent_pred((#[trigger] r@[k])@) by {
                assert(bound_preds_view(r@)[k] == r@[k]@);
                assert(spec[k] == r@[k]@);
                assert(binder_consistent_pred(spec[k]));
            }
        }
    }
    r
}

fn default_of<'a>(db: &'a Database, p: &GenericParam) -> (r: Option<&'a TypeRef>)
    ensures
        r == match param_default(*db, *p) {
            Some(t) => Some(&t),
            None => None,
        },
{
    match db.item(p.id.parent) {
        Some(item) => if (p.id.local_id as usize) < item.generic_params.types.len() {
            match &item.generic_params.types[p.id.local_id as usize].default {
                Some(t) => Some(t),
                None => None,
            }
        } else {
            None
        },
        None => None,
    }
}

/// The defaults of the generic parameters in scope of `def`, lowered. Each
/// default may mention the parameters before it only.
pub fn generic_defaults_query(db: &Database, def: GenericDefId) -> (r: Vec<Binders<Ty>>)
    requires
        db.spec_item(def) is Some,
    ensures
        bound_tys_view(r@) == generic_defaults_spec(*db, def),
        r@.len() == generic_param_list(*db, def).len(),
        database_consistent(*db) ==> forall|i: int|
            0 <= i < r@.len() ==> (#[trigger] r@[i]).num_binders == i && binder_consistent_ty(r@[i]@),
{
    proof {
        if database_consistent(*db) {
            lemma_generic_defaults_consistent(*db, def);
        }
    }
    let resolver = &db.item_of(def).resolver;
    let mut ctx = new_context(
        db,
        resolver,
        TypeParamLoweringMode::Variable,
        ImplTraitLoweringMode::Disallowed,
    );
    let generic_params = generics(db, def);
    let ghost env = ctx.env();
    let ghost params = generic_params.params@;
    let mut defaults: Vec<Binders<Ty>> = Vec::new();
    let mut idx: usize = 0;
    assert(params.take(0) =~= Seq::empty());
    assert(bound_tys_view(defaults@) =~= Seq::empty());
    while idx < generic_params.params.len()
        invariant
            idx <= generic_params.params.len(),
            defaults.len() == idx,
            params == generic_params.params@,
            ctx.env() == env,
            env.db == *db,
            (bound_tys_view(defaults@), ctx.state()) == lower_defaults_spec(
                env,
                fresh_state(),
                params.take(idx as int),
            ),
        decreases generic_params.params.len() - idx,
    {
        proof {
            assert(params.take(idx + 1).drop_last() == params.take(idx as int));
            assert(params.take(idx + 1).last() == params[idx as int]);
        }
        let ty = match default_of(db, &generic_params.params[idx]) {
            Some(t) => ctx.lower_ty(t),
            None => Ty::Unknown,
        };
        // A default that mentions a parameter that comes after it is not
        // allowed to.
        let ty = map_bound_vars(&BoundVarOp::Truncate(idx), &ty, 0);
        let ghost before = bound_tys_view(defaults@);
        let b = Binders::new(idx, ty);
        defaults.push(b);
        assert(bound_tys_view(defaults@) =~= before.push(b@));
        idx += 1;
    }
    proof {
        assert(params.take(generic_params.params.len() as int) == params);
        if database_consistent(*db) {
            assert forall|i: int| 0 <= i < defaults@.len() implies (#[trigger] defaults@[i]).num_binders == i
                && binder_consistent_ty(defaults@[i]@) by {
                assert(bound_tys_view(defaults@)[i] == defaults@[i]@);
            }
        }
    }
    defaults
}

/// The environment of a definition: what its `where` clauses say of its
/// generic parameters, seen from inside the definition.
#[verifier::rlimit(40)]
pub fn trait_environment_query(db: &Database, def: GenericDefId) -> (r: TraitEnvironment)
    requires
        db.spec_item(def) is Some,
    ensures
        r@ == trait_environment_spec(*db, def),
{
    let resolver = &db.item_of(def).resolver;
    let mut ctx = new_context(
        db,
        resolver,
        TypeParamLoweringMode::Placeholder,
        ImplTraitLoweringMode::Disallowed,
    );
    let lowered = ctx.lower_where_predicates(None);
    let ghost all = preds_view(lowered@);
    let mut traits_in_scope: Vec<(Ty, TraitId)> = Vec::new();
    let mut clauses: Vec<GenericPredicate> = Vec::new();
    let mut i: usize = 0;
    assert(all.take(0) =~= Seq::empty());
    assert(preds_view(clauses@) =~= Seq::empty());
    assert(type_trait_pairs_view(traits_in_scope@) =~= Seq::empty());
    while i < lowered.len()
        invariant
            i <= lowered.len(),
            all == preds_view(lowered@),
            preds_view(clauses@) == without_errors(all.take(i as int)),
            type_trait_pairs_view(traits_in_scope@) == implementing_types(without_errors(all.take(i as int))),
        decreases lowered.len() - i,
    {
        proof {
            assert(all.take(i + 1).drop_last() == all.take(i as int));
            assert(all.take(i + 1).last() == lowered@[i as int]@);
        }
        let pred = &lowered[i];
        if !pred.is_error() {
            let ghost kept = without_errors(all.take(i as int));
            proof {
                assert(kept.push(pred@).drop_last() == kept);
            }
            match pred {
                GenericPredicate::Implemented(tr) => {
                    if tr.substs.0.len() > 0 {
                        let ghost before = type_trait_pairs_view(traits_in_scope@);
                        let self_ty = tr.substs.0[0].duplicate();
                        traits_in_scope.push((self_ty, tr.trait_));
                        assert(type_trait_pairs_view(traits_in_scope@) =~= before.push((self_ty@, tr.trait_)));
                    }
                },
                _ => {},
            }
            let ghost before = preds_view(clauses@);
            clauses.push(pred.duplicate());
            assert(preds_view(clauses@) =~= before.push(pred@));
        }
        i += 1;
    }
    proof {
        assert(all.take(lowered.len() as int) == all);
    }
    match db.container(def) {
        Some(AssocContainerId::TraitId(trait_id)) => {
            // Inside a trait, `Self` implements the trait with the trait's own
            // parameters.
            let substs = Substs::type_params(db, GenericDefId::TraitId(trait_id));
            let trait_ref = TraitRef { trait_: trait_id, substs };
            let ghost before = preds_view(clauses@);
            let pred = GenericPredicate::Implemented(trait_ref);
            let ghost pv = pred@;
            clauses.push(pred);
            assert(preds_view(clauses@) =~= before.push(pv));
        },
        _ => {},
    }
    TraitEnvironment { traits_from_clauses: traits_in_scope, env: clauses }
}

} // verus!
