use hir_ty::binders::Binders;
use hir_ty::db::{
    AssocItemId, ConstParamData, Database, FieldData, FunctionData, GenericParams, ImplData, ItemData,
    Resolver, StaticData, StructData, StructKind, TraitData, TypeAliasData, TypeNs, TypeNsEntry,
    TypeParamData, TypeParamProvenance, VariantData,
};
use hir_ty::ids::{
    AdtId, AssocContainerId, BuiltinInt, BuiltinType, CrateId, FunctionId, GenericDefId, ImplId, Name,
    OpaqueTyId, StructId, TraitId, TyDefId, TypeAliasId, TypeParamId,
};
use hir_ty::lower::{count_impl_traits, lower_to_chalk_mutability, PathSegments, TyLoweringContext};
use hir_ty::semantics::{ImplTraitLoweringMode, TypeParamLoweringMode};
use hir_ty::ty::{
    AliasTy, BoundVar, DebruijnIndex, FnPointer, FnSig, GenericPredicate, Mutability, OpaqueTy,
    ProjectionPredicate, ProjectionTy, Safety, Substs, TraitRef, Ty,
};
use hir_ty::type_ref::{
    AssociatedTypeBinding, GenericArg, GenericArgs, LifetimeRef, Path, PathSegment, TypeBound, TypeRef,
    WherePredicate, WherePredicateTypeTarget,
};

// Names.
const T: Name = Name(1);
const U: Name = Name(2);
const ITEM: Name = Name(3);
const TRAIT: Name = Name(10);
const SUPER: Name = Name(11);
const OTHER: Name = Name(12);
const S: Name = Name(20);
const I32: Name = Name(30);
const ALIAS: Name = Name(40);
const SELF: Name = Name(50);

fn seg(name: Name) -> PathSegment {
    PathSegment { name, args_and_bindings: None }
}

fn seg_args(name: Name, args: Vec<TypeRef>) -> PathSegment {
    PathSegment {
        name,
        args_and_bindings: Some(GenericArgs {
            args: args.into_iter().map(GenericArg::Type).collect(),
            has_self_type: false,
            bindings: Vec::new(),
        }),
    }
}

fn path(names: &[Name]) -> Path {
    Path { type_anchor: None, segments: names.iter().map(|n| seg(*n)).collect() }
}

fn path_ty(names: &[Name]) -> TypeRef {
    TypeRef::Path(path(names))
}

fn bound(name: Name) -> TypeBound {
    TypeBound::Path(path(&[name]))
}

fn entry(names: &[Name], resolution: TypeNs, remaining_index: Option<usize>) -> TypeNsEntry {
    TypeNsEntry { path: names.to_vec(), resolution, remaining_index }
}

fn type_param(provenance: TypeParamProvenance, default: Option<TypeRef>) -> TypeParamData {
    TypeParamData { name: None, default, provenance }
}

fn item(resolver: Resolver, types: Vec<TypeParamData>) -> ItemData {
    ItemData {
        krate: CrateId(0),
        generic_params: GenericParams { types, consts: Vec::new() },
        resolver,
        generic_defaults: Vec::new(),
        param_predicates: Vec::new(),
    }
}

fn var(depth: u32, index: usize) -> Ty {
    Ty::BoundVar(BoundVar { debruijn: DebruijnIndex { depth }, index })
}

fn i32_ty() -> Ty {
    Ty::Builtin(BuiltinType::Int(BuiltinInt::I32))
}

fn builtin_entries() -> Vec<TypeNsEntry> {
    vec![entry(&[I32], TypeNs::BuiltinType(BuiltinType::Int(BuiltinInt::I32)), None)]
}

fn trait_data(resolver: Resolver, extra_params: usize, items: Vec<(Name, AssocItemId)>) -> TraitData {
    let mut types = vec![type_param(TypeParamProvenance::TraitSelf, None)];
    for _ in 0..extra_params {
        types.push(type_param(TypeParamProvenance::TypeParamList, None));
    }
    TraitData { item: item(resolver, types), items }
}

fn fn_param(f: u32, local_id: u32) -> TypeParamId {
    TypeParamId { parent: GenericDefId::FunctionId(FunctionId(f)), local_id }
}

/// A database with one trait without supertraits and one function
/// `f<T: Trait>`, in whose scope `T`, `Trait` and `i32` resolve.
fn db_with_generic_fn(params: Vec<TypeRef>, ret_type: TypeRef) -> Database {
    let mut db = Database::new();
    db.traits.push(trait_data(Resolver::new(Some(GenericDefId::TraitId(TraitId(0)))), 0, Vec::new()));
    let mut type_ns = builtin_entries();
    type_ns.push(entry(&[T], TypeNs::GenericParam(fn_param(0, 0)), None));
    type_ns.push(entry(&[TRAIT], TypeNs::TraitId(TraitId(0)), None));
    let resolver = Resolver {
        generic_def: Some(GenericDefId::FunctionId(FunctionId(0))),
        type_ns,
        where_predicates: vec![WherePredicate::TypeBound {
            target: WherePredicateTypeTarget::TypeParam(0),
            bound: bound(TRAIT),
        }],
    };
    db.functions.push(FunctionData {
        item: item(resolver, vec![type_param(TypeParamProvenance::TypeParamList, None)]),
        container: AssocContainerId::Module,
        params,
        ret_type,
        is_varargs: false,
    });
    db
}

fn fn_resolver(db: &Database) -> &Resolver {
    &db.functions[0].item.resolver
}

fn variable_ctx<'a>(db: &'a Database, resolver: &'a Resolver) -> TyLoweringContext<'a> {
    TyLoweringContext::new(db, resolver).with_type_param_mode(TypeParamLoweringMode::Variable)
}

#[test]
fn structural_shapes_lower_structurally() {
    let db = db_with_generic_fn(Vec::new(), TypeRef::Never);
    let mut ctx = variable_ctx(&db, fn_resolver(&db));
    assert_eq!(ctx.lower_ty(&TypeRef::Never), Ty::Never);
    assert_eq!(ctx.lower_ty(&TypeRef::Placeholder), Ty::Unknown);
    assert_eq!(ctx.lower_ty(&TypeRef::Error), Ty::Unknown);
    assert_eq!(
        ctx.lower_ty(&TypeRef::Tuple(vec![TypeRef::Never, path_ty(&[I32])])),
        Ty::Tuple(2, Substs(vec![Ty::Never, i32_ty()]))
    );
    assert_eq!(
        ctx.lower_ty(&TypeRef::RawPtr(Box::new(path_ty(&[I32])), hir_ty::type_ref::Mutability::Mut)),
        Ty::RawPointer(Mutability::Mut, Box::new(i32_ty()))
    );
    assert_eq!(
        ctx.lower_ty(&TypeRef::Reference(Box::new(path_ty(&[T])), None, hir_ty::type_ref::Mutability::Shared)),
        Ty::Reference(Mutability::Not, Box::new(var(0, 0)))
    );
    assert_eq!(ctx.lower_ty(&TypeRef::Array(Box::new(TypeRef::Never))), Ty::Array(Box::new(Ty::Never)));
    assert_eq!(ctx.lower_ty(&TypeRef::Slice(Box::new(TypeRef::Never))), Ty::Slice(Box::new(Ty::Never)));
    assert_eq!(
        ctx.lower_ty(&TypeRef::Fn(vec![path_ty(&[I32]), TypeRef::Never], true)),
        Ty::FunctionPointer(FnPointer {
            num_args: 1,
            sig: FnSig { safety: Safety::Safe, variadic: true },
            substs: Substs(vec![i32_ty(), Ty::Never]),
        })
    );
}

#[test]
fn unknown_inside_a_tuple_stays_in_its_place() {
    let db = db_with_generic_fn(Vec::new(), TypeRef::Never);
    let mut ctx = variable_ctx(&db, fn_resolver(&db));
    let unresolved = path_ty(&[Name(999)]);
    assert_eq!(
        ctx.lower_ty(&TypeRef::Tuple(vec![path_ty(&[I32]), unresolved, TypeRef::Never])),
        Ty::Tuple(3, Substs(vec![i32_ty(), Ty::Unknown, Ty::Never]))
    );
}

#[test]
fn function_pointer_without_return_type_is_unknown() {
    let db = db_with_generic_fn(Vec::new(), TypeRef::Never);
    let mut ctx = variable_ctx(&db, fn_resolver(&db));
    assert_eq!(ctx.lower_ty(&TypeRef::Fn(Vec::new(), false)), Ty::Unknown);
}

#[test]
fn mutability_is_mapped() {
    assert_eq!(lower_to_chalk_mutability(hir_ty::type_ref::Mutability::Shared), Mutability::Not);
    assert_eq!(lower_to_chalk_mutability(hir_ty::type_ref::Mutability::Mut), Mutability::Mut);
}

#[test]
fn generic_param_lowers_by_mode() {
    let db = db_with_generic_fn(Vec::new(), TypeRef::Never);
    let mut placeholder = TyLoweringContext::new(&db, fn_resolver(&db));
    assert_eq!(placeholder.lower_ty(&path_ty(&[T])), Ty::Placeholder(fn_param(0, 0)));
    let mut variable = variable_ctx(&db, fn_resolver(&db));
    assert_eq!(variable.lower_ty(&path_ty(&[T])), var(0, 0));
    let deeper = variable.with_debruijn(DebruijnIndex::new(3), |ctx| ctx.lower_ty(&path_ty(&[T])));
    assert_eq!(deeper, var(3, 0));
    let shifted = variable.with_debruijn(DebruijnIndex::new(3), |ctx| {
        ctx.with_shifted_in(DebruijnIndex::one(), |ctx| ctx.lower_ty(&path_ty(&[T])))
    });
    assert_eq!(shifted, var(4, 0));
    // Afterwards the pass stands where it stood.
    assert_eq!(variable.in_binders, DebruijnIndex::innermost());
    assert_eq!(variable.lower_ty(&path_ty(&[T])), var(0, 0));
}

#[test]
fn dyn_trait_has_the_erased_self_as_its_first_argument() {
    // `dyn Trait`: the self type is variable 0 of the binder that the object
    // type supplies, the binder one level inside the place of the type.
    let db = db_with_generic_fn(Vec::new(), TypeRef::Never);
    let mut ctx = variable_ctx(&db, fn_resolver(&db));
    let lowered = ctx.lower_ty(&TypeRef::DynTrait(vec![bound(TRAIT)]));
    assert_eq!(
        lowered,
        Ty::Dyn(vec![GenericPredicate::Implemented(TraitRef {
            trait_: TraitId(0),
            substs: Substs(vec![var(0, 0)]),
        })])
    );
}

#[test]
fn generic_param_inside_dyn_is_one_binder_further_out() {
    let mut db = db_with_generic_fn(Vec::new(), TypeRef::Never);
    // trait Other<A>
    db.traits.push(trait_data(Resolver::new(Some(GenericDefId::TraitId(TraitId(1)))), 1, Vec::new()));
    db.functions[0].item.resolver.type_ns.push(entry(&[OTHER], TypeNs::TraitId(TraitId(1)), None));
    let mut ctx = variable_ctx(&db, fn_resolver(&db));
    let dyn_other_t = TypeRef::DynTrait(vec![TypeBound::Path(Path {
        type_anchor: None,
        segments: vec![seg_args(OTHER, vec![path_ty(&[T])])],
    })]);
    assert_eq!(
        ctx.lower_ty(&dyn_other_t),
        Ty::Dyn(vec![GenericPredicate::Implemented(TraitRef {
            trait_: TraitId(1),
            substs: Substs(vec![var(0, 0), var(1, 0)]),
        })])
    );
    // Lifetime bounds lower to nothing, unresolved and erroneous bounds to `Error`.
    let mixed = TypeRef::DynTrait(vec![
        TypeBound::Lifetime(LifetimeRef { name: Name(7) }),
        bound(Name(999)),
        TypeBound::Error,
    ]);
    assert_eq!(ctx.lower_ty(&mixed), Ty::Dyn(vec![GenericPredicate::Error, GenericPredicate::Error]));
}

#[test]
fn dyn_trait_too_deep_for_an_index_is_unknown() {
    let db = db_with_generic_fn(Vec::new(), TypeRef::Never);
    let mut ctx = variable_ctx(&db, fn_resolver(&db));
    let lowered =
        ctx.with_debruijn(DebruijnIndex::new(u32::MAX), |ctx| ctx.lower_ty(&TypeRef::DynTrait(vec![bound(TRAIT)])));
    assert_eq!(lowered, Ty::Unknown);
}

#[test]
fn bare_trait_path_is_a_trait_object() {
    let db = db_with_generic_fn(Vec::new(), TypeRef::Never);
    let mut ctx = variable_ctx(&db, fn_resolver(&db));
    assert_eq!(
        ctx.lower_ty(&path_ty(&[TRAIT])),
        Ty::Dyn(vec![GenericPredicate::Implemented(TraitRef {
            trait_: TraitId(0),
            substs: Substs(vec![var(0, 0)]),
        })])
    );
}

#[test]
fn impl_trait_disallowed_is_unknown() {
    let db = db_with_generic_fn(Vec::new(), TypeRef::Never);
    let mut ctx = variable_ctx(&db, fn_resolver(&db));
    assert_eq!(ctx.lower_ty(&TypeRef::ImplTrait(vec![bound(TRAIT)])), Ty::Unknown);
    assert_eq!(ctx.impl_trait_counter, 0);
    assert!(ctx.opaque_type_data.is_empty());
}

fn impl_trait(name: Name) -> TypeRef {
    TypeRef::ImplTrait(vec![bound(name)])
}

fn opaque(idx: u16, params: Vec<Ty>) -> Ty {
    Ty::Alias(AliasTy::Opaque(OpaqueTy {
        opaque_ty_id: OpaqueTyId { func: FunctionId(0), idx },
        substitution: Substs(params),
    }))
}

fn implemented(trait_: u32, substs: Vec<Ty>) -> GenericPredicate {
    GenericPredicate::Implemented(TraitRef { trait_: TraitId(trait_), substs: Substs(substs) })
}

#[test]
fn opaque_types_are_numbered_in_the_order_of_writing() {
    // (impl Trait, impl Trait)
    let db = db_with_generic_fn(Vec::new(), TypeRef::Never);
    let mut ctx = variable_ctx(&db, fn_resolver(&db)).with_impl_trait_mode(ImplTraitLoweringMode::Opaque);
    let lowered = ctx.lower_ty(&TypeRef::Tuple(vec![impl_trait(TRAIT), impl_trait(TRAIT)]));
    assert_eq!(lowered, Ty::Tuple(2, Substs(vec![opaque(0, vec![var(0, 0)]), opaque(1, vec![var(0, 0)])])));
    assert_eq!(ctx.impl_trait_counter, 2);
    assert_eq!(ctx.opaque_type_data.len(), 2);
    for data in &ctx.opaque_type_data {
        assert_eq!(data.bounds.num_binders, 1);
        assert_eq!(data.bounds.value, vec![implemented(0, vec![var(0, 0)])]);
    }
}

#[test]
fn nested_opaque_type_gets_the_index_after_its_parent() {
    // (impl Other<impl Trait>, impl Trait)
    let mut db = db_with_generic_fn(Vec::new(), TypeRef::Never);
    db.traits.push(trait_data(Resolver::new(Some(GenericDefId::TraitId(TraitId(1)))), 1, Vec::new()));
    db.functions[0].item.resolver.type_ns.push(entry(&[OTHER], TypeNs::TraitId(TraitId(1)), None));
    let mut ctx = variable_ctx(&db, fn_resolver(&db)).with_impl_trait_mode(ImplTraitLoweringMode::Opaque);
    let outer = TypeRef::ImplTrait(vec![TypeBound::Path(Path {
        type_anchor: None,
        segments: vec![seg_args(OTHER, vec![impl_trait(TRAIT)])],
    })]);
    let lowered = ctx.lower_ty(&TypeRef::Tuple(vec![outer, impl_trait(TRAIT)]));
    assert_eq!(lowered, Ty::Tuple(2, Substs(vec![opaque(0, vec![var(0, 0)]), opaque(2, vec![var(0, 0)])])));
    assert_eq!(ctx.impl_trait_counter, 3);
    assert_eq!(ctx.opaque_type_data.len(), 3);
    // The bounds of the outer type mention the nested one, which stands one
    // binder away from the generic parameters.
    assert_eq!(
        ctx.opaque_type_data[0].bounds.value,
        vec![implemented(1, vec![var(0, 0), opaque(1, vec![var(1, 0)])])]
    );
    assert_eq!(ctx.opaque_type_data[1].bounds.value, vec![implemented(0, vec![var(0, 0)])]);
    assert_eq!(ctx.opaque_type_data[2].bounds.value, vec![implemented(0, vec![var(0, 0)])]);
}

#[test]
fn opaque_impl_trait_outside_a_function_is_unknown() {
    let mut db = Database::new();
    db.traits.push(trait_data(Resolver::new(Some(GenericDefId::TraitId(TraitId(0)))), 0, Vec::new()));
    let resolver = Resolver {
        generic_def: Some(GenericDefId::TraitId(TraitId(0))),
        type_ns: vec![entry(&[TRAIT], TypeNs::TraitId(TraitId(0)), None)],
        where_predicates: Vec::new(),
    };
    let mut ctx = TyLoweringContext::new(&db, &resolver).with_impl_trait_mode(ImplTraitLoweringMode::Opaque);
    assert_eq!(ctx.lower_ty(&impl_trait(TRAIT)), Ty::Unknown);
    assert_eq!(ctx.impl_trait_counter, 0);
    assert!(ctx.opaque_type_data.is_empty());
}

/// `f<T, impl Trait, impl Trait>`, as an `impl Trait` in argument position
/// desugars.
fn db_with_impl_trait_params() -> Database {
    let mut db = db_with_generic_fn(Vec::new(), TypeRef::Never);
    db.functions[0].item.generic_params.types.push(type_param(TypeParamProvenance::ArgumentImplTrait, None));
    db.functions[0].item.generic_params.types.push(type_param(TypeParamProvenance::ArgumentImplTrait, None));
    db
}

#[test]
fn impl_trait_as_param_names_the_synthesized_parameter() {
    let db = db_with_impl_trait_params();
    let mut ctx = TyLoweringContext::new(&db, fn_resolver(&db)).with_impl_trait_mode(ImplTraitLoweringMode::Param);
    assert_eq!(ctx.lower_ty(&impl_trait(TRAIT)), Ty::Placeholder(fn_param(0, 1)));
    assert_eq!(ctx.lower_ty(&impl_trait(TRAIT)), Ty::Placeholder(fn_param(0, 2)));
    // There is no third synthesized parameter.
    assert_eq!(ctx.lower_ty(&impl_trait(TRAIT)), Ty::Unknown);
    assert_eq!(ctx.impl_trait_counter, 3);
}

#[test]
fn impl_trait_as_variable_comes_after_the_declared_parameters() {
    let db = db_with_impl_trait_params();
    let mut ctx = variable_ctx(&db, fn_resolver(&db)).with_impl_trait_mode(ImplTraitLoweringMode::Variable);
    assert_eq!(ctx.lower_ty(&impl_trait(TRAIT)), var(0, 1));
    assert_eq!(ctx.lower_ty(&impl_trait(TRAIT)), var(0, 2));
    assert_eq!(ctx.impl_trait_counter, 2);
}

#[test]
fn impl_trait_counter_advances_by_the_nested_occurrences() {
    let mut db = db_with_impl_trait_params();
    db.traits.push(trait_data(Resolver::new(Some(GenericDefId::TraitId(TraitId(1)))), 1, Vec::new()));
    db.functions[0].item.resolver.type_ns.push(entry(&[OTHER], TypeNs::TraitId(TraitId(1)), None));
    let nested = TypeRef::ImplTrait(vec![TypeBound::Path(Path {
        type_anchor: None,
        segments: vec![seg_args(OTHER, vec![impl_trait(TRAIT)])],
    })]);
    assert_eq!(count_impl_traits(&nested), 2);
    assert_eq!(count_impl_traits(&TypeRef::Tuple(vec![impl_trait(TRAIT), TypeRef::Never])), 1);
    assert_eq!(count_impl_traits(&TypeRef::DynTrait(vec![bound(TRAIT)])), 0);
    let mut ctx = variable_ctx(&db, fn_resolver(&db)).with_impl_trait_mode(ImplTraitLoweringMode::Variable);
    assert_eq!(ctx.lower_ty(&nested), var(0, 1));
    assert_eq!(ctx.impl_trait_counter, 2);
    assert_eq!(ctx.lower_ty(&impl_trait(TRAIT)), var(0, 3));
}

/// `struct S<T = i32>` at `StructId(0)`, in whose scope `S`, `T` and `i32`
/// resolve.
fn db_with_defaulted_struct() -> Database {
    let mut db = Database::new();
    let def = GenericDefId::AdtId(AdtId::StructId(StructId(0)));
    let mut type_ns = builtin_entries();
    type_ns.push(entry(&[S], TypeNs::AdtId(AdtId::StructId(StructId(0))), None));
    type_ns.push(entry(&[T], TypeNs::GenericParam(TypeParamId { parent: def, local_id: 0 }), None));
    db.structs.push(StructData {
        item: item(
            Resolver { generic_def: Some(def), type_ns, where_predicates: Vec::new() },
            vec![type_param(TypeParamProvenance::TypeParamList, Some(path_ty(&[I32])))],
        ),
        variant_data: VariantData { kind: StructKind::Record, fields: Vec::new() },
    });
    db
}

#[test]
fn bare_struct_takes_its_default() {
    let mut db = db_with_defaulted_struct();
    let def = GenericDefId::AdtId(AdtId::StructId(StructId(0)));
    let defaults = hir_ty::queries::generic_defaults_query(&db, def);
    assert_eq!(defaults, vec![Binders { num_binders: 0, value: i32_ty() }]);
    db.structs[0].item.generic_defaults = defaults;

    let resolver = &db.structs[0].item.resolver;
    let mut ctx = variable_ctx(&db, resolver);
    let substs = ctx.substs_from_path_segment(&seg(S), Some(def), false);
    assert_eq!(substs.0.len(), 1);
    assert_eq!(substs.0[0], i32_ty());
    assert_eq!(
        ctx.lower_ty(&path_ty(&[S])),
        Ty::Adt(AdtId::StructId(StructId(0)), Substs(vec![i32_ty()]))
    );
}

#[test]
fn substitution_has_one_entry_per_parameter() {
    // struct S<A, B = i32, C = B>
    let mut db = db_with_defaulted_struct();
    let def = GenericDefId::AdtId(AdtId::StructId(StructId(0)));
    db.structs[0].item.generic_params.types = vec![
        type_param(TypeParamProvenance::TypeParamList, None),
        type_param(TypeParamProvenance::TypeParamList, Some(path_ty(&[I32]))),
        type_param(TypeParamProvenance::TypeParamList, Some(path_ty(&[U]))),
    ];
    db.structs[0].item.resolver.type_ns.push(entry(
        &[U],
        TypeNs::GenericParam(TypeParamId { parent: def, local_id: 1 }),
        None,
    ));
    let defaults = hir_ty::queries::generic_defaults_query(&db, def);
    assert_eq!(
        defaults,
        vec![
            Binders { num_binders: 0, value: Ty::Unknown },
            Binders { num_binders: 1, value: i32_ty() },
            Binders { num_binders: 2, value: var(0, 1) },
        ]
    );
    db.structs[0].item.generic_defaults = defaults;
    let resolver = &db.structs[0].item.resolver;

    // No arguments, defaults wanted.
    let mut ctx = variable_ctx(&db, resolver);
    assert_eq!(
        ctx.substs_from_path_segment(&seg(S), Some(def), false),
        Substs(vec![Ty::Unknown, i32_ty(), i32_ty()])
    );
    // No arguments, inference wanted: nothing is defaulted.
    assert_eq!(
        ctx.substs_from_path_segment(&seg(S), Some(def), true),
        Substs(vec![Ty::Unknown, Ty::Unknown, Ty::Unknown])
    );
    // One argument: the rest is defaulted, also where inference is wanted.
    let one = seg_args(S, vec![TypeRef::Never]);
    assert_eq!(
        ctx.substs_from_path_segment(&one, Some(def), true),
        Substs(vec![Ty::Never, i32_ty(), i32_ty()])
    );
    // Two arguments: the last default takes the second argument.
    let two = seg_args(S, vec![TypeRef::Never, TypeRef::Slice(Box::new(TypeRef::Never))]);
    assert_eq!(
        ctx.substs_from_path_segment(&two, Some(def), false),
        Substs(vec![Ty::Never, Ty::Slice(Box::new(Ty::Never)), Ty::Slice(Box::new(Ty::Never))])
    );
    // All arguments, and one too many, which is not looked at.
    let four = seg_args(S, vec![TypeRef::Never, TypeRef::Never, TypeRef::Never, path_ty(&[I32])]);
    assert_eq!(
        ctx.substs_from_path_segment(&four, Some(def), false),
        Substs(vec![Ty::Never, Ty::Never, Ty::Never])
    );
    // Lifetime arguments are skipped.
    let with_lifetime = PathSegment {
        name: S,
        args_and_bindings: Some(GenericArgs {
            args: vec![
                GenericArg::Lifetime(LifetimeRef { name: Name(7) }),
                GenericArg::Type(TypeRef::Never),
            ],
            has_self_type: false,
            bindings: Vec::new(),
        }),
    };
    assert_eq!(
        ctx.substs_from_path_segment(&with_lifetime, Some(def), false),
        Substs(vec![Ty::Never, i32_ty(), i32_ty()])
    );
    // Without a definition there are no parameters.
    assert_eq!(ctx.substs_from_path_segment(&two, None, false), Substs(Vec::new()));
}

#[test]
fn default_that_mentions_a_later_parameter_is_unknown() {
    // struct S<A = B, B = i32>
    let mut db = db_with_defaulted_struct();
    let def = GenericDefId::AdtId(AdtId::StructId(StructId(0)));
    db.structs[0].item.generic_params.types = vec![
        type_param(TypeParamProvenance::TypeParamList, Some(TypeRef::Tuple(vec![path_ty(&[U]), path_ty(&[T])]))),
        type_param(TypeParamProvenance::TypeParamList, Some(path_ty(&[I32]))),
    ];
    db.structs[0].item.resolver.type_ns.push(entry(
        &[U],
        TypeNs::GenericParam(TypeParamId { parent: def, local_id: 1 }),
        None,
    ));
    let defaults = hir_ty::queries::generic_defaults_query(&db, def);
    assert_eq!(
        defaults,
        vec![
            Binders { num_binders: 0, value: Ty::Tuple(2, Substs(vec![Ty::Unknown, Ty::Unknown])) },
            Binders { num_binders: 1, value: i32_ty() },
        ]
    );
}

/// `trait Super { type Item; }`, `trait Trait1<A>: Super`, and
/// `fn f<T: Trait1<i32>>`, with the predicates on `Self` of `Trait1` and on
/// `T` evaluated.
fn db_with_supertrait() -> Database {
    let mut db = Database::new();
    let super_id = TraitId(0);
    let trait1_id = TraitId(1);
    db.type_aliases.push(TypeAliasData {
        item: item(Resolver::new(Some(GenericDefId::TypeAliasId(TypeAliasId(0)))), Vec::new()),
        container: AssocContainerId::TraitId(super_id),
        type_ref: None,
        is_extern: false,
        ty: None,
    });
    db.traits.push(trait_data(
        Resolver::new(Some(GenericDefId::TraitId(super_id))),
        0,
        vec![(ITEM, AssocItemId::TypeAliasId(TypeAliasId(0)))],
    ));
    let trait1_resolver = Resolver {
        generic_def: Some(GenericDefId::TraitId(trait1_id)),
        type_ns: vec![
            entry(&[SUPER], TypeNs::TraitId(super_id), None),
            entry(
                &[SELF],
                TypeNs::GenericParam(TypeParamId { parent: GenericDefId::TraitId(trait1_id), local_id: 0 }),
                None,
            ),
        ],
        where_predicates: vec![WherePredicate::TypeBound {
            target: WherePredicateTypeTarget::TypeParam(0),
            bound: bound(SUPER),
        }],
    };
    db.traits.push(trait_data(trait1_resolver, 1, Vec::new()));

    let mut type_ns = builtin_entries();
    type_ns.push(entry(&[T], TypeNs::GenericParam(fn_param(0, 0)), None));
    type_ns.push(entry(&[T, ITEM], TypeNs::GenericParam(fn_param(0, 0)), Some(1)));
    type_ns.push(entry(&[TRAIT], TypeNs::TraitId(trait1_id), None));
    type_ns.push(entry(&[TRAIT, ITEM], TypeNs::TraitId(trait1_id), Some(1)));
    let resolver = Resolver {
        generic_def: Some(GenericDefId::FunctionId(FunctionId(0))),
        type_ns,
        where_predicates: vec![WherePredicate::TypeBound {
            target: WherePredicateTypeTarget::TypeRef(path_ty(&[T])),
            bound: TypeBound::Path(Path {
                type_anchor: None,
                segments: vec![seg_args(TRAIT, vec![path_ty(&[I32])])],
            }),
        }],
    };
    db.functions.push(FunctionData {
        item: item(resolver, vec![type_param(TypeParamProvenance::TypeParamList, None)]),
        container: AssocContainerId::Module,
        params: Vec::new(),
        ret_type: TypeRef::Never,
        is_varargs: false,
    });

    let trait1_self = TypeParamId { parent: GenericDefId::TraitId(trait1_id), local_id: 0 };
    let on_self = hir_ty::queries::generic_predicates_for_param_query(&db, trait1_self);
    assert_eq!(on_self, vec![Binders { num_binders: 2, value: implemented(0, vec![var(0, 0)]) }]);
    db.traits[1].item.param_predicates = vec![on_self];
    let on_t = hir_ty::queries::generic_predicates_for_param_query(&db, fn_param(0, 0));
    assert_eq!(on_t, vec![Binders { num_binders: 1, value: implemented(1, vec![var(0, 0), i32_ty()]) }]);
    db.functions[0].item.param_predicates = vec![on_t];
    db
}

#[test]
fn associated_type_shorthand_goes_through_the_supertrait() {
    // `T::Item` where `T: Trait1<i32>`, `Trait1<A>: Super` and `Super`
    // declares `Item`: the projection is on `Super`, with the one argument
    // that `Super` has, not with the two of `Trait1`.
    let db = db_with_supertrait();
    let mut ctx = variable_ctx(&db, fn_resolver(&db));
    assert_eq!(
        ctx.lower_ty(&path_ty(&[T, ITEM])),
        Ty::Alias(AliasTy::Projection(ProjectionTy {
            associated_ty_id: TypeAliasId(0),
            substitution: Substs(vec![var(0, 0)]),
        }))
    );
    // Moved in to where the path stands.
    assert_eq!(
        ctx.with_debruijn(DebruijnIndex::new(2), |ctx| ctx.lower_ty(&path_ty(&[T, ITEM]))),
        Ty::Alias(AliasTy::Projection(ProjectionTy {
            associated_ty_id: TypeAliasId(0),
            substitution: Substs(vec![var(2, 0)]),
        }))
    );
    // With placeholders.
    let mut placeholder = TyLoweringContext::new(&db, fn_resolver(&db));
    assert_eq!(
        placeholder.lower_ty(&path_ty(&[T, ITEM])),
        Ty::Alias(AliasTy::Projection(ProjectionTy {
            associated_ty_id: TypeAliasId(0),
            substitution: Substs(vec![Ty::Placeholder(fn_param(0, 0))]),
        }))
    );
}

#[test]
fn associated_type_of_a_trait_path_goes_through_the_supertrait() {
    let db = db_with_supertrait();
    let mut ctx = variable_ctx(&db, fn_resolver(&db));
    // `Trait1::Item`: no self type is known.
    assert_eq!(
        ctx.lower_ty(&path_ty(&[TRAIT, ITEM])),
        Ty::Alias(AliasTy::Projection(ProjectionTy {
            associated_ty_id: TypeAliasId(0),
            substitution: Substs(vec![Ty::Unknown]),
        }))
    );
    // `<T as Trait1>::Other` names nothing.
    let anchored = TypeRef::Path(Path {
        type_anchor: Some(Box::new(path_ty(&[T]))),
        segments: vec![seg(Name(999))],
    });
    assert_eq!(ctx.lower_ty(&anchored), Ty::Unknown);
    // `<T>::Item` is looked up in what is known of `T`.
    let anchored = TypeRef::Path(Path { type_anchor: Some(Box::new(path_ty(&[T]))), segments: vec![seg(ITEM)] });
    assert_eq!(
        ctx.lower_ty(&anchored),
        Ty::Alias(AliasTy::Projection(ProjectionTy {
            associated_ty_id: TypeAliasId(0),
            substitution: Substs(vec![var(0, 0)]),
        }))
    );
}

#[test]
fn more_than_one_remaining_segment_is_unknown() {
    let mut db = db_with_supertrait();
    db.functions[0].item.resolver.type_ns.push(entry(
        &[T, ITEM, ITEM],
        TypeNs::GenericParam(fn_param(0, 0)),
        Some(1),
    ));
    let mut ctx = variable_ctx(&db, fn_resolver(&db));
    assert_eq!(ctx.lower_ty(&path_ty(&[T, ITEM, ITEM])), Ty::Unknown);
}

#[test]
fn relative_path_keeps_the_type_without_segments() {
    let db = db_with_supertrait();
    let ctx = variable_ctx(&db, fn_resolver(&db));
    let segments: Vec<PathSegment> = vec![seg(ITEM)];
    let res = Some(TypeNs::GenericParam(fn_param(0, 0)));
    assert_eq!(
        ctx.lower_ty_relative_path(Ty::Never, res, PathSegments::skip(&segments, 1)),
        (Ty::Never, res)
    );
    assert_eq!(
        ctx.lower_ty_relative_path(Ty::Never, None, PathSegments::all(&segments)),
        (Ty::Unknown, None)
    );
}

#[test]
fn assoc_type_bindings_lower_to_projection_predicates() {
    // dyn Super<Item = i32>, dyn Trait1<i32, Item: Super>, dyn Super<Missing = i32>
    let mut db = db_with_supertrait();
    db.functions[0].item.resolver.type_ns.push(entry(&[SUPER], TypeNs::TraitId(TraitId(0)), None));
    let with_binding = |trait_name: Name, args: Vec<TypeRef>, binding: AssociatedTypeBinding| {
        TypeRef::DynTrait(vec![TypeBound::Path(Path {
            type_anchor: None,
            segments: vec![PathSegment {
                name: trait_name,
                args_and_bindings: Some(GenericArgs {
                    args: args.into_iter().map(GenericArg::Type).collect(),
                    has_self_type: false,
                    bindings: vec![binding],
                }),
            }],
        })])
    };
    let projection = |substs: Vec<Ty>| ProjectionTy { associated_ty_id: TypeAliasId(0), substitution: Substs(substs) };
    let mut ctx = variable_ctx(&db, fn_resolver(&db));

    let eq = with_binding(
        SUPER,
        Vec::new(),
        AssociatedTypeBinding { name: ITEM, type_ref: Some(path_ty(&[I32])), bounds: Vec::new() },
    );
    assert_eq!(
        ctx.lower_ty(&eq),
        Ty::Dyn(vec![
            implemented(0, vec![var(0, 0)]),
            GenericPredicate::Projection(ProjectionPredicate {
                projection_ty: projection(vec![var(0, 0)]),
                ty: i32_ty(),
            }),
        ])
    );

    let bounded = with_binding(
        TRAIT,
        vec![path_ty(&[I32])],
        AssociatedTypeBinding { name: ITEM, type_ref: None, bounds: vec![bound(SUPER)] },
    );
    assert_eq!(
        ctx.lower_ty(&bounded),
        Ty::Dyn(vec![
            implemented(1, vec![var(0, 0), i32_ty()]),
            implemented(0, vec![Ty::Alias(AliasTy::Projection(projection(vec![var(0, 0)])))]),
        ])
    );

    let missing = with_binding(
        SUPER,
        Vec::new(),
        AssociatedTypeBinding { name: Name(999), type_ref: Some(path_ty(&[I32])), bounds: Vec::new() },
    );
    assert_eq!(ctx.lower_ty(&missing), Ty::Dyn(vec![implemented(0, vec![var(0, 0)])]));
}

#[test]
fn enum_variant_in_type_position_is_unknown() {
    let mut db = db_with_generic_fn(Vec::new(), TypeRef::Never);
    db.functions[0].item.resolver.type_ns.push(entry(
        &[S],
        TypeNs::EnumVariantId(hir_ty::ids::EnumVariantId { parent: hir_ty::ids::EnumId(0), local_id: 0 }),
        None,
    ));
    let mut ctx = variable_ctx(&db, fn_resolver(&db));
    assert_eq!(ctx.lower_ty(&path_ty(&[S])), Ty::Unknown);
}

#[test]
fn type_alias_reads_its_evaluated_type() {
    // type Alias<A> = (A, i32)
    let mut db = db_with_generic_fn(Vec::new(), TypeRef::Never);
    let alias_def = GenericDefId::TypeAliasId(TypeAliasId(0));
    let mut type_ns = builtin_entries();
    type_ns.push(entry(&[T], TypeNs::GenericParam(TypeParamId { parent: alias_def, local_id: 0 }), None));
    db.type_aliases.push(TypeAliasData {
        item: item(
            Resolver { generic_def: Some(alias_def), type_ns, where_predicates: Vec::new() },
            vec![type_param(TypeParamProvenance::TypeParamList, None)],
        ),
        container: AssocContainerId::Module,
        type_ref: Some(TypeRef::Tuple(vec![path_ty(&[T]), path_ty(&[I32])])),
        is_extern: false,
        ty: None,
    });
    db.functions[0].item.resolver.type_ns.push(entry(&[ALIAS], TypeNs::TypeAliasId(TypeAliasId(0)), None));

    // Not evaluated yet: the alias reads as `Unknown`.
    {
        let mut ctx = variable_ctx(&db, fn_resolver(&db));
        assert_eq!(ctx.lower_ty(&path_ty(&[ALIAS])), Ty::Unknown);
    }
    let declared = hir_ty::queries::ty_query(&db, TyDefId::TypeAliasId(TypeAliasId(0)));
    assert_eq!(declared, Binders { num_binders: 1, value: Ty::Tuple(2, Substs(vec![var(0, 0), i32_ty()])) });
    db.type_aliases[0].ty = Some(declared);

    let mut ctx = variable_ctx(&db, fn_resolver(&db));
    let applied = TypeRef::Path(Path { type_anchor: None, segments: vec![seg_args(ALIAS, vec![path_ty(&[T])])] });
    assert_eq!(ctx.lower_ty(&applied), Ty::Tuple(2, Substs(vec![var(0, 0), i32_ty()])));
    let applied = TypeRef::Path(Path { type_anchor: None, segments: vec![seg_args(ALIAS, vec![TypeRef::Never])] });
    assert_eq!(ctx.lower_ty(&applied), Ty::Tuple(2, Substs(vec![Ty::Never, i32_ty()])));
    // Under a trait object the argument is moved in with the alias.
    let in_dyn = TypeRef::Reference(
        Box::new(TypeRef::Path(Path {
            type_anchor: None,
            segments: vec![seg_args(ALIAS, vec![TypeRef::DynTrait(vec![bound(TRAIT)])])],
        })),
        None,
        hir_ty::type_ref::Mutability::Shared,
    );
    assert_eq!(
        ctx.lower_ty(&in_dyn),
        Ty::Reference(
            Mutability::Not,
            Box::new(Ty::Tuple(2, Substs(vec![Ty::Dyn(vec![implemented(0, vec![var(0, 0)])]), i32_ty()])))
        )
    );
}

#[test]
fn self_type_of_impl_and_adt() {
    // impl<A> S<A> { .. Self .. }
    let mut db = db_with_defaulted_struct();
    let impl_def = GenericDefId::ImplId(ImplId(0));
    let mut type_ns = builtin_entries();
    type_ns.push(entry(&[S], TypeNs::AdtId(AdtId::StructId(StructId(0))), None));
    type_ns.push(entry(&[T], TypeNs::GenericParam(TypeParamId { parent: impl_def, local_id: 0 }), None));
    type_ns.push(entry(&[SELF], TypeNs::SelfType(ImplId(0)), None));
    db.impls.push(ImplData {
        item: item(
            Resolver { generic_def: Some(impl_def), type_ns, where_predicates: Vec::new() },
            vec![type_param(TypeParamProvenance::TypeParamList, None)],
        ),
        target_type: TypeRef::Path(Path { type_anchor: None, segments: vec![seg_args(S, vec![path_ty(&[T])])] }),
        target_trait: None,
        self_ty: None,
        trait_ref: None,
    });
    let self_ty = hir_ty::queries::impl_self_ty_query(&db, ImplId(0));
    assert_eq!(
        self_ty,
        Binders { num_binders: 1, value: Ty::Adt(AdtId::StructId(StructId(0)), Substs(vec![var(0, 0)])) }
    );
    assert_eq!(
        hir_ty::lower::impl_self_ty_recover(&db, ImplId(0)),
        Binders { num_binders: 1, value: Ty::Unknown }
    );
    db.impls[0].self_ty = Some(self_ty);
    let resolver = &db.impls[0].item.resolver;
    let mut variable = variable_ctx(&db, resolver);
    assert_eq!(
        variable.with_debruijn(DebruijnIndex::new(1), |ctx| ctx.lower_ty(&path_ty(&[SELF]))),
        Ty::Adt(AdtId::StructId(StructId(0)), Substs(vec![var(1, 0)]))
    );
    let mut placeholder = TyLoweringContext::new(&db, resolver);
    assert_eq!(
        placeholder.lower_ty(&path_ty(&[SELF])),
        Ty::Adt(
            AdtId::StructId(StructId(0)),
            Substs(vec![Ty::Placeholder(TypeParamId { parent: impl_def, local_id: 0 })])
        )
    );

    // `Self` inside the struct itself.
    db.structs[0].item.resolver.type_ns.push(entry(&[SELF], TypeNs::AdtSelfType(AdtId::StructId(StructId(0))), None));
    let resolver = &db.structs[0].item.resolver;
    let mut ctx = variable_ctx(&db, resolver);
    assert_eq!(
        ctx.lower_ty(&path_ty(&[SELF])),
        Ty::Adt(AdtId::StructId(StructId(0)), Substs(vec![var(0, 0)]))
    );
}

#[test]
fn shifting_and_substituting_bound_variables() {
    let ty = Ty::Tuple(2, Substs(vec![var(0, 1), Ty::Dyn(vec![implemented(0, vec![var(0, 0), var(1, 0), var(2, 5)])])]));
    assert_eq!(
        ty.shift_bound_vars(DebruijnIndex::new(2)),
        Ty::Tuple(
            2,
            Substs(vec![var(2, 1), Ty::Dyn(vec![implemented(0, vec![var(0, 0), var(3, 0), var(4, 5)])])])
        )
    );
    assert_eq!(var(u32::MAX, 0).shift_bound_vars(DebruijnIndex::new(1)), Ty::Unknown);
    let substs = Substs(vec![Ty::Never, var(0, 7)]);
    assert_eq!(
        ty.subst_bound_vars(&substs),
        Ty::Tuple(
            2,
            Substs(vec![var(0, 7), Ty::Dyn(vec![implemented(0, vec![var(0, 0), Ty::Never, var(1, 5)])])])
        )
    );
    // A variable without an entry becomes `Unknown`.
    assert_eq!(var(0, 2).subst_bound_vars(&substs), Ty::Unknown);
    // An entry is moved in to where it is put.
    assert_eq!(
        Ty::Dyn(vec![implemented(0, vec![var(1, 1)])]).subst_bound_vars(&substs),
        Ty::Dyn(vec![implemented(0, vec![var(1, 7)])])
    );
    let binders = Binders { num_binders: 2, value: var(0, 0) };
    assert_eq!(binders.subst(&substs), Ty::Never);
    assert_eq!(ty.duplicate(), ty);
    assert_eq!(DebruijnIndex::new(3).shifted_out_to(DebruijnIndex::new(2)), Some(DebruijnIndex::new(1)));
    assert_eq!(DebruijnIndex::new(1).shifted_out_to(DebruijnIndex::new(2)), None);
    assert_eq!(DebruijnIndex::new(2).shifted_in_from(DebruijnIndex::new(3)), Some(DebruijnIndex::new(5)));
    assert_eq!(DebruijnIndex::new(u32::MAX).shifted_in(), None);
}

#[test]
fn const_param_and_static_lower_with_placeholders() {
    let mut db = db_with_generic_fn(Vec::new(), TypeRef::Never);
    db.functions[0].item.generic_params.consts.push(ConstParamData { name: Name(60), ty: path_ty(&[T]) });
    assert_eq!(
        hir_ty::queries::const_param_ty_query(
            &db,
            hir_ty::ids::ConstParamId { parent: GenericDefId::FunctionId(FunctionId(0)), local_id: 0 }
        ),
        Ty::Placeholder(fn_param(0, 0))
    );
    db.statics.push(StaticData {
        krate: CrateId(0),
        resolver: Resolver { generic_def: None, type_ns: builtin_entries(), where_predicates: Vec::new() },
        type_ref: TypeRef::Array(Box::new(path_ty(&[I32]))),
    });
    assert_eq!(
        hir_ty::queries::type_for_static(&db, hir_ty::ids::StaticId(0)),
        Binders { num_binders: 0, value: Ty::Array(Box::new(i32_ty())) }
    );
}

#[test]
fn arguments_that_start_with_the_self_type() {
    // `<i32 as Other<!>>`: the arguments written for the trait start with the
    // self type.
    let mut db = db_with_generic_fn(Vec::new(), TypeRef::Never);
    db.traits.push(trait_data(Resolver::new(Some(GenericDefId::TraitId(TraitId(1)))), 1, Vec::new()));
    let other = GenericDefId::TraitId(TraitId(1));
    let with_self = PathSegment {
        name: OTHER,
        args_and_bindings: Some(GenericArgs {
            args: vec![GenericArg::Type(path_ty(&[I32])), GenericArg::Type(TypeRef::Never)],
            has_self_type: true,
            bindings: Vec::new(),
        }),
    };
    let mut ctx = variable_ctx(&db, fn_resolver(&db));
    assert_eq!(ctx.substs_from_path_segment(&with_self, Some(other), false), Substs(vec![i32_ty(), Ty::Never]));
    // Without the self type its place is unknown.
    let without_self = seg_args(OTHER, vec![TypeRef::Never]);
    assert_eq!(
        ctx.substs_from_path_segment(&without_self, Some(other), false),
        Substs(vec![Ty::Unknown, Ty::Never])
    );
    // A definition without a `Self` parameter does not take the self type.
    let f = GenericDefId::FunctionId(FunctionId(0));
    assert_eq!(ctx.substs_from_path_segment(&with_self, Some(f), false), Substs(vec![Ty::Never]));
    // A trait reference takes the explicit self type in its first place.
    let trait_ref = ctx.lower_trait_ref_from_resolved_path(TraitId(1), &without_self, Some(i32_ty()));
    assert_eq!(trait_ref, TraitRef { trait_: TraitId(1), substs: Substs(vec![i32_ty(), Ty::Never]) });
    let trait_ref = ctx.lower_trait_ref_from_resolved_path(TraitId(1), &without_self, None);
    assert_eq!(trait_ref, TraitRef { trait_: TraitId(1), substs: Substs(vec![Ty::Unknown, Ty::Never]) });
}

#[test]
fn inherited_parameters_are_unknown_in_a_substitution() {
    // impl<A> .. { fn g<B>() }: a path to `g::<i32>` says nothing of `A`.
    let mut db = db_with_generic_fn(Vec::new(), TypeRef::Never);
    db.impls.push(ImplData {
        item: item(
            Resolver::new(Some(GenericDefId::ImplId(ImplId(0)))),
            vec![type_param(TypeParamProvenance::TypeParamList, None)],
        ),
        target_type: TypeRef::Never,
        target_trait: None,
        self_ty: None,
        trait_ref: None,
    });
    db.functions[0].container = AssocContainerId::ImplId(ImplId(0));
    let f = GenericDefId::FunctionId(FunctionId(0));
    let mut ctx = variable_ctx(&db, fn_resolver(&db));
    assert_eq!(
        ctx.substs_from_path_segment(&seg_args(Name(5), vec![path_ty(&[I32])]), Some(f), true),
        Substs(vec![Ty::Unknown, i32_ty()])
    );
    assert_eq!(ctx.substs_from_path_segment(&seg(Name(5)), Some(f), true), Substs(vec![Ty::Unknown, Ty::Unknown]));
    // The parameter of the function now comes after that of the impl.
    assert_eq!(ctx.lower_ty(&path_ty(&[T])), var(0, 1));
}

#[test]
fn trait_path_with_more_than_one_remaining_segment_is_unknown() {
    let mut db = db_with_supertrait();
    db.functions[0].item.resolver.type_ns.push(entry(&[TRAIT, ITEM, ITEM], TypeNs::TraitId(TraitId(1)), Some(1)));
    let mut ctx = variable_ctx(&db, fn_resolver(&db));
    assert_eq!(ctx.lower_ty(&path_ty(&[TRAIT, ITEM, ITEM])), Ty::Unknown);
    // An answer of name resolution that does not fit the path is no answer.
    db.functions[0].item.resolver.type_ns.push(entry(&[ALIAS], TypeNs::TraitId(TraitId(1)), Some(0)));
    db.functions[0].item.resolver.type_ns.push(entry(&[S], TypeNs::TraitId(TraitId(1)), Some(2)));
    let mut ctx = variable_ctx(&db, fn_resolver(&db));
    assert_eq!(ctx.lower_ty(&path_ty(&[ALIAS])), Ty::Unknown);
    assert_eq!(ctx.lower_ty(&path_ty(&[S])), Ty::Unknown);
}

#[test]
fn anchored_path_without_segments_is_its_anchor() {
    let db = db_with_generic_fn(Vec::new(), TypeRef::Never);
    let mut ctx = variable_ctx(&db, fn_resolver(&db));
    let anchored = TypeRef::Path(Path { type_anchor: Some(Box::new(path_ty(&[T]))), segments: Vec::new() });
    assert_eq!(ctx.lower_ty_ext(&anchored), (var(0, 0), Some(TypeNs::GenericParam(fn_param(0, 0)))));
    assert_eq!(ctx.lower_ty_ext(&TypeRef::Never), (Ty::Never, None));
}

#[test]
fn where_predicates_lower_by_their_target() {
    let db = db_with_generic_fn(Vec::new(), TypeRef::Never);
    let mut ctx = variable_ctx(&db, fn_resolver(&db));
    ctx.in_binders = DebruijnIndex::new(2);
    // A target given as a parameter counts from the binder of the generic
    // parameters, whatever the depth of the pass.
    let on_param = WherePredicate::TypeBound { target: WherePredicateTypeTarget::TypeParam(0), bound: bound(TRAIT) };
    assert_eq!(ctx.lower_where_predicate(&on_param), vec![implemented(0, vec![var(0, 0)])]);
    let on_type = WherePredicate::ForLifetime {
        lifetimes: vec![Name(7)],
        target: WherePredicateTypeTarget::TypeRef(path_ty(&[T])),
        bound: bound(TRAIT),
    };
    assert_eq!(ctx.lower_where_predicate(&on_type), vec![implemented(0, vec![var(2, 0)])]);
    let on_lifetime = WherePredicate::Lifetime {
        target: LifetimeRef { name: Name(7) },
        bound: LifetimeRef { name: Name(8) },
    };
    assert_eq!(ctx.lower_where_predicate(&on_lifetime), Vec::new());
    let mut placeholder = TyLoweringContext::new(&db, fn_resolver(&db));
    assert_eq!(
        placeholder.lower_where_predicate(&on_param),
        vec![implemented(0, vec![Ty::Placeholder(fn_param(0, 0))])]
    );
    assert_eq!(
        ctx.lower_type_bound(&TypeBound::Error, Ty::Never),
        vec![GenericPredicate::Error]
    );
    assert_eq!(ctx.lower_type_bound(&TypeBound::Lifetime(LifetimeRef { name: Name(7) }), Ty::Never), Vec::new());
    assert_eq!(ctx.lower_trait_ref(&TypeRef::Never, None), None);
    assert_eq!(
        ctx.lower_trait_ref(&path_ty(&[TRAIT]), Some(Ty::Never)),
        Some(TraitRef { trait_: TraitId(0), substs: Substs(vec![Ty::Never]) })
    );
    assert_eq!(ctx.lower_trait_ref(&path_ty(&[T]), None), None);
    let data = ctx.lower_impl_trait(&vec![bound(TRAIT)]);
    assert_eq!(data.bounds, Binders { num_binders: 1, value: vec![implemented(0, vec![var(0, 0)])] });
}
