use hir_ty::binders::Binders;
use hir_ty::db::{
    AssocItemId, ConstData, Database, EnumData, FieldData, FunctionData, GenericParams, ImplData,
    ItemData, Resolver, StaticData, StructData, StructKind, TraitData, TypeAliasData, TypeNs,
    TypeNsEntry, TypeParamData, TypeParamProvenance, UnionData, VariantData,
};
use hir_ty::field_map::{field_type, field_types_query};
use hir_ty::generics::generics;
use hir_ty::ids::{
    AdtId, AssocContainerId, BuiltinInt, BuiltinType, ConstId, CrateId, EnumId, EnumVariantId,
    FunctionId, GenericDefId, ImplId, Name, OpaqueTyId, StaticId, StructId, TraitId, TyDefId,
    TypeAliasId, TypeParamId, UnionId, ValueTyDefId, VariantId,
};
use hir_ty::lower::{ty_recover, type_for_adt, TyLoweringContext};
use hir_ty::queries::{
    callable_item_sig, fn_sig_for_fn, generic_defaults_query, generic_predicates_for_param_query,
    generic_predicates_for_param_recover, generic_predicates_query, impl_self_ty_query,
    impl_trait_query, return_type_impl_traits, trait_environment_query, ty_query, type_for_fn,
    value_ty_query, CallableSig,
};
use hir_ty::semantics::{ImplTraitLoweringMode, TypeParamLoweringMode};
use hir_ty::traits::{
    all_super_trait_refs, associated_type_by_name_including_super_traits,
    associated_type_shorthand_candidates, shorthand_candidate_list,
};
use hir_ty::ty::{
    AliasTy, BoundVar, CallableDefId, DebruijnIndex, GenericPredicate, OpaqueTy, ProjectionTy, Substs,
    TraitRef, Ty,
};
use hir_ty::type_ref::{
    GenericArg, GenericArgs, LifetimeRef, Path, PathSegment, TypeBound, TypeRef, WherePredicate,
    WherePredicateTypeTarget,
};

const T: Name = Name(1);
const U: Name = Name(2);
const ITEM: Name = Name(3);
const TRAIT: Name = Name(10);
const OTHER: Name = Name(12);
const S: Name = Name(20);
const I32: Name = Name(30);

fn seg(name: Name) -> PathSegment {
    PathSegment { name, args_and_bindings: None }
}

fn seg_args(name: Name, args: Vec<TypeRef>) -> PathSegment {
    PathSegment {
        name,
        args_and_bindings: Some(GenericArgs {
            args: args.into_iter().map(GenericArg::Type).collect(),
            has_self_type: false,
            bindings: Vec::new(),
        }),
    }
}

fn path(names: &[Name]) -> Path {
    Path { type_anchor: None, segments: names.iter().map(|n| seg(*n)).collect() }
}

fn path_ty(names: &[Name]) -> TypeRef {
    TypeRef::Path(path(names))
}

fn bound(name: Name) -> TypeBound {
    TypeBound::Path(path(&[name]))
}

fn entry(names: &[Name], resolution: TypeNs, remaining_index: Option<usize>) -> TypeNsEntry {
    TypeNsEntry { path: names.to_vec(), resolution, remaining_index }
}

fn type_param(provenance: TypeParamProvenance) -> TypeParamData {
    TypeParamData { name: None, default: None, provenance }
}

fn item(krate: u32, resolver: Resolver, types: Vec<TypeParamData>) -> ItemData {
    ItemData {
        krate: CrateId(krate),
        generic_params: GenericParams { types, consts: Vec::new() },
        resolver,
        generic_defaults: Vec::new(),
        param_predicates: Vec::new(),
    }
}

fn var(depth: u32, index: usize) -> Ty {
    Ty::BoundVar(BoundVar { debruijn: DebruijnIndex { depth }, index })
}

fn i32_ty() -> Ty {
    Ty::Builtin(BuiltinType::Int(BuiltinInt::I32))
}

fn i32_entry() -> TypeNsEntry {
    entry(&[I32], TypeNs::BuiltinType(BuiltinType::Int(BuiltinInt::I32)), None)
}

fn implemented(trait_: u32, substs: Vec<Ty>) -> GenericPredicate {
    GenericPredicate::Implemented(TraitRef { trait_: TraitId(trait_), substs: Substs(substs) })
}

fn trait_data(id: u32, extra_params: usize, items: Vec<(Name, AssocItemId)>) -> TraitData {
    let mut types = vec![type_param(TypeParamProvenance::TraitSelf)];
    for _ in 0..extra_params {
        types.push(type_param(TypeParamProvenance::TypeParamList));
    }
    TraitData { item: item(0, Resolver::new(Some(GenericDefId::TraitId(TraitId(id)))), types), items }
}

fn fn_param(f: u32, local_id: u32) -> TypeParamId {
    TypeParamId { parent: GenericDefId::FunctionId(FunctionId(f)), local_id }
}

fn fn_def() -> GenericDefId {
    GenericDefId::FunctionId(FunctionId(0))
}

/// `trait Trait`, `fn f<T: Trait>(params) -> ret`.
fn db_with_generic_fn(params: Vec<TypeRef>, ret_type: TypeRef) -> Database {
    let mut db = Database::new();
    db.traits.push(trait_data(0, 0, Vec::new()));
    let resolver = Resolver {
        generic_def: Some(fn_def()),
        type_ns: vec![
            i32_entry(),
            entry(&[T], TypeNs::GenericParam(fn_param(0, 0)), None),
            entry(&[TRAIT], TypeNs::TraitId(TraitId(0)), None),
        ],
        where_predicates: vec![WherePredicate::TypeBound {
            target: WherePredicateTypeTarget::TypeParam(0),
            bound: bound(TRAIT),
        }],
    };
    db.functions.push(FunctionData {
        item: item(7, resolver, vec![type_param(TypeParamProvenance::TypeParamList)]),
        container: AssocContainerId::Module,
        params,
        ret_type,
        is_varargs: false,
    });
    db
}

#[test]
fn generic_function_signature_uses_one_variable_for_its_parameter() {
    // fn f<T: Clone>(x: T) -> T
    let db = db_with_generic_fn(vec![path_ty(&[T])], path_ty(&[T]));
    let sig = callable_item_sig(&db, CallableDefId::FunctionId(FunctionId(0)));
    assert_eq!(
        sig,
        Binders {
            num_binders: 1,
            value: CallableSig { params_and_return: vec![var(0, 0), var(0, 0)], is_varargs: false },
        }
    );
    assert_eq!(sig.value.params_and_return[0], sig.value.params_and_return[1]);
    assert!(sig.value.params_and_return.iter().all(|ty| !matches!(ty, Ty::Placeholder(_))));
    assert_eq!(
        type_for_fn(&db, FunctionId(0)),
        Binders {
            num_binders: 1,
            value: Ty::FunctionDef(CallableDefId::FunctionId(FunctionId(0)), Substs(vec![var(0, 0)])),
        }
    );
    assert_eq!(value_ty_query(&db, ValueTyDefId::FunctionId(FunctionId(0))), type_for_fn(&db, FunctionId(0)));
}

#[test]
fn function_signature_with_impl_trait() {
    // fn f<T: Trait>(a: impl Trait, b: (i32, impl Trait), ...) -> impl Trait
    let mut db = db_with_generic_fn(
        vec![
            TypeRef::ImplTrait(vec![bound(TRAIT)]),
            TypeRef::Tuple(vec![path_ty(&[I32]), TypeRef::ImplTrait(vec![bound(TRAIT)])]),
        ],
        TypeRef::ImplTrait(vec![bound(TRAIT)]),
    );
    db.functions[0].is_varargs = true;
    db.functions[0].item.generic_params.types.push(type_param(TypeParamProvenance::ArgumentImplTrait));
    db.functions[0].item.generic_params.types.push(type_param(TypeParamProvenance::ArgumentImplTrait));
    let all_params = vec![var(0, 0), var(0, 1), var(0, 2)];
    let opaque = Ty::Alias(AliasTy::Opaque(OpaqueTy {
        opaque_ty_id: OpaqueTyId { func: FunctionId(0), idx: 0 },
        substitution: Substs(all_params),
    }));
    assert_eq!(
        fn_sig_for_fn(&db, FunctionId(0)),
        Binders {
            num_binders: 3,
            value: CallableSig {
                params_and_return: vec![var(0, 1), Ty::Tuple(2, Substs(vec![i32_ty(), var(0, 2)])), opaque],
                is_varargs: true,
            },
        }
    );
    let impl_traits = return_type_impl_traits(&db, FunctionId(0)).expect("one opaque type");
    assert_eq!(impl_traits.num_binders, 3);
    assert_eq!(impl_traits.value.impl_traits.len(), 1);
    assert_eq!(
        impl_traits.value.impl_traits[0].bounds,
        Binders { num_binders: 1, value: vec![implemented(0, vec![var(0, 0)])] }
    );
}

#[test]
fn function_without_impl_trait_has_no_opaque_types() {
    let db = db_with_generic_fn(vec![path_ty(&[T])], path_ty(&[T]));
    assert_eq!(return_type_impl_traits(&db, FunctionId(0)), None);
}

#[test]
fn predicates_of_a_definition() {
    let mut db = db_with_generic_fn(Vec::new(), TypeRef::Never);
    db.functions[0].item.resolver.where_predicates.push(WherePredicate::Lifetime {
        target: LifetimeRef { name: Name(7) },
        bound: LifetimeRef { name: Name(8) },
    });
    db.functions[0].item.resolver.where_predicates.push(WherePredicate::ForLifetime {
        lifetimes: vec![Name(7)],
        target: WherePredicateTypeTarget::TypeRef(TypeRef::Tuple(vec![path_ty(&[T])])),
        bound: bound(Name(999)),
    });
    assert_eq!(
        generic_predicates_query(&db, fn_def()),
        vec![
            Binders { num_binders: 1, value: implemented(0, vec![var(0, 0)]) },
            Binders { num_binders: 1, value: GenericPredicate::Error },
        ]
    );
    // Only the predicate whose target is `T` by its shape is on `T`.
    assert_eq!(
        generic_predicates_for_param_query(&db, fn_param(0, 0)),
        vec![Binders { num_binders: 1, value: implemented(0, vec![var(0, 0)]) }]
    );
    assert_eq!(generic_predicates_for_param_query(&db, fn_param(0, 5)), Vec::new());
    assert_eq!(generic_predicates_for_param_recover(&db, fn_param(0, 0)), Vec::new());
}

#[test]
fn mutually_referential_bounds_give_a_result() {
    // fn f<T: Other<U::Item>, U: Other<T::Item>>()
    let mut db = Database::new();
    db.type_aliases.push(TypeAliasData {
        item: item(0, Resolver::new(Some(GenericDefId::TypeAliasId(TypeAliasId(0)))), Vec::new()),
        container: AssocContainerId::TraitId(TraitId(0)),
        type_ref: None,
        is_extern: false,
        ty: None,
    });
    db.traits.push(trait_data(0, 1, vec![(ITEM, AssocItemId::TypeAliasId(TypeAliasId(0)))]));
    let other_of = |arg: Name| {
        TypeBound::Path(Path {
            type_anchor: None,
            segments: vec![seg_args(OTHER, vec![path_ty(&[arg, ITEM])])],
        })
    };
    let resolver = Resolver {
        generic_def: Some(fn_def()),
        type_ns: vec![
            entry(&[T], TypeNs::GenericParam(fn_param(0, 0)), None),
            entry(&[U], TypeNs::GenericParam(fn_param(0, 1)), None),
            entry(&[T, ITEM], TypeNs::GenericParam(fn_param(0, 0)), Some(1)),
            entry(&[U, ITEM], TypeNs::GenericParam(fn_param(0, 1)), Some(1)),
            entry(&[OTHER], TypeNs::TraitId(TraitId(0)), None),
        ],
        where_predicates: vec![
            WherePredicate::TypeBound {
                target: WherePredicateTypeTarget::TypeRef(path_ty(&[T])),
                bound: other_of(U),
            },
            WherePredicate::TypeBound {
                target: WherePredicateTypeTarget::TypeRef(path_ty(&[U])),
                bound: other_of(T),
            },
        ],
    };
    db.functions.push(FunctionData {
        item: item(
            0,
            resolver,
            vec![type_param(TypeParamProvenance::TypeParamList), type_param(TypeParamProvenance::TypeParamList)],
        ),
        container: AssocContainerId::Module,
        params: Vec::new(),
        ret_type: TypeRef::Never,
        is_varargs: false,
    });
    // Nothing is known of `U` yet, so `U::Item` is unknown; the query on `T`
    // does not ask for the predicates on `U` to be computed.
    let on_t = generic_predicates_for_param_query(&db, fn_param(0, 0));
    assert_eq!(on_t, vec![Binders { num_binders: 2, value: implemented(0, vec![var(0, 0), Ty::Unknown]) }]);
    let on_u = generic_predicates_for_param_query(&db, fn_param(0, 1));
    assert_eq!(on_u, vec![Binders { num_binders: 2, value: implemented(0, vec![var(0, 1), Ty::Unknown]) }]);
    // With the answer for `T` stored, `T::Item` in the bound of `U` resolves.
    db.functions[0].item.param_predicates = vec![on_t];
    let on_u = generic_predicates_for_param_query(&db, fn_param(0, 1));
    let t_item = Ty::Alias(AliasTy::Projection(ProjectionTy {
        associated_ty_id: TypeAliasId(0),
        substitution: Substs(vec![var(0, 0), Ty::Unknown]),
    }));
    assert_eq!(on_u, vec![Binders { num_binders: 2, value: implemented(0, vec![var(0, 1), t_item]) }]);
}

#[test]
fn trait_environment_of_a_function() {
    let mut db = db_with_generic_fn(Vec::new(), TypeRef::Never);
    db.functions[0].item.resolver.where_predicates.push(WherePredicate::TypeBound {
        target: WherePredicateTypeTarget::TypeRef(path_ty(&[I32])),
        bound: bound(Name(999)),
    });
    let env = trait_environment_query(&db, fn_def());
    let t = Ty::Placeholder(fn_param(0, 0));
    assert_eq!(env.traits_from_clauses, vec![(Ty::Placeholder(fn_param(0, 0)), TraitId(0))]);
    assert_eq!(env.env, vec![implemented(0, vec![t])]);
}

#[test]
fn trait_environment_inside_a_trait_has_self_implement_the_trait() {
    // trait Trait<A> { fn f(); }
    let mut db = Database::new();
    db.traits.push(trait_data(0, 1, vec![(Name(5), AssocItemId::FunctionId(FunctionId(0)))]));
    db.functions.push(FunctionData {
        item: item(0, Resolver::new(Some(fn_def())), Vec::new()),
        container: AssocContainerId::TraitId(TraitId(0)),
        params: Vec::new(),
        ret_type: TypeRef::Never,
        is_varargs: false,
    });
    let env = trait_environment_query(&db, fn_def());
    let trait_def = GenericDefId::TraitId(TraitId(0));
    assert!(env.traits_from_clauses.is_empty());
    assert_eq!(
        env.env,
        vec![implemented(
            0,
            vec![
                Ty::Placeholder(TypeParamId { parent: trait_def, local_id: 0 }),
                Ty::Placeholder(TypeParamId { parent: trait_def, local_id: 1 }),
            ]
        )]
    );
    // The function inherits the parameters of the trait.
    let g = generics(&db, fn_def());
    assert_eq!(g.len(), 2);
    assert_eq!(g.provenance_split(), (2, 0, 0, 0));
    assert_eq!(generics(&db, trait_def).provenance_split(), (0, 1, 1, 0));
    assert_eq!(g.param_idx(TypeParamId { parent: trait_def, local_id: 1 }), Some(1));
    assert_eq!(g.param_idx(fn_param(0, 0)), None);
}

/// `struct S<A>(A, i32)` at 0, `struct Unit` at 1, `enum E<A> { V(A), W }`,
/// `union Un<A> { f: A }`.
fn db_with_data_types() -> Database {
    let mut db = Database::new();
    let field = |t: TypeRef| FieldData { name: Name(0), type_ref: t };
    let scope = |def: GenericDefId| Resolver {
        generic_def: Some(def),
        type_ns: vec![
            i32_entry(),
            entry(&[T], TypeNs::GenericParam(TypeParamId { parent: def, local_id: 0 }), None),
            entry(&[S], TypeNs::AdtId(AdtId::StructId(StructId(0))), None),
        ],
        where_predicates: Vec::new(),
    };
    let s = GenericDefId::AdtId(AdtId::StructId(StructId(0)));
    db.structs.push(StructData {
        item: item(3, scope(s), vec![type_param(TypeParamProvenance::TypeParamList)]),
        variant_data: VariantData {
            kind: StructKind::Tuple,
            fields: vec![field(path_ty(&[T])), field(path_ty(&[I32]))],
        },
    });
    let unit = GenericDefId::AdtId(AdtId::StructId(StructId(1)));
    db.structs.push(StructData {
        item: item(3, scope(unit), Vec::new()),
        variant_data: VariantData { kind: StructKind::Unit, fields: Vec::new() },
    });
    let e = GenericDefId::AdtId(AdtId::EnumId(EnumId(0)));
    db.enums.push(EnumData {
        item: item(4, scope(e), vec![type_param(TypeParamProvenance::TypeParamList)]),
        variants: vec![
            VariantData { kind: StructKind::Tuple, fields: vec![field(path_ty(&[T]))] },
            VariantData { kind: StructKind::Unit, fields: Vec::new() },
        ],
    });
    let un = GenericDefId::AdtId(AdtId::UnionId(UnionId(0)));
    db.unions.push(UnionData {
        item: item(5, scope(un), vec![type_param(TypeParamProvenance::TypeParamList)]),
        variant_data: VariantData { kind: StructKind::Record, fields: vec![field(path_ty(&[T]))] },
    });
    db
}

fn adt(id: AdtId, args: Vec<Ty>) -> Ty {
    Ty::Adt(id, Substs(args))
}

#[test]
fn constructors_of_structs_and_variants() {
    let db = db_with_data_types();
    let s = AdtId::StructId(StructId(0));
    assert_eq!(
        callable_item_sig(&db, CallableDefId::StructId(StructId(0))),
        Binders {
            num_binders: 1,
            value: CallableSig {
                params_and_return: vec![var(0, 0), i32_ty(), adt(s, vec![var(0, 0)])],
                is_varargs: false,
            },
        }
    );
    assert_eq!(
        value_ty_query(&db, ValueTyDefId::StructId(StructId(0))),
        Binders {
            num_binders: 1,
            value: Ty::FunctionDef(CallableDefId::StructId(StructId(0)), Substs(vec![var(0, 0)])),
        }
    );
    // A unit struct has no constructor function: its value is of the struct type.
    assert_eq!(
        value_ty_query(&db, ValueTyDefId::StructId(StructId(1))),
        Binders { num_binders: 0, value: adt(AdtId::StructId(StructId(1)), Vec::new()) }
    );
    let e = AdtId::EnumId(EnumId(0));
    let v = EnumVariantId { parent: EnumId(0), local_id: 0 };
    let w = EnumVariantId { parent: EnumId(0), local_id: 1 };
    assert_eq!(
        callable_item_sig(&db, CallableDefId::EnumVariantId(v)),
        Binders {
            num_binders: 1,
            value: CallableSig {
                params_and_return: vec![var(0, 0), adt(e, vec![var(0, 0)])],
                is_varargs: false,
            },
        }
    );
    assert_eq!(
        value_ty_query(&db, ValueTyDefId::EnumVariantId(v)),
        Binders {
            num_binders: 1,
            value: Ty::FunctionDef(CallableDefId::EnumVariantId(v), Substs(vec![var(0, 0)])),
        }
    );
    assert_eq!(
        value_ty_query(&db, ValueTyDefId::EnumVariantId(w)),
        Binders { num_binders: 1, value: adt(e, vec![var(0, 0)]) }
    );
    assert_eq!(
        value_ty_query(&db, ValueTyDefId::UnionId(UnionId(0))),
        Binders { num_binders: 1, value: adt(AdtId::UnionId(UnionId(0)), vec![var(0, 0)]) }
    );
}

#[test]
fn declared_types() {
    let db = db_with_data_types();
    let s = AdtId::StructId(StructId(0));
    assert_eq!(
        ty_query(&db, TyDefId::BuiltinType(BuiltinType::Bool)),
        Binders { num_binders: 0, value: Ty::Builtin(BuiltinType::Bool) }
    );
    assert_eq!(ty_query(&db, TyDefId::AdtId(s)), Binders { num_binders: 1, value: adt(s, vec![var(0, 0)]) });
    assert_eq!(type_for_adt(&db, s), ty_query(&db, TyDefId::AdtId(s)));
    assert_eq!(db.ty(TyDefId::AdtId(s)), ty_query(&db, TyDefId::AdtId(s)));
    assert_eq!(ty_recover(&db, TyDefId::AdtId(s)), Binders { num_binders: 1, value: Ty::Unknown });
    assert_eq!(
        ty_recover(&db, TyDefId::BuiltinType(BuiltinType::Char)),
        Binders { num_binders: 0, value: Ty::Unknown }
    );
}

#[test]
fn extern_type_alias_is_a_foreign_type() {
    let mut db = Database::new();
    db.type_aliases.push(TypeAliasData {
        item: item(
            0,
            Resolver::new(Some(GenericDefId::TypeAliasId(TypeAliasId(0)))),
            vec![type_param(TypeParamProvenance::TypeParamList)],
        ),
        container: AssocContainerId::Module,
        type_ref: None,
        is_extern: true,
        ty: None,
    });
    assert_eq!(
        ty_query(&db, TyDefId::TypeAliasId(TypeAliasId(0))),
        Binders { num_binders: 0, value: Ty::ForeignType(TypeAliasId(0)) }
    );
    // An alias that stands for nothing is unknown, under its parameters.
    db.type_aliases[0].is_extern = false;
    assert_eq!(
        ty_query(&db, TyDefId::TypeAliasId(TypeAliasId(0))),
        Binders { num_binders: 1, value: Ty::Unknown }
    );
}

#[test]
fn field_types_are_keyed_by_position() {
    let db = db_with_data_types();
    let fields = field_types_query(&db, VariantId::StructId(StructId(0)));
    assert_eq!(field_type(&fields, 0), Some(&Binders { num_binders: 1, value: var(0, 0) }));
    assert_eq!(field_type(&fields, 1), Some(&Binders { num_binders: 1, value: i32_ty() }));
    assert_eq!(field_type(&fields, 2), None);
    let none = field_types_query(&db, VariantId::StructId(StructId(1)));
    assert_eq!(field_type(&none, 0), None);
    let variant = field_types_query(&db, VariantId::EnumVariantId(EnumVariantId { parent: EnumId(0), local_id: 0 }));
    assert_eq!(field_type(&variant, 0), Some(&Binders { num_binders: 1, value: var(0, 0) }));
    let union_fields = field_types_query(&db, VariantId::UnionId(UnionId(0)));
    assert_eq!(field_type(&union_fields, 0), Some(&Binders { num_binders: 1, value: var(0, 0) }));
}

#[test]
fn crate_of_a_callable_item() {
    let mut db = db_with_data_types();
    db.functions.push(FunctionData {
        item: item(9, Resolver::new(Some(fn_def())), Vec::new()),
        container: AssocContainerId::Module,
        params: Vec::new(),
        ret_type: TypeRef::Never,
        is_varargs: false,
    });
    assert_eq!(CallableDefId::FunctionId(FunctionId(0)).krate(&db), CrateId(9));
    assert_eq!(CallableDefId::StructId(StructId(0)).krate(&db), CrateId(3));
    assert_eq!(
        CallableDefId::EnumVariantId(EnumVariantId { parent: EnumId(0), local_id: 1 }).krate(&db),
        CrateId(4)
    );
}

#[test]
fn const_has_the_parameters_of_its_impl() {
    // impl<A> S<A> { const C: A; }
    let mut db = db_with_data_types();
    let impl_def = GenericDefId::ImplId(ImplId(0));
    db.impls.push(ImplData {
        item: item(
            0,
            Resolver {
                generic_def: Some(impl_def),
                type_ns: vec![
                    entry(&[T], TypeNs::GenericParam(TypeParamId { parent: impl_def, local_id: 0 }), None),
                    entry(&[S], TypeNs::AdtId(AdtId::StructId(StructId(0))), None),
                    entry(&[TRAIT], TypeNs::TraitId(TraitId(0)), None),
                ],
                where_predicates: Vec::new(),
            },
            vec![type_param(TypeParamProvenance::TypeParamList)],
        ),
        target_type: TypeRef::Path(Path { type_anchor: None, segments: vec![seg_args(S, vec![path_ty(&[T])])] }),
        target_trait: Some(TypeRef::Path(Path {
            type_anchor: None,
            segments: vec![seg_args(TRAIT, vec![path_ty(&[T])])],
        })),
        self_ty: None,
        trait_ref: None,
    });
    db.traits.push(trait_data(0, 1, Vec::new()));
    let const_def = GenericDefId::ConstId(ConstId(0));
    db.consts.push(ConstData {
        item: item(
            0,
            Resolver {
                generic_def: Some(const_def),
                type_ns: vec![entry(
                    &[T],
                    TypeNs::GenericParam(TypeParamId { parent: impl_def, local_id: 0 }),
                    None,
                )],
                where_predicates: Vec::new(),
            },
            Vec::new(),
        ),
        container: AssocContainerId::ImplId(ImplId(0)),
        type_ref: path_ty(&[T]),
    });
    assert_eq!(
        value_ty_query(&db, ValueTyDefId::ConstId(ConstId(0))),
        Binders { num_binders: 1, value: var(0, 0) }
    );

    // The trait of the impl, for the self type as the database has it.
    let s = AdtId::StructId(StructId(0));
    let self_ty = impl_self_ty_query(&db, ImplId(0));
    assert_eq!(self_ty, Binders { num_binders: 1, value: adt(s, vec![var(0, 0)]) });
    // Before the self type is stored, the trait is implemented for `Unknown`.
    assert_eq!(
        impl_trait_query(&db, ImplId(0)),
        Some(Binders {
            num_binders: 1,
            value: TraitRef { trait_: TraitId(0), substs: Substs(vec![Ty::Unknown, var(0, 0)]) },
        })
    );
    db.impls[0].self_ty = Some(self_ty);
    let trait_ref = impl_trait_query(&db, ImplId(0)).expect("the impl has a trait");
    assert_eq!(
        trait_ref,
        Binders {
            num_binders: 1,
            value: TraitRef { trait_: TraitId(0), substs: Substs(vec![adt(s, vec![var(0, 0)]), var(0, 0)]) },
        }
    );
    db.impls[0].target_trait = Some(TypeRef::Never);
    assert_eq!(impl_trait_query(&db, ImplId(0)), None);
    db.impls[0].target_trait = None;
    assert_eq!(impl_trait_query(&db, ImplId(0)), None);
}

#[test]
fn static_stands_under_no_binder() {
    let mut db = Database::new();
    db.statics.push(StaticData {
        krate: CrateId(0),
        resolver: Resolver { generic_def: None, type_ns: vec![i32_entry()], where_predicates: Vec::new() },
        type_ref: TypeRef::Slice(Box::new(path_ty(&[I32]))),
    });
    assert_eq!(
        value_ty_query(&db, ValueTyDefId::StaticId(StaticId(0))),
        Binders { num_binders: 0, value: Ty::Slice(Box::new(i32_ty())) }
    );
}

#[test]
fn generic_arguments_of_an_enum_variant_path() {
    // enum E<A> { V(A), W }: `E::<i32>::V`, `E::V::<i32>`, `E::V`
    let db = db_with_data_types();
    let resolver = &db.enums[0].item.resolver;
    let v = ValueTyDefId::EnumVariantId(EnumVariantId { parent: EnumId(0), local_id: 0 });
    let e = Name(21);
    let vn = Name(22);
    let mut ctx =
        TyLoweringContext::new(&db, resolver).with_type_param_mode(TypeParamLoweringMode::Variable);
    let on_enum = Path { type_anchor: None, segments: vec![seg_args(e, vec![path_ty(&[I32])]), seg(vn)] };
    assert_eq!(ctx.substs_from_path(&on_enum, v, true), Substs(vec![i32_ty()]));
    let on_variant = Path { type_anchor: None, segments: vec![seg(e), seg_args(vn, vec![path_ty(&[I32])])] };
    assert_eq!(ctx.substs_from_path(&on_variant, v, true), Substs(vec![i32_ty()]));
    let on_both = Path {
        type_anchor: None,
        segments: vec![seg_args(e, vec![path_ty(&[I32])]), seg_args(vn, vec![TypeRef::Never])],
    };
    assert_eq!(ctx.substs_from_path(&on_both, v, true), Substs(vec![i32_ty()]));
    let on_none = Path { type_anchor: None, segments: vec![seg(e), seg(vn)] };
    assert_eq!(ctx.substs_from_path(&on_none, v, true), Substs(vec![Ty::Unknown]));
    // For a struct only the last segment counts.
    assert_eq!(
        ctx.substs_from_path(&on_enum, ValueTyDefId::StructId(StructId(0)), true),
        Substs(vec![Ty::Unknown])
    );
    assert_eq!(ctx.substs_from_path(&on_variant, ValueTyDefId::StaticId(StaticId(0)), true), Substs(Vec::new()));
}

#[test]
fn only_a_bare_parameter_path_names_a_parameter() {
    let mut db = db_with_generic_fn(Vec::new(), TypeRef::Never);
    db.functions[0].item.resolver.type_ns.push(entry(&[T, ITEM], TypeNs::GenericParam(fn_param(0, 0)), Some(1)));
    let ctx = TyLoweringContext::new(&db, &db.functions[0].item.resolver)
        .with_impl_trait_mode(ImplTraitLoweringMode::Disallowed);
    assert_eq!(ctx.lower_ty_only_param(&path_ty(&[T])), Some(fn_param(0, 0)));
    assert_eq!(ctx.lower_ty_only_param(&path_ty(&[T, ITEM])), None);
    assert_eq!(ctx.lower_ty_only_param(&path_ty(&[I32])), None);
    assert_eq!(ctx.lower_ty_only_param(&path_ty(&[Name(999)])), None);
    assert_eq!(ctx.lower_ty_only_param(&TypeRef::Tuple(vec![path_ty(&[T])])), None);
    let anchored = TypeRef::Path(Path { type_anchor: Some(Box::new(TypeRef::Never)), segments: vec![seg(T)] });
    assert_eq!(ctx.lower_ty_only_param(&anchored), None);
}

#[test]
fn supertraits_that_name_each_other_are_listed_once() {
    // trait A: B, trait B: A + C, trait C { type Item; }
    let mut db = Database::new();
    let self_of = |t: u32| TypeParamId { parent: GenericDefId::TraitId(TraitId(t)), local_id: 0 };
    for id in 0..3 {
        db.traits.push(trait_data(id, 0, Vec::new()));
    }
    db.traits[2].items.push((Name(4), AssocItemId::ConstId(ConstId(0))));
    db.traits[2].items.push((ITEM, AssocItemId::TypeAliasId(TypeAliasId(0))));
    let on_self = |traits: &[u32]| {
        vec![traits.iter().map(|t| Binders { num_binders: 1, value: implemented(*t, vec![var(0, 0)]) }).collect()]
    };
    db.traits[0].item.param_predicates = on_self(&[1]);
    db.traits[1].item.param_predicates = on_self(&[0, 2]);
    let start = TraitRef { trait_: TraitId(0), substs: Substs(vec![i32_ty()]) };
    let of = |t: u32| TraitRef { trait_: TraitId(t), substs: Substs(vec![i32_ty()]) };
    assert_eq!(all_super_trait_refs(&db, start), vec![of(0), of(1), of(2)]);
    assert_eq!(
        associated_type_by_name_including_super_traits(&db, of(0), ITEM),
        Some((of(2), TypeAliasId(0)))
    );
    assert_eq!(associated_type_by_name_including_super_traits(&db, of(0), Name(4)), None);
    // Inside trait A, `Self::Item` reaches the associated type of C.
    let candidates = shorthand_candidate_list(&db, TypeNs::GenericParam(self_of(0)));
    let names: Vec<(Name, TraitId, TypeAliasId)> =
        candidates.iter().map(|c| (c.name, c.trait_ref.trait_, c.associated_ty)).collect();
    assert_eq!(names, vec![(ITEM, TraitId(2), TypeAliasId(0)), (ITEM, TraitId(2), TypeAliasId(0))]);
    assert_eq!(candidates[0].trait_ref.substs, Substs(vec![var(0, 0)]));
    assert!(shorthand_candidate_list(&db, TypeNs::TraitId(TraitId(0))).is_empty());
    // Each candidate is offered in turn until one is taken.
    let seen = std::cell::RefCell::new(Vec::new());
    let taken = associated_type_shorthand_candidates(&db, TypeNs::GenericParam(self_of(0)), |name, t, alias| {
        seen.borrow_mut().push(t.trait_);
        if *name == ITEM { Some((t.substs.0.len(), alias)) } else { None }
    });
    assert_eq!(taken, Some((1, TypeAliasId(0))));
    assert_eq!(*seen.borrow(), vec![TraitId(2)]);
    let none: Option<u8> =
        associated_type_shorthand_candidates(&db, TypeNs::GenericParam(self_of(0)), |_, _, _| None);
    assert_eq!(none, None);
}

#[test]
fn defaults_of_a_definition_without_parameters() {
    let db = db_with_data_types();
    assert_eq!(generic_defaults_query(&db, GenericDefId::AdtId(AdtId::StructId(StructId(1)))), Vec::new());
    assert_eq!(
        generic_defaults_query(&db, GenericDefId::AdtId(AdtId::StructId(StructId(0)))),
        vec![Binders { num_binders: 0, value: Ty::Unknown }]
    );
}

#[test]
fn identities_convert_into_their_sums() {
    let f = FunctionId(1);
    let s = StructId(2);
    let v = EnumVariantId { parent: EnumId(3), local_id: 4 };
    assert_eq!(CallableDefId::from(f), CallableDefId::FunctionId(f));
    assert_eq!(CallableDefId::from(s), CallableDefId::StructId(s));
    assert_eq!(CallableDefId::from(v), CallableDefId::EnumVariantId(v));
    assert_eq!(GenericDefId::from(CallableDefId::FunctionId(f)), GenericDefId::FunctionId(f));
    assert_eq!(GenericDefId::from(CallableDefId::StructId(s)), GenericDefId::AdtId(AdtId::StructId(s)));
    assert_eq!(GenericDefId::from(CallableDefId::EnumVariantId(v)), GenericDefId::EnumVariantId(v));
    assert_eq!(TyDefId::from(BuiltinType::Str), TyDefId::BuiltinType(BuiltinType::Str));
    assert_eq!(TyDefId::from(s), TyDefId::AdtId(AdtId::StructId(s)));
    assert_eq!(TyDefId::from(EnumId(3)), TyDefId::AdtId(AdtId::EnumId(EnumId(3))));
    assert_eq!(TyDefId::from(UnionId(5)), TyDefId::AdtId(AdtId::UnionId(UnionId(5))));
    assert_eq!(TyDefId::from(AdtId::StructId(s)), TyDefId::AdtId(AdtId::StructId(s)));
    assert_eq!(TyDefId::from(TypeAliasId(6)), TyDefId::TypeAliasId(TypeAliasId(6)));
    assert_eq!(ValueTyDefId::from(f), ValueTyDefId::FunctionId(f));
    assert_eq!(ValueTyDefId::from(s), ValueTyDefId::StructId(s));
    assert_eq!(ValueTyDefId::from(UnionId(5)), ValueTyDefId::UnionId(UnionId(5)));
    assert_eq!(ValueTyDefId::from(v), ValueTyDefId::EnumVariantId(v));
    assert_eq!(ValueTyDefId::from(ConstId(7)), ValueTyDefId::ConstId(ConstId(7)));
    assert_eq!(ValueTyDefId::from(StaticId(8)), ValueTyDefId::StaticId(StaticId(8)));
}
