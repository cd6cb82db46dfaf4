use hir_ty::binders::Binders;
use hir_ty::db::{
    Database, FunctionData, GenericParams, ImplData, ItemData, Resolver, StaticData, TraitData,
    TypeAliasData, TypeNs, TypeNsEntry, TypeParamData, TypeParamProvenance,
};
use hir_ty::ids::{
    AdtId, AssocContainerId, BuiltinInt, BuiltinType, CrateId, FunctionId, GenericDefId, ImplId, Name,
    StructId, TraitId, TyDefId, TypeAliasId, TypeParamId,
};
use hir_ty::queries::{
    callable_item_sig, generic_defaults_query, generic_predicates_for_param_query, generic_predicates_query,
    impl_self_ty_query, impl_trait_query, return_type_impl_traits, ty_query,
};
use hir_ty::ty::{BoundVar, CallableDefId, DebruijnIndex, GenericPredicate, Substs, TraitRef, Ty};
use hir_ty::type_ref::{
    GenericArg, GenericArgs, Path, PathSegment, TypeBound, TypeRef, WherePredicate, WherePredicateTypeTarget,
};
use hir_ty::validate::{are_closed_preds, are_closed_tys, is_closed_pred, is_closed_ty, is_item_consistent, is_scope_of};

const T: Name = Name(1);
const TRAIT: Name = Name(10);
const I32: Name = Name(30);
const ALIAS: Name = Name(40);

fn seg(name: Name) -> PathSegment {
    PathSegment { name, args_and_bindings: None }
}

fn seg_args(name: Name, args: Vec<TypeRef>) -> PathSegment {
    PathSegment {
        name,
        args_and_bindings: Some(GenericArgs {
            args: args.into_iter().map(GenericArg::Type).collect(),
            has_self_type: false,
            bindings: Vec::new(),
        }),
    }
}

fn path_ty(names: &[Name]) -> TypeRef {
    TypeRef::Path(Path { type_anchor: None, segments: names.iter().map(|n| seg(*n)).collect() })
}

fn entry(names: &[Name], resolution: TypeNs) -> TypeNsEntry {
    TypeNsEntry { path: names.to_vec(), resolution, remaining_index: None }
}

fn type_param() -> TypeParamData {
    TypeParamData { name: None, default: None, provenance: TypeParamProvenance::TypeParamList }
}

fn item(resolver: Resolver, types: Vec<TypeParamData>) -> ItemData {
    ItemData {
        krate: CrateId(0),
        generic_params: GenericParams { types, consts: Vec::new() },
        resolver,
        generic_defaults: Vec::new(),
        param_predicates: Vec::new(),
    }
}

fn var(depth: u32, index: usize) -> Ty {
    Ty::BoundVar(BoundVar { debruijn: DebruijnIndex { depth }, index })
}

fn implemented(trait_: u32, substs: Vec<Ty>) -> GenericPredicate {
    GenericPredicate::Implemented(TraitRef { trait_: TraitId(trait_), substs: Substs(substs) })
}

fn fn_def() -> GenericDefId {
    GenericDefId::FunctionId(FunctionId(0))
}

fn fn_param(local_id: u32) -> TypeParamId {
    TypeParamId { parent: fn_def(), local_id }
}

/// `trait Trait`, `type Alias<A> = (A, i32)`, `impl<A> Trait for Alias<A>`
/// and `fn f<T: Trait>(x: T, y: Alias<T>) -> impl Trait`.
fn sample_db() -> Database {
    let mut db = Database::new();
    db.traits.push(TraitData {
        item: item(
            Resolver::new(Some(GenericDefId::TraitId(TraitId(0)))),
            vec![TypeParamData { name: None, default: None, provenance: TypeParamProvenance::TraitSelf }],
        ),
        items: Vec::new(),
    });
    let alias_def = GenericDefId::TypeAliasId(TypeAliasId(0));
    db.type_aliases.push(TypeAliasData {
        item: item(
            Resolver {
                generic_def: Some(alias_def),
                type_ns: vec![
                    entry(&[I32], TypeNs::BuiltinType(BuiltinType::Int(BuiltinInt::I32))),
                    entry(&[T], TypeNs::GenericParam(TypeParamId { parent: alias_def, local_id: 0 })),
                ],
                where_predicates: Vec::new(),
            },
            vec![type_param()],
        ),
        container: AssocContainerId::Module,
        type_ref: Some(TypeRef::Tuple(vec![path_ty(&[T]), path_ty(&[I32])])),
        is_extern: false,
        ty: None,
    });
    let impl_def = GenericDefId::ImplId(ImplId(0));
    let alias_of_t = TypeRef::Path(Path { type_anchor: None, segments: vec![seg_args(ALIAS, vec![path_ty(&[T])])] });
    db.impls.push(ImplData {
        item: item(
            Resolver {
                generic_def: Some(impl_def),
                type_ns: vec![
                    entry(&[T], TypeNs::GenericParam(TypeParamId { parent: impl_def, local_id: 0 })),
                    entry(&[ALIAS], TypeNs::TypeAliasId(TypeAliasId(0))),
                    entry(&[TRAIT], TypeNs::TraitId(TraitId(0))),
                    entry(&[Name(50)], TypeNs::SelfType(ImplId(0))),
                ],
                where_predicates: Vec::new(),
            },
            vec![type_param()],
        ),
        target_type: TypeRef::Path(Path {
            type_anchor: None,
            segments: vec![seg_args(ALIAS, vec![path_ty(&[T])])],
        }),
        target_trait: Some(path_ty(&[TRAIT])),
        self_ty: None,
        trait_ref: None,
    });
    db.functions.push(FunctionData {
        item: item(
            Resolver {
                generic_def: Some(fn_def()),
                type_ns: vec![
                    entry(&[T], TypeNs::GenericParam(fn_param(0))),
                    entry(&[ALIAS], TypeNs::TypeAliasId(TypeAliasId(0))),
                    entry(&[TRAIT], TypeNs::TraitId(TraitId(0))),
                ],
                where_predicates: vec![WherePredicate::TypeBound {
                    target: WherePredicateTypeTarget::TypeRef(path_ty(&[T])),
                    bound: TypeBound::Path(Path { type_anchor: None, segments: vec![seg(TRAIT)] }),
                }],
            },
            vec![type_param()],
        ),
        container: AssocContainerId::Module,
        params: vec![path_ty(&[T]), alias_of_t],
        ret_type: TypeRef::ImplTrait(vec![TypeBound::Path(Path { type_anchor: None, segments: vec![seg(TRAIT)] })]),
        is_varargs: false,
    });
    db.statics.push(StaticData {
        krate: CrateId(0),
        resolver: Resolver {
            generic_def: None,
            type_ns: vec![entry(&[I32], TypeNs::BuiltinType(BuiltinType::Int(BuiltinInt::I32)))],
            where_predicates: Vec::new(),
        },
        type_ref: path_ty(&[I32]),
    });
    db
}

/// Evaluates the stored queries of the sample once and stores the answers.
fn store_answers(db: &mut Database) {
    let declared = ty_query(db, TyDefId::TypeAliasId(TypeAliasId(0)));
    db.store_type_alias_ty(TypeAliasId(0), declared);
    let self_ty = impl_self_ty_query(db, ImplId(0));
    db.store_impl_self_ty(ImplId(0), self_ty);
    let trait_ref = impl_trait_query(db, ImplId(0));
    db.store_impl_trait(ImplId(0), trait_ref);
    let defaults = generic_defaults_query(db, fn_def());
    db.store_generic_defaults(fn_def(), defaults);
    let on_t = generic_predicates_for_param_query(db, fn_param(0));
    db.store_param_predicates(fn_def(), vec![on_t]);
}

#[test]
fn empty_database_is_consistent() {
    assert!(Database::new().validate());
}

#[test]
fn sample_database_stays_consistent_as_answers_are_stored() {
    let mut db = sample_db();
    assert!(db.validate());
    store_answers(&mut db);
    assert!(db.validate());
    // A second round reads the answers of the first.
    store_answers(&mut db);
    assert!(db.validate());
    assert_eq!(
        db.impls[0].self_ty,
        Some(Binders {
            num_binders: 1,
            value: Ty::Tuple(2, Substs(vec![var(0, 0), Ty::Builtin(BuiltinType::Int(BuiltinInt::I32))])),
        })
    );
}

#[test]
fn answers_of_queries_are_binder_consistent() {
    let mut db = sample_db();
    store_answers(&mut db);
    assert!(db.validate());
    let sig = callable_item_sig(&db, CallableDefId::FunctionId(FunctionId(0)));
    assert_eq!(sig.num_binders, 1);
    assert_eq!(sig.value.params_and_return.len(), 3);
    assert!(are_closed_tys(&sig.value.params_and_return, 0, sig.num_binders));
    assert!(!are_closed_tys(&sig.value.params_and_return, 0, 0));
    for pred in generic_predicates_query(&db, fn_def()) {
        assert!(is_closed_pred(&pred.value, 0, pred.num_binders));
    }
    for (i, default) in generic_defaults_query(&db, fn_def()).iter().enumerate() {
        assert_eq!(default.num_binders, i);
        assert!(default.is_binder_consistent());
    }
    let opaque = return_type_impl_traits(&db, FunctionId(0)).expect("one opaque type");
    for data in &opaque.value.impl_traits {
        // One binder inside the generic parameters of the function.
        assert!(are_closed_preds(&data.bounds.value, 1, opaque.num_binders));
    }
    assert!(ty_query(&db, TyDefId::TypeAliasId(TypeAliasId(0))).is_binder_consistent());
    assert!(ty_query(&db, TyDefId::AdtId(AdtId::StructId(StructId(9)))).is_binder_consistent());
}

#[test]
fn dangling_answer_is_found() {
    let mut db = sample_db();
    db.type_aliases[0].ty = Some(Binders { num_binders: 1, value: var(0, 1) });
    assert!(!db.validate());
    db.type_aliases[0].ty = Some(Binders { num_binders: 1, value: var(1, 0) });
    assert!(!db.validate());
    db.type_aliases[0].ty = Some(Binders { num_binders: 1, value: var(0, 0) });
    assert!(db.validate());

    db.impls[0].self_ty = Some(Binders { num_binders: 0, value: var(0, 0) });
    assert!(!db.validate());
    db.impls[0].self_ty = None;
    db.impls[0].trait_ref =
        Some(Binders { num_binders: 5, value: TraitRef { trait_: TraitId(0), substs: Substs(vec![var(0, 1)]) } });
    assert!(!db.validate());
    db.impls[0].trait_ref = None;

    db.functions[0].item.generic_defaults = vec![Binders { num_binders: 0, value: var(0, 0) }];
    assert!(!db.validate());
    db.functions[0].item.generic_defaults = Vec::new();
    db.functions[0].item.param_predicates =
        vec![vec![Binders { num_binders: 1, value: implemented(0, vec![var(0, 3)]) }]];
    assert!(!is_item_consistent(&db, fn_def()));
    assert!(!db.validate());
}

#[test]
fn scope_that_names_a_foreign_parameter_is_found() {
    let mut db = sample_db();
    let foreign = TypeParamId { parent: GenericDefId::ImplId(ImplId(0)), local_id: 0 };
    db.functions[0].item.resolver.type_ns.push(entry(&[Name(77)], TypeNs::GenericParam(foreign)));
    assert!(!is_scope_of(&db, &db.functions[0].item.resolver, Some(fn_def())));
    assert!(!db.validate());
    db.functions[0].item.resolver.type_ns.pop();
    assert!(db.validate());
    db.functions[0].item.resolver.generic_def = None;
    assert!(!db.validate());
    db.functions[0].item.resolver.generic_def = Some(fn_def());
    db.statics[0].resolver.type_ns.push(entry(&[T], TypeNs::GenericParam(fn_param(0))));
    assert!(!db.validate());
}

#[test]
fn parameters_of_the_impl_are_in_scope_of_its_methods() {
    // impl<A> .. { fn g() { A, Self } }
    let mut db = sample_db();
    let impl_param = TypeParamId { parent: GenericDefId::ImplId(ImplId(0)), local_id: 0 };
    let method = GenericDefId::FunctionId(FunctionId(1));
    db.functions.push(FunctionData {
        item: item(
            Resolver {
                generic_def: Some(method),
                type_ns: vec![
                    entry(&[T], TypeNs::GenericParam(impl_param)),
                    entry(&[Name(50)], TypeNs::SelfType(ImplId(0))),
                ],
                where_predicates: Vec::new(),
            },
            Vec::new(),
        ),
        container: AssocContainerId::ImplId(ImplId(0)),
        params: vec![path_ty(&[T])],
        ret_type: path_ty(&[Name(50)]),
        is_varargs: false,
    });
    assert!(db.validate());
    store_answers(&mut db);
    let sig = callable_item_sig(&db, CallableDefId::FunctionId(FunctionId(1)));
    assert_eq!(sig.num_binders, 1);
    assert_eq!(
        sig.value.params_and_return,
        vec![var(0, 0), Ty::Tuple(2, Substs(vec![var(0, 0), Ty::Builtin(BuiltinType::Int(BuiltinInt::I32))]))]
    );
    assert!(are_closed_tys(&sig.value.params_and_return, 0, sig.num_binders));
}

#[test]
fn closed_terms() {
    assert!(is_closed_ty(&var(0, 0), 0, 1));
    assert!(!is_closed_ty(&var(0, 1), 0, 1));
    assert!(!is_closed_ty(&var(1, 0), 0, 1));
    assert!(is_closed_ty(&var(1, 0), 1, 1));
    assert!(is_closed_ty(&var(0, 9), 1, 1));
    let in_dyn = Ty::Dyn(vec![implemented(0, vec![var(0, 0), var(1, 2)])]);
    assert!(is_closed_ty(&in_dyn, 0, 3));
    assert!(!is_closed_ty(&in_dyn, 0, 2));
    assert!(is_closed_ty(&Ty::Unknown, 0, 0));
    assert!(is_closed_pred(&GenericPredicate::Error, 0, 0));
    assert!(are_closed_preds(&Vec::new(), 0, 0));
    assert!(Binders { num_binders: 2, value: var(0, 1) }.is_binder_consistent());
    assert!(!Binders { num_binders: 1, value: var(0, 1) }.is_binder_consistent());
}

#[test]
fn impl_trait_variable_beyond_the_parameters_is_dangling() {
    // fn f<T>(x: impl Trait): the function has no parameter for the `impl Trait`.
    let mut db = sample_db();
    db.functions[0].params =
        vec![TypeRef::ImplTrait(vec![TypeBound::Path(Path { type_anchor: None, segments: vec![seg(TRAIT)] })])];
    assert!(db.validate());
    let sig = callable_item_sig(&db, CallableDefId::FunctionId(FunctionId(0)));
    assert_eq!(sig.num_binders, 1);
    assert_eq!(sig.value.params_and_return[0], var(0, 1));
    assert!(!are_closed_tys(&sig.value.params_and_return, 0, sig.num_binders));
}

#[test]
fn stored_answers_are_read_back() {
    let mut db = sample_db();
    store_answers(&mut db);
    assert_eq!(
        db.type_aliases[0].ty,
        Some(Binders {
            num_binders: 1,
            value: Ty::Tuple(2, Substs(vec![var(0, 0), Ty::Builtin(BuiltinType::Int(BuiltinInt::I32))])),
        })
    );
    assert_eq!(db.ty(TyDefId::TypeAliasId(TypeAliasId(0))).num_binders, 1);
    assert_eq!(
        db.impl_self_ty(ImplId(0)),
        Binders {
            num_binders: 1,
            value: Ty::Tuple(2, Substs(vec![var(0, 0), Ty::Builtin(BuiltinType::Int(BuiltinInt::I32))])),
        }
    );
    assert_eq!(db.impl_trait(ImplId(0)).map(|t| t.value.trait_), Some(TraitId(0)));
    assert_eq!(db.generic_defaults(fn_def()), Some(&vec![Binders { num_binders: 0, value: Ty::Unknown }]));
    assert_eq!(
        db.generic_predicates_for_param(fn_param(0)),
        Some(&vec![Binders { num_binders: 1, value: implemented(0, vec![var(0, 0)]) }])
    );
    assert_eq!(db.generic_predicates_for_param(fn_param(3)), None);
    // Storing on every kind of definition leaves the others as they are.
    let alias = GenericDefId::TypeAliasId(TypeAliasId(0));
    db.store_generic_defaults(alias, vec![Binders { num_binders: 0, value: Ty::Never }]);
    db.store_generic_defaults(GenericDefId::ImplId(ImplId(0)), Vec::new());
    db.store_generic_defaults(GenericDefId::TraitId(TraitId(0)), Vec::new());
    db.store_param_predicates(GenericDefId::TraitId(TraitId(0)), vec![Vec::new()]);
    assert_eq!(db.generic_defaults(alias), Some(&vec![Binders { num_binders: 0, value: Ty::Never }]));
    assert_eq!(db.type_aliases[0].ty.as_ref().map(|t| t.num_binders), Some(1));
    assert_eq!(db.traits[0].item.param_predicates, vec![Vec::new()]);
    assert!(db.validate());
}
