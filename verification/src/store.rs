//! Storing the answers of queries in the database. An answer that is
//! binder-consistent, stored in a consistent database, leaves the database
//! consistent: what a later pass reads is as good as what this one read.
use vstd::prelude::*;
use crate::binders::{binder_consistent_ty, closed_pred, closed_tys, Binders};
use crate::consistency::{
    answers_consistent, database_consistent, resolution_in_scope, resolver_consistent, scope_of,
    visible,
};
use crate::db::{Database, Resolver};
use crate::generics::{generic_param_list, own_params, parent_params};
use crate::ids::{AdtId, GenericDefId, ImplId, StaticId, TypeAliasId, TypeParamId};
use crate::ty::{GenericPredicate, TraitRef, Ty};

verus! {

/// Whether two databases hold the same definitions with the same generic
/// parameters, scopes and containers. They may differ in the answers that
/// they hold.
pub open spec fn same_definitions(a: Database, b: Database) -> bool {
    &&& forall|def: GenericDefId|
        #![trigger a.spec_item(def)]
        #![trigger b.spec_item(def)]
        match (a.spec_item(def), b.spec_item(def)) {
            (Some(x), Some(y)) => x.generic_params == y.generic_params && x.resolver == y.resolver,
            (None, None) => true,
            _ => false,
        }
    &&& forall|def: GenericDefId|
        #![trigger a.spec_container(def)]
        #![trigger b.spec_container(def)]
        a.spec_container(def) == b.spec_container(def)
    &&& forall|s: StaticId|
        #![trigger a.spec_static_data(s)]
        #![trigger b.spec_static_data(s)]
        a.spec_static_data(s) == b.spec_static_data(s)
}

/// Databases with the same definitions have the same generic parameters in
/// scope of every definition, and find the same scopes consistent.
pub proof fn lemma_same_definitions(a: Database, b: Database)
    requires
        same_definitions(a, b),
    ensures
        forall|def: GenericDefId| #[trigger] generic_param_list(b, def) == generic_param_list(a, def),
        forall|r: Resolver| #[trigger] resolver_consistent(b, r) == resolver_consistent(a, r),
{
    reveal(resolver_consistent);
    assert forall|def: GenericDefId| #[trigger] own_params(b, def) == own_params(a, def) by {
        assert(a.spec_item(def) is Some == b.spec_item(def) is Some);
        assert(own_params(b, def) =~= own_params(a, def));
    }
    assert forall|def: GenericDefId| a.spec_parent_generic_def(def) == b.spec_parent_generic_def(def) by {
        assert(a.spec_container(def) == b.spec_container(def));
    }
    assert forall|def: GenericDefId| #[trigger] generic_param_list(b, def) == generic_param_list(a, def) by {
        assert(a.spec_parent_generic_def(def) == b.spec_parent_generic_def(def));
        assert(own_params(b, def) == own_params(a, def));
        match a.spec_parent_generic_def(def) {
            Some(p) => {
                assert(own_params(b, p) == own_params(a, p));
            },
            None => {},
        }
    }
    assert forall|scope: Option<GenericDefId>, owner: GenericDefId| visible(b, scope, owner) == visible(
        a,
        scope,
        owner,
    ) by {
        match scope {
            Some(d) => {
                assert(a.spec_parent_generic_def(d) == b.spec_parent_generic_def(d));
                assert(a.spec_parent_generic_def(owner) == b.spec_parent_generic_def(owner));
            },
            None => {},
        }
    }
    assert forall|r: Resolver| #[trigger] resolver_consistent(b, r) == resolver_consistent(a, r) by {
        assert forall|i: int| 0 <= i < r.type_ns@.len() implies resolution_in_scope(
            b,
            r.generic_def,
            (#[trigger] r.type_ns@[i]).resolution,
        ) == resolution_in_scope(a, r.generic_def, r.type_ns@[i].resolution) by {}
    }
}

/// A database that holds the same definitions as a consistent one, and
/// consistent answers, is consistent.
pub proof fn lemma_store_keeps_consistent(a: Database, b: Database)
    requires
        database_consistent(a),
        same_definitions(a, b),
        answers_consistent(b),
    ensures
        database_consistent(b),
{
    lemma_same_definitions(a, b);
    assert forall|def: GenericDefId| #[trigger] b.spec_item(def) is Some implies scope_of(
        b,
        b.spec_item(def).unwrap().resolver,
        Some(def),
    ) by {
        assert(a.spec_item(def) is Some);
        let r = a.spec_item(def).unwrap().resolver;
        assert(scope_of(a, r, Some(def)));
        assert(resolver_consistent(b, r) == resolver_consistent(a, r));
    }
    assert forall|s: StaticId| #[trigger] b.spec_static_data(s) is Some implies scope_of(
        b,
        b.spec_static_data(s).unwrap().resolver,
        None,
    ) by {
        assert(a.spec_static_data(s) == b.spec_static_data(s));
        let r = a.spec_static_data(s).unwrap().resolver;
        assert(scope_of(a, r, None));
        assert(resolver_consistent(b, r) == resolver_consistent(a, r));
    }
    assert forall|def: GenericDefId| #[trigger] generic_param_list(b, def).len() <= usize::MAX by {
        assert(generic_param_list(b, def) == generic_param_list(a, def));
        assert(generic_param_list(a, def).len() <= usize::MAX);
    }
}

impl Database {
    /// Stores the declared type of the type alias `t`, as evaluated.
    pub fn store_type_alias_ty(&mut self, t: TypeAliasId, ty: Binders<Ty>)
        requires
            old(self).spec_type_alias_data(t) is Some,
        ensures
            same_definitions(*old(self), *final(self)),
            final(self).spec_type_alias_data(t) matches Some(d) && d.ty == Some(ty),
            database_consistent(*old(self)) && binder_consistent_ty(ty@) ==> database_consistent(*final(self)),
    {
        let i = t.0 as usize;
        let ghost before = *self;
        let mut data = self.type_aliases.remove(i);
        data.ty = Some(ty);
        self.type_aliases.insert(i, data);
        proof {
            let after = *self;
            assert(after.type_aliases@ =~= before.type_aliases@.update(i as int, data));
            assert forall|id: TypeAliasId| id != t implies #[trigger] after.spec_type_alias_data(id)
                == before.spec_type_alias_data(id) by {}
            assert(same_definitions(before, after));
            if database_consistent(before) && binder_consistent_ty(ty@) {
                lemma_same_definitions(before, after);
                reveal(answers_consistent);
                assert forall|def: GenericDefId| #[trigger] after.spec_generic_defaults(def)
                    == before.spec_generic_defaults(def) by {}
                assert forall|p: TypeParamId| #[trigger] after.spec_generic_predicates_for_param(p)
                    == before.spec_generic_predicates_for_param(p) by {}
                assert(answers_consistent(after));
                lemma_store_keeps_consistent(before, after);
            }
        }
    }

    /// Stores the self type of the impl `impl_id`, as evaluated.
    pub fn store_impl_self_ty(&mut self, impl_id: ImplId, ty: Binders<Ty>)
        requires
            old(self).spec_impl_data(impl_id) is Some,
        ensures
            same_definitions(*old(self), *final(self)),
            final(self).spec_impl_data(impl_id) matches Some(d) && d.self_ty == Some(ty),
            database_consistent(*old(self)) && binder_consistent_ty(ty@) ==> database_consistent(*final(self)),
    {
        let i = impl_id.0 as usize;
        let ghost before = *self;
        let mut data = self.impls.remove(i);
        data.self_ty = Some(ty);
        self.impls.insert(i, data);
        proof {
            let after = *self;
            assert(after.impls@ =~= before.impls@.update(i as int, data));
            assert forall|id: ImplId| id != impl_id implies #[trigger] after.spec_impl_data(id)
                == before.spec_impl_data(id) by {}
            assert(same_definitions(before, after));
            if database_consistent(before) && binder_consistent_ty(ty@) {
                lemma_same_definitions(before, after);
                reveal(answers_consistent);
                assert forall|def: GenericDefId| #[trigger] after.spec_generic_defaults(def)
                    == before.spec_generic_defaults(def) by {}
                assert forall|p: TypeParamId| #[trigger] after.spec_generic_predicates_for_param(p)
                    == before.spec_generic_predicates_for_param(p) by {}
                assert forall|i: ImplId| #[trigger] after.spec_impl_data(i) is Some implies ({
                    let d = after.spec_impl_data(i).unwrap();
                    &&& d.self_ty matches Some(b) ==> binder_consistent_ty(b@)
                    &&& d.trait_ref matches Some(b) ==> closed_tys(
                        b.value@.substs,
                        0,
                        seq![generic_param_list(after, GenericDefId::ImplId(i)).len()],
                    )
                }) by {
                    assert(before.spec_impl_data(i) is Some);
                    assert(generic_param_list(after, GenericDefId::ImplId(i)) == generic_param_list(
                        before,
                        GenericDefId::ImplId(i),
                    ));
                    if i != impl_id {
                        assert(after.spec_impl_data(i) == before.spec_impl_data(i));
                    }
                }
                assert forall|t: TypeAliasId| #[trigger] after.spec_type_alias_data(t) == before.spec_type_alias_data(
                    t,
                ) by {}
                assert(answers_consistent(after));
                lemma_store_keeps_consistent(before, after);
            }
        }
    }

    /// Stores the trait that the impl `impl_id` implements, as evaluated.
    pub fn store_impl_trait(&mut self, impl_id: ImplId, trait_ref: Option<Binders<TraitRef>>)
        requires
            old(self).spec_impl_data(impl_id) is Some,
        ensures
            same_definitions(*old(self), *final(self)),
            final(self).spec_impl_data(impl_id) matches Some(d) && d.trait_ref == trait_ref,
            database_consistent(*old(self)) && (trait_ref matches Some(b) ==> closed_tys(
                b.value@.substs,
                0,
                seq![generic_param_list(*old(self), GenericDefId::ImplId(impl_id)).len()],
            )) ==> database_consistent(*final(self)),
    {
        let i = impl_id.0 as usize;
        let ghost before = *self;
        let ghost stored = trait_ref;
        let mut data = self.impls.remove(i);
        data.trait_ref = trait_ref;
        self.impls.insert(i, data);
        proof {
            let after = *self;
            assert(after.impls@ =~= before.impls@.update(i as int, data));
            assert forall|id: ImplId| id != impl_id implies #[trigger] after.spec_impl_data(id)
                == before.spec_impl_data(id) by {}
            assert(same_definitions(before, after));
            if database_consistent(before) && (stored matches Some(b) ==> closed_tys(
                b.value@.substs,
                0,
                seq![generic_param_list(before, GenericDefId::ImplId(impl_id)).len()],
            )) {
                lemma_same_definitions(before, after);
                reveal(answers_consistent);
                assert forall|def: GenericDefId| #[trigger] after.spec_generic_defaults(def)
                    == before.spec_generic_defaults(def) by {}
                assert forall|p: TypeParamId| #[trigger] after.spec_generic_predicates_for_param(p)
                    == before.spec_generic_predicates_for_param(p) by {}
                assert forall|i: ImplId| #[trigger] after.spec_impl_data(i) is Some implies ({
                    let d = after.spec_impl_data(i).unwrap();
                    &&& d.self_ty matches Some(b) ==> binder_consistent_ty(b@)
                    &&& d.trait_ref matches Some(b) ==> closed_tys(
                        b.value@.substs,
                        0,
                        seq![generic_param_list(after, GenericDefId::ImplId(i)).len()],
                    )
                }) by {
                    assert(before.spec_impl_data(i) is Some);
                    assert(generic_param_list(after, GenericDefId::ImplId(i)) == generic_param_list(
                        before,
                        GenericDefId::ImplId(i),
                    ));
                    if i != impl_id {
                        assert(after.spec_impl_data(i) == before.spec_impl_data(i));
                    }
                }
                assert forall|t: TypeAliasId| #[trigger] after.spec_type_alias_data(t) == before.spec_type_alias_data(
                    t,
                ) by {}
                assert(answers_consistent(after));
                lemma_store_keeps_consistent(before, after);
            }
        }
    }

    /// Stores the lowered defaults of the generic parameters in scope of
    /// `def`, as evaluated.
    pub fn store_generic_defaults(&mut self, def: GenericDefId, defaults: Vec<Binders<Ty>>)
        requires
            old(self).spec_item(def) is Some,
        ensures
            same_definitions(*old(self), *final(self)),
            final(self).spec_generic_defaults(def) == defaults@,
            database_consistent(*old(self)) && (forall|k: int|
                0 <= k < defaults@.len() ==> binder_consistent_ty((#[trigger] defaults@[k])@))
                ==> database_consistent(*final(self)),
    {
        let ghost before = *self;
        let ghost stored = defaults@;
        match def {
            GenericDefId::FunctionId(id) => {
                let i = id.0 as usize;
                let mut data = self.functions.remove(i);
                data.item.generic_defaults = defaults;
                self.functions.insert(i, data);
                assert(self.functions@ =~= before.functions@.update(i as int, data));
            },
            GenericDefId::AdtId(AdtId::StructId(id)) => {
                let i = id.0 as usize;
                let mut data = self.structs.remove(i);
                data.item.generic_defaults = defaults;
                self.structs.insert(i, data);
                assert(self.structs@ =~= before.structs@.update(i as int, data));
            },
            GenericDefId::AdtId(AdtId::UnionId(id)) => {
                let i = id.0 as usize;
                let mut data = self.unions.remove(i);
                data.item.generic_defaults = defaults;
                self.unions.insert(i, data);
                assert(self.unions@ =~= before.unions@.update(i as int, data));
            },
            GenericDefId::AdtId(AdtId::EnumId(id)) => {
                let i = id.0 as usize;
                let mut data = self.enums.remove(i);
                data.item.generic_defaults = defaults;
                self.enums.insert(i, data);
                assert(self.enums@ =~= before.enums@.update(i as int, data));
            },
            GenericDefId::TraitId(id) => {
                let i = id.0 as usize;
                let mut data = self.traits.remove(i);
                data.item.generic_defaults = defaults;
                self.traits.insert(i, data);
                assert(self.traits@ =~= before.traits@.update(i as int, data));
            },
            GenericDefId::TypeAliasId(id) => {
                let i = id.0 as usize;
                let mut data = self.type_aliases.remove(i);
                data.item.generic_defaults = defaults;
                self.type_aliases.insert(i, data);
                assert(self.type_aliases@ =~= before.type_aliases@.update(i as int, data));
            },
            GenericDefId::ImplId(id) => {
                let i = id.0 as usize;
                let mut data = self.impls.remove(i);
                data.item.generic_defaults = defaults;
                self.impls.insert(i, data);
                assert(self.impls@ =~= before.impls@.update(i as int, data));
            },
            GenericDefId::ConstId(id) => {
                let i = id.0 as usize;
                let mut data = self.consts.remove(i);
                data.item.generic_defaults = defaults;
                self.consts.insert(i, data);
                assert(self.consts@ =~= before.consts@.update(i as int, data));
            },
            GenericDefId::EnumVariantId(_) => {},
        }
        proof {
            let after = *self;
            assert forall|other: GenericDefId| other != def implies #[trigger] after.spec_item(other)
                == before.spec_item(other) by {}
            assert forall|other: GenericDefId| #[trigger] after.spec_container(other) == before.spec_container(
                other,
            ) by {}
            assert(same_definitions(before, after));
            assert(after.spec_generic_defaults(def) == stored);
            if database_consistent(before) && (forall|k: int|
                0 <= k < stored.len() ==> binder_consistent_ty((#[trigger] stored[k])@)) {
                lemma_same_definitions(before, after);
                reveal(answers_consistent);
                assert forall|other: GenericDefId| other != def implies #[trigger] after.spec_generic_defaults(
                    other,
                ) == before.spec_generic_defaults(other) by {}
                assert forall|p: TypeParamId| #[trigger] after.spec_generic_predicates_for_param(p)
                    == before.spec_generic_predicates_for_param(p) by {
                    if p.parent != def {
                        assert(after.spec_item(p.parent) == before.spec_item(p.parent));
                    }
                }
                assert forall|t: TypeAliasId| #[trigger] after.spec_type_alias_data(t) is Some implies (
                after.spec_type_alias_data(t).unwrap().ty matches Some(b) ==> binder_consistent_ty(b@)) by {
                    assert(before.spec_type_alias_data(t) is Some);
                    assert(after.spec_type_alias_data(t).unwrap().ty == before.spec_type_alias_data(t).unwrap().ty);
                }
                assert forall|i: ImplId| #[trigger] after.spec_impl_data(i) is Some implies ({
                    let d = after.spec_impl_data(i).unwrap();
                    &&& d.self_ty matches Some(b) ==> binder_consistent_ty(b@)
                    &&& d.trait_ref matches Some(b) ==> closed_tys(
                        b.value@.substs,
                        0,
                        seq![generic_param_list(after, GenericDefId::ImplId(i)).len()],
                    )
                }) by {
                    assert(before.spec_impl_data(i) is Some);
                    assert(after.spec_impl_data(i).unwrap().self_ty == before.spec_impl_data(i).unwrap().self_ty);
                    assert(after.spec_impl_data(i).unwrap().trait_ref == before.spec_impl_data(
                        i,
                    ).unwrap().trait_ref);
                }
                assert(answers_consistent(after));
                lemma_store_keeps_consistent(before, after);
            }
        }
    }

    /// Stores the predicates on the type parameters that `def` declares, as
    /// evaluated: for each parameter, by its position, the predicates on it.
    #[verifier::rlimit(60)]
    pub fn store_param_predicates(&mut self, def: GenericDefId, predicates: Vec<Vec<Binders<GenericPredicate>>>)
        requires
            old(self).spec_item(def) is Some,
        ensures
            same_definitions(*old(self), *final(self)),
            final(self).spec_item(def) matches Some(item) && item.param_predicates == predicates,
            database_consistent(*old(self)) && (forall|j: int, k: int|
                0 <= j < predicates@.len() && 0 <= k < predicates@[j]@.len() ==> closed_pred(
                    (#[trigger] predicates@[j]@[k]).value@,
                    0,
                    seq![generic_param_list(*old(self), def).len()],
                )) ==> database_consistent(*final(self)),
    {
        let ghost before = *self;
        let ghost stored = predicates;
        match def {
            GenericDefId::FunctionId(id) => {
                let i = id.0 as usize;
                let mut data = self.functions.remove(i);
                data.item.param_predicates = predicates;
                self.functions.insert(i, data);
                assert(self.functions@ =~= before.functions@.update(i as int, data));
            },
            GenericDefId::AdtId(AdtId::StructId(id)) => {
                let i = id.0 as usize;
                let mut data = self.structs.remove(i);
                data.item.param_predicates = predicates;
                self.structs.insert(i, data);
                assert(self.structs@ =~= before.structs@.update(i as int, data));
            },
            GenericDefId::AdtId(AdtId::UnionId(id)) => {
                let i = id.0 as usize;
                let mut data = self.unions.remove(i);
                data.item.param_predicates = predicates;
                self.unions.insert(i, data);
                assert(self.unions@ =~= before.unions@.update(i as int, data));
            },
            GenericDefId::AdtId(AdtId::EnumId(id)) => {
                let i = id.0 as usize;
                let mut data = self.enums.remove(i);
                data.item.param_predicates = predicates;
                self.enums.insert(i, data);
                assert(self.enums@ =~= before.enums@.update(i as int, data));
            },
            GenericDefId::TraitId(id) => {
                let i = id.0 as usize;
                let mut data = self.traits.remove(i);
                data.item.param_predicates = predicates;
                self.traits.insert(i, data);
                assert(self.traits@ =~= before.traits@.update(i as int, data));
            },
            GenericDefId::TypeAliasId(id) => {
                let i = id.0 as usize;
                let mut data = self.type_aliases.remove(i);
                data.item.param_predicates = predicates;
                self.type_aliases.insert(i, data);
                assert(self.type_aliases@ =~= before.type_aliases@.update(i as int, data));
            },
            GenericDefId::ImplId(id) => {
                let i = id.0 as usize;
                let mut data = self.impls.remove(i);
                data.item.param_predicates = predicates;
                self.impls.insert(i, data);
                assert(self.impls@ =~= before.impls@.update(i as int, data));
            },
            GenericDefId::ConstId(id) => {
                let i = id.0 as usize;
                let mut data = self.consts.remove(i);
                data.item.param_predicates = predicates;
                self.consts.insert(i, data);
                assert(self.consts@ =~= before.consts@.update(i as int, data));
            },
            GenericDefId::EnumVariantId(_) => {},
        }
        proof {
            let after = *self;
            assert forall|other: GenericDefId| other != def implies #[trigger] after.spec_item(other)
                == before.spec_item(other) by {}
            assert forall|other: GenericDefId| #[trigger] after.spec_container(other) == before.spec_container(
                other,
            ) by {}
            assert(same_definitions(before, after));
            if database_consistent(before) && (forall|j: int, k: int|
                0 <= j < stored@.len() && 0 <= k < stored@[j]@.len() ==> closed_pred(
                    (#[trigger] stored@[j]@[k]).value@,
                    0,
                    seq![generic_param_list(before, def).len()],
                )) {
                lemma_same_definitions(before, after);
                reveal(answers_consistent);
                assert forall|other: GenericDefId| #[trigger] after.spec_generic_defaults(other)
                    == before.spec_generic_defaults(other) by {
                    if other != def {
                        assert(after.spec_item(other) == before.spec_item(other));
                    }
                }
                assert forall|p: TypeParamId, k: int|
                    0 <= k < after.spec_generic_predicates_for_param(p).len() implies closed_pred(
                    (#[trigger] after.spec_generic_predicates_for_param(p)[k]).value@,
                    0,
                    seq![generic_param_list(after, p.parent).len()],
                ) by {
                    assert(generic_param_list(after, p.parent) == generic_param_list(before, p.parent));
                    if p.parent != def {
                        assert(after.spec_item(p.parent) == before.spec_item(p.parent));
                        assert(after.spec_generic_predicates_for_param(p) == before.spec_generic_predicates_for_param(
                            p,
                        ));
                    } else {
                        assert(after.spec_generic_predicates_for_param(p) == stored@[p.local_id as int]@);
                    }
                }
                assert forall|t: TypeAliasId| #[trigger] after.spec_type_alias_data(t) is Some implies (
                after.spec_type_alias_data(t).unwrap().ty matches Some(b) ==> binder_consistent_ty(b@)) by {
                    assert(before.spec_type_alias_data(t) is Some);
                    assert(after.spec_type_alias_data(t).unwrap().ty == before.spec_type_alias_data(t).unwrap().ty);
                }
                assert forall|i: ImplId| #[trigger] after.spec_impl_data(i) is Some implies ({
                    let d = after.spec_impl_data(i).unwrap();
                    &&& d.self_ty matches Some(b) ==> binder_consistent_ty(b@)
                    &&& d.trait_ref matches Some(b) ==> closed_tys(
                        b.value@.substs,
                        0,
                        seq![generic_param_list(after, GenericDefId::ImplId(i)).len()],
                    )
                }) by {
                    assert(before.spec_impl_data(i) is Some);
                    assert(after.spec_impl_data(i).unwrap().self_ty == before.spec_impl_data(i).unwrap().self_ty);
                    assert(after.spec_impl_data(i).unwrap().trait_ref == before.spec_impl_data(
                        i,
                    ).unwrap().trait_ref);
                }
                assert(answers_consistent(after));
                lemma_store_keeps_consistent(before, after);
            }
        }
    }
}

} // verus!
