//! Telling at run time whether a database is consistent.
use vstd::prelude::*;
use crate::binders::{
    binder_consistent_ty, closed_pred, closed_preds, closed_ty, closed_tys, Binders,
};
use crate::consistency::{
    answers_consistent, database_consistent, resolution_in_scope, resolver_consistent, scope_of,
    visible,
};
use crate::db::{Database, Resolver, TypeNs};
use crate::generics::{generic_param_list, generics, own_params};
use crate::ids::{
    AdtId, ConstId, EnumId, FunctionId, GenericDefId, ImplId, StaticId, StructId, TraitId,
    TypeAliasId, TypeParamId, UnionId,
};
use crate::ty::{AliasTy, GenericPredicate, PredV, Ty, TyV};

verus! {

// ---------------------------------------------------------------------------
// Bound terms
// ---------------------------------------------------------------------------

/// Under more inner binders than an index can count, every variable names an
/// inner binder.
pub proof fn lemma_closed_beyond(t: TyV, inner: nat, scopes: Seq<nat>)
    requires
        inner > u32::MAX,
    ensures
        closed_ty(t, inner, scopes),
    decreases t,
{
    match t {
        TyV::Tuple(_, s) => lemma_closed_beyond_tys(s, inner, scopes),
        TyV::Adt(_, s) => lemma_closed_beyond_tys(s, inner, scopes),
        TyV::RawPointer(_, x) => lemma_closed_beyond(*x, inner, scopes),
        TyV::Array(x) => lemma_closed_beyond(*x, inner, scopes),
        TyV::Slice(x) => lemma_closed_beyond(*x, inner, scopes),
        TyV::Reference(_, x) => lemma_closed_beyond(*x, inner, scopes),
        TyV::FunctionPointer(_, _, s) => lemma_closed_beyond_tys(s, inner, scopes),
        TyV::FunctionDef(_, s) => lemma_closed_beyond_tys(s, inner, scopes),
        TyV::Dyn(preds) => lemma_closed_beyond_preds(preds, inner + 1, scopes),
        TyV::Projection(p) => lemma_closed_beyond_tys(p.substitution, inner, scopes),
        TyV::Opaque(_, s) => lemma_closed_beyond_tys(s, inner, scopes),
        _ => {},
    }
}

pub proof fn lemma_closed_beyond_tys(s: Seq<TyV>, inner: nat, scopes: Seq<nat>)
    requires
        inner > u32::MAX,
    ensures
        closed_tys(s, inner, scopes),
    decreases s,
{
    assert forall|i: int| 0 <= i < s.len() implies closed_ty(#[trigger] s[i], inner, scopes) by {
        lemma_closed_beyond(s[i], inner, scopes);
    }
}

pub proof fn lemma_closed_beyond_preds(s: Seq<PredV>, inner: nat, scopes: Seq<nat>)
    requires
        inner > u32::MAX,
    ensures
        closed_preds(s, inner, scopes),
    decreases s,
{
    assert forall|i: int| 0 <= i < s.len() implies closed_pred(#[trigger] s[i], inner, scopes) by {
        match s[i] {
            PredV::Implemented(t) => lemma_closed_beyond_tys(t.substs, inner, scopes),
            PredV::Projection(p, ty) => {
                lemma_closed_beyond_tys(p.substitution, inner, scopes);
                lemma_closed_beyond(ty, inner, scopes);
            },
            PredV::Error => {},
        }
    }
}

/// Whether every bound variable of `t` names one of `inner` inner binders or
/// one of the `count` variables of the binder around them.
pub fn is_closed_ty(t: &Ty, inner: u64, count: usize) -> (r: bool)
    ensures
        r == closed_ty(t@, inner as nat, seq![count as nat]),
    decreases *t,
{
    match t {
        Ty::Tuple(_, s) => are_closed_tys(&s.0, inner, count),
        Ty::Adt(_, s) => are_closed_tys(&s.0, inner, count),
        Ty::RawPointer(_, x) => is_closed_ty(x, inner, count),
        Ty::Array(x) => is_closed_ty(x, inner, count),
        Ty::Slice(x) => is_closed_ty(x, inner, count),
        Ty::Reference(_, x) => is_closed_ty(x, inner, count),
        Ty::FunctionPointer(f) => are_closed_tys(&f.substs.0, inner, count),
        Ty::FunctionDef(_, s) => are_closed_tys(&s.0, inner, count),
        Ty::Dyn(preds) => {
            if inner > u32::MAX as u64 {
                proof {
                    lemma_closed_beyond_preds(
                        crate::ty::preds_view(preds@),
                        inner as nat + 1,
                        seq![count as nat],
                    );
                }
                true
            } else {
                are_closed_preds(preds, inner + 1, count)
            }
        },
        Ty::Alias(AliasTy::Projection(p)) => are_closed_tys(&p.substitution.0, inner, count),
        Ty::Alias(AliasTy::Opaque(o)) => are_closed_tys(&o.substitution.0, inner, count),
        Ty::BoundVar(b) => (b.debruijn.depth as u64) < inner || (b.debruijn.depth as u64 == inner && b.index
            < count),
        Ty::Never | Ty::Builtin(_) | Ty::Placeholder(_) | Ty::ForeignType(_) | Ty::Unknown => true,
    }
}

/// Whether every bound variable of the types `v` is bound.
pub fn are_closed_tys(v: &Vec<Ty>, inner: u64, count: usize) -> (r: bool)
    ensures
        r == closed_tys(crate::ty::tys_view(v@), inner as nat, seq![count as nat]),
    decreases *v,
{
    let mut i: usize = 0;
    while i < v.len()
        invariant
            i <= v.len(),
            forall|j: int|
                0 <= j < i ==> closed_ty(#[trigger] crate::ty::tys_view(v@)[j], inner as nat, seq![count as nat]),
        decreases v.len() - i,
    {
        if !is_closed_ty(&v[i], inner, count) {
            assert(!closed_ty(crate::ty::tys_view(v@)[i as int], inner as nat, seq![count as nat]));
            return false;
        }
        i += 1;
    }
    true
}

/// Whether every bound variable of the predicate `p` is bound.
pub fn is_closed_pred(p: &GenericPredicate, inner: u64, count: usize) -> (r: bool)
    ensures
        r == closed_pred(p@, inner as nat, seq![count as nat]),
    decreases *p,
{
    match p {
        GenericPredicate::Implemented(t) => are_closed_tys(&t.substs.0, inner, count),
        GenericPredicate::Projection(p) => are_closed_tys(&p.projection_ty.substitution.0, inner, count)
            && is_closed_ty(&p.ty, inner, count),
        GenericPredicate::Error => true,
    }
}

/// Whether every bound variable of the predicates `v` is bound.
pub fn are_closed_preds(v: &Vec<GenericPredicate>, inner: u64, count: usize) -> (r: bool)
    ensures
        r == closed_preds(crate::ty::preds_view(v@), inner as nat, seq![count as nat]),
    decreases *v,
{
    let mut i: usize = 0;
    while i < v.len()
        invariant
            i <= v.len(),
            forall|j: int|
                0 <= j < i ==> closed_pred(
                    #[trigger] crate::ty::preds_view(v@)[j],
                    inner as nat,
                    seq![count as nat],
                ),
        decreases v.len() - i,
    {
        if !is_closed_pred(&v[i], inner, count) {
            assert(!closed_pred(crate::ty::preds_view(v@)[i as int], inner as nat, seq![count as nat]));
            return false;
        }
        i += 1;
    }
    true
}

impl Binders<Ty> {
    /// Whether the type mentions, of the variables of its binder, only those
    /// that the binder has.
    pub fn is_binder_consistent(&self) -> (r: bool)
        ensures
            r == binder_consistent_ty(self@),
    {
        is_closed_ty(&self.value, 0, self.num_binders)
    }
}

// ---------------------------------------------------------------------------
// Scopes
// ---------------------------------------------------------------------------

fn is_visible(db: &Database, scope: Option<GenericDefId>, owner: GenericDefId) -> (r: bool)
    ensures
        r == visible(*db, scope, owner),
{
    match scope {
        Some(d) => {
            if owner == d {
                true
            } else {
                match db.parent_generic_def(d) {
                    Some(p) => p == owner && db.parent_generic_def(owner).is_none(),
                    None => false,
                }
            }
        },
        None => false,
    }
}

fn is_in_scope(db: &Database, scope: Option<GenericDefId>, res: TypeNs) -> (r: bool)
    ensures
        r == resolution_in_scope(*db, scope, res),
{
    match res {
        TypeNs::GenericParam(p) => is_visible(db, scope, p.parent),
        TypeNs::SelfType(i) => is_visible(db, scope, GenericDefId::ImplId(i)),
        TypeNs::AdtSelfType(a) => is_visible(db, scope, GenericDefId::AdtId(a)),
        _ => true,
    }
}

/// Whether `resolver` is the scope of `def` and names only what is in scope.
pub fn is_scope_of(db: &Database, resolver: &Resolver, def: Option<GenericDefId>) -> (r: bool)
    ensures
        r == scope_of(*db, *resolver, def),
{
    reveal(resolver_consistent);
    if resolver.generic_def != def {
        return false;
    }
    let mut i: usize = 0;
    while i < resolver.type_ns.len()
        invariant
            i <= resolver.type_ns.len(),
            resolver.generic_def == def,
            forall|j: int|
                0 <= j < i ==> resolution_in_scope(
                    *db,
                    resolver.generic_def,
                    (#[trigger] resolver.type_ns@[j]).resolution,
                ),
        decreases resolver.type_ns.len() - i,
    {
        if !is_in_scope(db, resolver.generic_def, resolver.type_ns[i].resolution) {
            proof {
                reveal(resolver_consistent);
                assert(!resolution_in_scope(*db, resolver.generic_def, resolver.type_ns@[i as int].resolution));
            }
            return false;
        }
        i += 1;
    }
    true
}

// ---------------------------------------------------------------------------
// Items
// ---------------------------------------------------------------------------

/// Whether what the database holds for the definition `def` is consistent:
/// its scope, its evaluated defaults and the evaluated predicates on its
/// parameters.
pub open spec fn item_consistent(db: Database, def: GenericDefId) -> bool
    recommends
        db.spec_item(def) is Some,
{
    let item = db.spec_item(def).unwrap();
    &&& scope_of(db, item.resolver, Some(def))
    &&& generic_param_list(db, def).len() <= usize::MAX
    &&& forall|k: int|
        0 <= k < item.generic_defaults@.len() ==> binder_consistent_ty((#[trigger] item.generic_defaults@[k])@)
    &&& forall|j: int, k: int|
        0 <= j < item.param_predicates@.len() && j <= u32::MAX && 0 <= k < item.param_predicates@[j]@.len()
            ==> closed_pred(
            (#[trigger] item.param_predicates@[j]@[k]).value@,
            0,
            seq![generic_param_list(db, def).len()],
        )
}

fn defaults_consistent(defaults: &Vec<Binders<Ty>>) -> (r: bool)
    ensures
        r == forall|k: int| 0 <= k < defaults@.len() ==> binder_consistent_ty((#[trigger] defaults@[k])@),
{
    let mut k: usize = 0;
    while k < defaults.len()
        invariant
            k <= defaults.len(),
            forall|j: int| 0 <= j < k ==> binder_consistent_ty((#[trigger] defaults@[j])@),
        decreases defaults.len() - k,
    {
        if !defaults[k].is_binder_consistent() {
            return false;
        }
        k += 1;
    }
    true
}

fn predicates_consistent(preds: &Vec<Binders<GenericPredicate>>, count: usize) -> (r: bool)
    ensures
        r == forall|k: int|
            0 <= k < preds@.len() ==> closed_pred((#[trigger] preds@[k]).value@, 0, seq![count as nat]),
{
    let mut k: usize = 0;
    while k < preds.len()
        invariant
            k <= preds.len(),
            forall|j: int| 0 <= j < k ==> closed_pred((#[trigger] preds@[j]).value@, 0, seq![count as nat]),
        decreases preds.len() - k,
    {
        if !is_closed_pred(&preds[k].value, 0, count) {
            return false;
        }
        k += 1;
    }
    true
}

/// Whether what the database holds for the definition `def` is consistent.
pub fn is_item_consistent(db: &Database, def: GenericDefId) -> (r: bool)
    requires
        db.spec_item(def) is Some,
    ensures
        r == item_consistent(*db, def),
{
    let item = db.item_of(def);
    if !is_scope_of(db, &item.resolver, Some(def)) {
        return false;
    }
    let count = generics(db, def).len();
    if !defaults_consistent(&item.generic_defaults) {
        return false;
    }
    let mut j: usize = 0;
    while j < item.param_predicates.len() && j <= u32::MAX as usize
        invariant
            j <= item.param_predicates.len(),
            j <= u32::MAX + 1,
            db.spec_item(def) == Some(*item),
            count == generic_param_list(*db, def).len(),
            forall|a: int, k: int|
                0 <= a < j && 0 <= k < item.param_predicates@[a]@.len() ==> closed_pred(
                    (#[trigger] item.param_predicates@[a]@[k]).value@,
                    0,
                    seq![count as nat],
                ),
        decreases item.param_predicates.len() - j,
    {
        if !predicates_consistent(&item.param_predicates[j], count) {
            proof {
                let preds = item.param_predicates@[j as int]@;
                let k = choose|k: int|
                    0 <= k < preds.len() && !closed_pred((#[trigger] preds[k]).value@, 0, seq![count as nat]);
                assert(!closed_pred(
                    item.param_predicates@[j as int]@[k].value@,
                    0,
                    seq![generic_param_list(*db, def).len()],
                ));
            }
            return false;
        }
        j += 1;
    }
    true
}

// ---------------------------------------------------------------------------
// The database
// ---------------------------------------------------------------------------

/// The kinds of definitions that have generic parameters of their own.
#[derive(Clone, Copy, Debug, PartialEq, Eq, Structural)]
pub enum ItemKind {
    Function,
    Struct,
    Union,
    Enum,
    Trait,
    TypeAlias,
    Impl,
    Const,
}

/// The definition of the kind `kind` with the number `index`.
pub open spec fn kind_def(kind: ItemKind, index: u32) -> GenericDefId {
    match kind {
        ItemKind::Function => GenericDefId::FunctionId(FunctionId(index)),
        ItemKind::Struct => GenericDefId::AdtId(AdtId::StructId(StructId(index))),
        ItemKind::Union => GenericDefId::AdtId(AdtId::UnionId(UnionId(index))),
        ItemKind::Enum => GenericDefId::AdtId(AdtId::EnumId(EnumId(index))),
        ItemKind::Trait => GenericDefId::TraitId(TraitId(index)),
        ItemKind::TypeAlias => GenericDefId::TypeAliasId(TypeAliasId(index)),
        ItemKind::Impl => GenericDefId::ImplId(ImplId(index)),
        ItemKind::Const => GenericDefId::ConstId(ConstId(index)),
    }
}

/// The number of definitions of the kind `kind` that the database holds.
pub open spec fn kind_len(db: Database, kind: ItemKind) -> nat {
    match kind {
        ItemKind::Function => db.functions@.len(),
        ItemKind::Struct => db.structs@.len(),
        ItemKind::Union => db.unions@.len(),
        ItemKind::Enum => db.enums@.len(),
        ItemKind::Trait => db.traits@.len(),
        ItemKind::TypeAlias => db.type_aliases@.len(),
        ItemKind::Impl => db.impls@.len(),
        ItemKind::Const => db.consts@.len(),
    }
}

/// The kind and the number of a definition that can have generic parameters
/// of its own.
pub open spec fn def_kind(def: GenericDefId) -> Option<(ItemKind, u32)> {
    match def {
        GenericDefId::FunctionId(id) => Some((ItemKind::Function, id.0)),
        GenericDefId::AdtId(AdtId::StructId(id)) => Some((ItemKind::Struct, id.0)),
        GenericDefId::AdtId(AdtId::UnionId(id)) => Some((ItemKind::Union, id.0)),
        GenericDefId::AdtId(AdtId::EnumId(id)) => Some((ItemKind::Enum, id.0)),
        GenericDefId::TraitId(id) => Some((ItemKind::Trait, id.0)),
        GenericDefId::TypeAliasId(id) => Some((ItemKind::TypeAlias, id.0)),
        GenericDefId::ImplId(id) => Some((ItemKind::Impl, id.0)),
        GenericDefId::EnumVariantId(_) => None,
        GenericDefId::ConstId(id) => Some((ItemKind::Const, id.0)),
    }
}

/// A definition that the database holds is the definition of its kind with
/// its number, and the number is below the number of definitions of the
/// kind.
pub proof fn lemma_def_kind(db: Database, def: GenericDefId)
    ensures
        db.spec_item(def) is Some <==> (def_kind(def) matches Some((kind, index)) && index < kind_len(db, kind)),
        def_kind(def) matches Some((kind, index)) ==> kind_def(kind, index) == def,
{
}

impl Database {
    fn kind_len(&self, kind: ItemKind) -> (n: usize)
        ensures
            n == kind_len(*self, kind),
    {
        match kind {
            ItemKind::Function => self.functions.len(),
            ItemKind::Struct => self.structs.len(),
            ItemKind::Union => self.unions.len(),
            ItemKind::Enum => self.enums.len(),
            ItemKind::Trait => self.traits.len(),
            ItemKind::TypeAlias => self.type_aliases.len(),
            ItemKind::Impl => self.impls.len(),
            ItemKind::Const => self.consts.len(),
        }
    }

    /// Whether what the database holds for the definitions of the kind
    /// `kind` is consistent.
    fn kind_consistent(&self, kind: ItemKind) -> (r: bool)
        ensures
            r == forall|index: u32|
                index < kind_len(*self, kind) ==> item_consistent(*self, #[trigger] kind_def(kind, index)),
    {
        let n = self.kind_len(kind);
        let mut i: usize = 0;
        while i < n && i <= u32::MAX as usize
            invariant
                i <= n,
                i <= u32::MAX + 1,
                n == kind_len(*self, kind),
                forall|index: u32| index < i ==> item_consistent(*self, #[trigger] kind_def(kind, index)),
            decreases n - i,
        {
            let index = i as u32;
            let def = match kind {
                ItemKind::Function => GenericDefId::FunctionId(FunctionId(index)),
                ItemKind::Struct => GenericDefId::AdtId(AdtId::StructId(StructId(index))),
                ItemKind::Union => GenericDefId::AdtId(AdtId::UnionId(UnionId(index))),
                ItemKind::Enum => GenericDefId::AdtId(AdtId::EnumId(EnumId(index))),
                ItemKind::Trait => GenericDefId::TraitId(TraitId(index)),
                ItemKind::TypeAlias => GenericDefId::TypeAliasId(TypeAliasId(index)),
                ItemKind::Impl => GenericDefId::ImplId(ImplId(index)),
                ItemKind::Const => GenericDefId::ConstId(ConstId(index)),
            };
            proof {
                lemma_def_kind(*self, def);
            }
            if !is_item_consistent(self, def) {
                assert(!item_consistent(*self, kind_def(kind, index)));
                return false;
            }
            i += 1;
        }
        true
    }

    /// Whether the evaluated declared types of the type aliases are
    /// binder-consistent.
    fn type_aliases_consistent(&self) -> (r: bool)
        ensures
            r == forall|t: TypeAliasId| #[trigger]
                self.spec_type_alias_data(t) matches Some(d) ==> (d.ty matches Some(b)
                    ==> binder_consistent_ty(b@)),
    {
        let mut i: usize = 0;
        while i < self.type_aliases.len() && i <= u32::MAX as usize
            invariant
                i <= self.type_aliases.len(),
                i <= u32::MAX + 1,
                forall|t: TypeAliasId|
                    t.0 < i ==> (#[trigger] self.spec_type_alias_data(t) matches Some(d) ==> (d.ty matches Some(b)
                        ==> binder_consistent_ty(b@))),
            decreases self.type_aliases.len() - i,
        {
            match &self.type_aliases[i].ty {
                Some(b) => {
                    if !b.is_binder_consistent() {
                        assert(self.spec_type_alias_data(TypeAliasId(i as u32)) == Some(self.type_aliases@[i as int]));
                        return false;
                    }
                },
                None => {},
            }
            i += 1;
        }
        true
    }

    /// Whether the evaluated self types and traits of the impls are
    /// consistent.
    fn impls_consistent(&self) -> (r: bool)
        ensures
            r == forall|i: ImplId| #[trigger]
                self.spec_impl_data(i) matches Some(d) ==> {
                    &&& d.self_ty matches Some(b) ==> binder_consistent_ty(b@)
                    &&& d.trait_ref matches Some(b) ==> closed_tys(
                        b.value@.substs,
                        0,
                        seq![generic_param_list(*self, GenericDefId::ImplId(i)).len()],
                    )
                },
    {
        let mut i: usize = 0;
        while i < self.impls.len() && i <= u32::MAX as usize
            invariant
                i <= self.impls.len(),
                i <= u32::MAX + 1,
                forall|id: ImplId|
                    id.0 < i ==> (#[trigger] self.spec_impl_data(id) matches Some(d) ==> {
                        &&& d.self_ty matches Some(b) ==> binder_consistent_ty(b@)
                        &&& d.trait_ref matches Some(b) ==> closed_tys(
                            b.value@.substs,
                            0,
                            seq![generic_param_list(*self, GenericDefId::ImplId(id)).len()],
                        )
                    }),
            decreases self.impls.len() - i,
        {
            let id = ImplId(i as u32);
            assert(self.spec_impl_data(id) == Some(self.impls@[i as int]));
            match &self.impls[i].self_ty {
                Some(b) => {
                    if !b.is_binder_consistent() {
                        return false;
                    }
                },
                None => {},
            }
            match &self.impls[i].trait_ref {
                Some(b) => {
                    let count = generics(self, GenericDefId::ImplId(id)).len();
                    if !are_closed_tys(&b.value.substs.0, 0, count) {
                        return false;
                    }
                },
                None => {},
            }
            i += 1;
        }
        true
    }

    /// Whether the scopes of the statics are consistent.
    fn statics_consistent(&self) -> (r: bool)
        ensures
            r == forall|s: StaticId| #[trigger]
                self.spec_static_data(s) matches Some(d) ==> scope_of(*self, d.resolver, None),
    {
        let mut i: usize = 0;
        while i < self.statics.len() && i <= u32::MAX as usize
            invariant
                i <= self.statics.len(),
                i <= u32::MAX + 1,
                forall|s: StaticId|
                    s.0 < i ==> (#[trigger] self.spec_static_data(s) matches Some(d) ==> scope_of(
                        *self,
                        d.resolver,
                        None,
                    )),
            decreases self.statics.len() - i,
        {
            assert(self.spec_static_data(StaticId(i as u32)) == Some(self.statics@[i as int]));
            if !is_scope_of(self, &self.statics[i].resolver, None) {
                return false;
            }
            i += 1;
        }
        true
    }

    /// Whether the database is consistent.
    pub fn validate(&self) -> (r: bool)
        ensures
            r == database_consistent(*self),
    {
        let ok = self.kind_consistent(ItemKind::Function) && self.kind_consistent(ItemKind::Struct)
            && self.kind_consistent(ItemKind::Union) && self.kind_consistent(ItemKind::Enum)
            && self.kind_consistent(ItemKind::Trait) && self.kind_consistent(ItemKind::TypeAlias)
            && self.kind_consistent(ItemKind::Impl) && self.kind_consistent(ItemKind::Const)
            && self.type_aliases_consistent() && self.impls_consistent() && self.statics_consistent();
        proof {
            if ok {
                assert(items_consistent(*self)) by {
                    assert forall|kind: ItemKind, index: u32| index < kind_len(*self, kind) implies item_consistent(
                        *self,
                        #[trigger] kind_def(kind, index),
                    ) by {}
                }
                lemma_items_consistent(*self);
            } else if database_consistent(*self) {
                lemma_consistent_items(*self);
            }
        }
        ok
    }
}

/// Whether what the database holds for each definition is consistent.
pub open spec fn items_consistent(db: Database) -> bool {
    forall|kind: ItemKind, index: u32|
        index < kind_len(db, kind) ==> item_consistent(db, #[trigger] kind_def(kind, index))
}

/// A database is consistent where what it holds for each definition, the
/// evaluated answers of its type aliases and impls, and the scopes of its
/// statics are consistent.
pub proof fn lemma_items_consistent(db: Database)
    requires
        items_consistent(db),
        forall|t: TypeAliasId| #[trigger]
            db.spec_type_alias_data(t) matches Some(d) ==> (d.ty matches Some(b) ==> binder_consistent_ty(b@)),
        forall|i: ImplId| #[trigger]
            db.spec_impl_data(i) matches Some(d) ==> {
                &&& d.self_ty matches Some(b) ==> binder_consistent_ty(b@)
                &&& d.trait_ref matches Some(b) ==> closed_tys(
                    b.value@.substs,
                    0,
                    seq![generic_param_list(db, GenericDefId::ImplId(i)).len()],
                )
            },
        forall|s: StaticId| #[trigger]
            db.spec_static_data(s) matches Some(d) ==> scope_of(db, d.resolver, None),
    ensures
        database_consistent(db),
{
    reveal(answers_consistent);
    assert forall|def: GenericDefId| db.spec_item(def) is Some implies item_consistent(db, def) by {
        lemma_def_kind(db, def);
        let (kind, index) = def_kind(def).unwrap();
        assert(item_consistent(db, kind_def(kind, index)));
    }
    assert forall|def: GenericDefId| #[trigger] db.spec_item(def) is Some implies scope_of(
        db,
        db.spec_item(def).unwrap().resolver,
        Some(def),
    ) by {
        assert(item_consistent(db, def));
    }
    assert forall|def: GenericDefId, k: int| 0 <= k < db.spec_generic_defaults(def).len() implies binder_consistent_ty(
        (#[trigger] db.spec_generic_defaults(def)[k])@,
    ) by {
        assert(db.spec_item(def) is Some);
        assert(item_consistent(db, def));
    }
    assert forall|p: TypeParamId, k: int|
        0 <= k < db.spec_generic_predicates_for_param(p).len() implies closed_pred(
        (#[trigger] db.spec_generic_predicates_for_param(p)[k]).value@,
        0,
        seq![generic_param_list(db, p.parent).len()],
    ) by {
        assert(db.spec_item(p.parent) is Some);
        assert(item_consistent(db, p.parent));
        let item = db.spec_item(p.parent).unwrap();
        assert(db.spec_generic_predicates_for_param(p) == item.param_predicates@[p.local_id as int]@);
        assert(closed_pred(
            item.param_predicates@[p.local_id as int]@[k].value@,
            0,
            seq![generic_param_list(db, p.parent).len()],
        ));
    }
    assert forall|def: GenericDefId| #[trigger] generic_param_list(db, def).len() <= usize::MAX by {
        if db.spec_item(def) is Some {
            assert(item_consistent(db, def));
        } else {
            assert(own_params(db, def).len() == 0);
            match db.spec_parent_generic_def(def) {
                Some(p) => {
                    if db.spec_item(p) is Some {
                        assert(item_consistent(db, p));
                        assert(own_params(db, p).len() <= generic_param_list(db, p).len());
                    } else {
                        assert(own_params(db, p).len() == 0);
                    }
                },
                None => {},
            }
        }
    }
}

/// In a consistent database, what is held for each definition, the
/// evaluated answers of the type aliases and impls, and the scopes of the
/// statics are consistent.
pub proof fn lemma_consistent_items(db: Database)
    requires
        database_consistent(db),
    ensures
        items_consistent(db),
        forall|t: TypeAliasId| #[trigger]
            db.spec_type_alias_data(t) matches Some(d) ==> (d.ty matches Some(b) ==> binder_consistent_ty(b@)),
        forall|i: ImplId| #[trigger]
            db.spec_impl_data(i) matches Some(d) ==> {
                &&& d.self_ty matches Some(b) ==> binder_consistent_ty(b@)
                &&& d.trait_ref matches Some(b) ==> closed_tys(
                    b.value@.substs,
                    0,
                    seq![generic_param_list(db, GenericDefId::ImplId(i)).len()],
                )
            },
        forall|s: StaticId| #[trigger]
            db.spec_static_data(s) matches Some(d) ==> scope_of(db, d.resolver, None),
{
    reveal(answers_consistent);
    assert forall|kind: ItemKind, index: u32| index < kind_len(db, kind) implies item_consistent(
        db,
        #[trigger] kind_def(kind, index),
    ) by {
        let def = kind_def(kind, index);
        lemma_def_kind(db, def);
        let item = db.spec_item(def).unwrap();
        assert(generic_param_list(db, def).len() <= usize::MAX);
        assert(db.spec_generic_defaults(def) == item.generic_defaults@);
        assert forall|k: int| 0 <= k < item.generic_defaults@.len() implies binder_consistent_ty(
            (#[trigger] item.generic_defaults@[k])@,
        ) by {
            assert(binder_consistent_ty(db.spec_generic_defaults(def)[k]@));
        }
        assert forall|j: int, k: int|
            0 <= j < item.param_predicates@.len() && j <= u32::MAX && 0 <= k < item.param_predicates@[j]@.len() implies closed_pred(
            (#[trigger] item.param_predicates@[j]@[k]).value@,
            0,
            seq![generic_param_list(db, def).len()],
        ) by {
            let p = TypeParamId { parent: def, local_id: j as u32 };
            assert(db.spec_generic_predicates_for_param(p) == item.param_predicates@[j]@);
            assert(closed_pred(
                db.spec_generic_predicates_for_param(p)[k].value@,
                0,
                seq![generic_param_list(db, p.parent).len()],
            ));
        }
    }
}

} // verus!
