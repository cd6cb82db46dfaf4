//! What lowering reads about the program: the items with their syntax, the
//! answers of name resolution, and the answers of queries that were evaluated
//! before.
//!
//! Every lookup is total. A definition that the database does not hold has no
//! generic parameters and no data, and a query that was not evaluated yet
//! reads as the value that the query recovers with when it depends on itself.
use vstd::prelude::*;
use crate::binders::Binders;
use crate::ids::{
    AdtId, AssocContainerId, BuiltinType, ConstId, CrateId, EnumId, EnumVariantId, FunctionId,
    GenericDefId, ImplId, Name, StaticId, StructId, TraitId, TypeAliasId, TypeParamId, UnionId,
    VariantId,
};
use crate::ty::{GenericPredicate, TraitRef, Ty};
use crate::type_ref::{Path, PathSegment, TypeRef, WherePredicate};

verus! {

/// How a type parameter came to be.
#[derive(Clone, Copy, Debug, PartialEq, Eq, Hash, Structural)]
pub enum TypeParamProvenance {
    /// Written in the parameter list.
    TypeParamList,
    /// The implicit `Self` of a trait.
    TraitSelf,
    /// Made for an `impl Trait` in argument position.
    ArgumentImplTrait,
}

#[derive(Debug, PartialEq, Eq, Hash)]
pub struct TypeParamData {
    pub name: Option<Name>,
    pub default: Option<TypeRef>,
    pub provenance: TypeParamProvenance,
}

#[derive(Debug, PartialEq, Eq, Hash)]
pub struct ConstParamData {
    pub name: Name,
    pub ty: TypeRef,
}

/// The generic parameters that a definition declares itself.
#[derive(Debug, PartialEq, Eq, Hash)]
pub struct GenericParams {
    pub types: Vec<TypeParamData>,
    pub consts: Vec<ConstParamData>,
}

/// What a path resolves to in the type namespace.
#[derive(Clone, Copy, Debug, PartialEq, Eq, Hash, Structural)]
pub enum TypeNs {
    SelfType(ImplId),
    GenericParam(TypeParamId),
    AdtId(AdtId),
    AdtSelfType(AdtId),
    EnumVariantId(EnumVariantId),
    TypeAliasId(TypeAliasId),
    BuiltinType(BuiltinType),
    TraitId(TraitId),
}

/// One answer of name resolution: the path, by the names of its segments,
/// what it resolves to, and, where only a prefix of the path resolved, the
/// number of segments in that prefix.
#[derive(Debug, PartialEq, Eq, Hash)]
pub struct TypeNsEntry {
    pub path: Vec<Name>,
    pub resolution: TypeNs,
    pub remaining_index: Option<usize>,
}

/// The scope in which a type reference is read.
#[derive(Debug, PartialEq, Eq, Hash)]
pub struct Resolver {
    /// The innermost definition with generic parameters around the scope.
    pub generic_def: Option<GenericDefId>,
    pub type_ns: Vec<TypeNsEntry>,
    pub where_predicates: Vec<WherePredicate>,
}

/// What every definition with generic parameters has.
#[derive(Debug, PartialEq, Eq, Hash)]
pub struct ItemData {
    pub krate: CrateId,
    pub generic_params: GenericParams,
    pub resolver: Resolver,
    /// The lowered defaults of the generic parameters, once evaluated.
    pub generic_defaults: Vec<Binders<Ty>>,
    /// For each own type parameter, the lowered predicates on it, once
    /// evaluated.
    pub param_predicates: Vec<Vec<Binders<GenericPredicate>>>,
}

#[derive(Debug, PartialEq, Eq, Hash)]
pub struct FieldData {
    pub name: Name,
    pub type_ref: TypeRef,
}

#[derive(Clone, Copy, Debug, PartialEq, Eq, Hash, Structural)]
pub enum StructKind {
    Tuple,
    Record,
    Unit,
}

#[derive(Debug, PartialEq, Eq, Hash)]
pub struct VariantData {
    pub kind: StructKind,
    pub fields: Vec<FieldData>,
}

#[derive(Debug, PartialEq, Eq, Hash)]
pub struct FunctionData {
    pub item: ItemData,
    pub container: AssocContainerId,
    pub params: Vec<TypeRef>,
    pub ret_type: TypeRef,
    pub is_varargs: bool,
}

#[derive(Debug, PartialEq, Eq, Hash)]
pub struct StructData {
    pub item: ItemData,
    pub variant_data: VariantData,
}

#[derive(Debug, PartialEq, Eq, Hash)]
pub struct UnionData {
    pub item: ItemData,
    pub variant_data: VariantData,
}

#[derive(Debug, PartialEq, Eq, Hash)]
pub struct EnumData {
    pub item: ItemData,
    pub variants: Vec<VariantData>,
}

#[derive(Clone, Copy, Debug, PartialEq, Eq, Hash, Structural)]
pub enum AssocItemId {
    FunctionId(FunctionId),
    ConstId(ConstId),
    TypeAliasId(TypeAliasId),
}

#[derive(Debug, PartialEq, Eq, Hash)]
pub struct TraitData {
    pub item: ItemData,
    pub items: Vec<(Name, AssocItemId)>,
}

#[derive(Debug, PartialEq, Eq, Hash)]
pub struct TypeAliasData {
    pub item: ItemData,
    pub container: AssocContainerId,
    pub type_ref: Option<TypeRef>,
    pub is_extern: bool,
    /// The declared type, once evaluated.
    pub ty: Option<Binders<Ty>>,
}

#[derive(Debug, PartialEq, Eq, Hash)]
pub struct ImplData {
    pub item: ItemData,
    pub target_type: TypeRef,
    pub target_trait: Option<TypeRef>,
    /// The lowered self type, once evaluated.
    pub self_ty: Option<Binders<Ty>>,
    /// The lowered trait, once evaluated and where the impl has one.
    pub trait_ref: Option<Binders<TraitRef>>,
}

#[derive(Debug, PartialEq, Eq, Hash)]
pub struct ConstData {
    pub item: ItemData,
    pub container: AssocContainerId,
    pub type_ref: TypeRef,
}

#[derive(Debug, PartialEq, Eq, Hash)]
pub struct StaticData {
    pub krate: CrateId,
    pub resolver: Resolver,
    pub type_ref: TypeRef,
}

/// The program as lowering sees it. An identity names the entry at its
/// number in the list of its kind.
#[derive(Debug, PartialEq, Eq, Hash)]
pub struct Database {
    pub functions: Vec<FunctionData>,
    pub structs: Vec<StructData>,
    pub unions: Vec<UnionData>,
    pub enums: Vec<EnumData>,
    pub traits: Vec<TraitData>,
    pub type_aliases: Vec<TypeAliasData>,
    pub impls: Vec<ImplData>,
    pub consts: Vec<ConstData>,
    pub statics: Vec<StaticData>,
}

// ---------------------------------------------------------------------------
// Name resolution
// ---------------------------------------------------------------------------

/// The names of a path's segments, in order.
pub open spec fn path_names(segments: Seq<PathSegment>) -> Seq<Name> {
    Seq::new(segments.len(), |i: int| segments[i].name)
}

/// The first of `entries`, from position `from` on, whose path is `names`.
pub open spec fn find_entry(entries: Seq<TypeNsEntry>, names: Seq<Name>, from: int) -> Option<int>
    decreases entries.len() - from,
{
    if from < 0 || from >= entries.len() {
        None
    } else if entries[from].path@ == names {
        Some(from)
    } else {
        find_entry(entries, names, from + 1)
    }
}

fn names_match(entry: &Vec<Name>, segments: &Vec<PathSegment>) -> (r: bool)
    ensures
        r == (entry@ == path_names(segments@)),
{
    if entry.len() != segments.len() {
        return false;
    }
    let mut i: usize = 0;
    while i < entry.len()
        invariant
            i <= entry.len(),
            entry.len() == segments.len(),
            forall|j: int| 0 <= j < i ==> entry@[j] == segments@[j].name,
        decreases entry.len() - i,
    {
        if entry[i] != segments[i].name {
            assert(entry@[i as int] != path_names(segments@)[i as int]);
            return false;
        }
        i += 1;
    }
    assert(entry@ =~= path_names(segments@));
    true
}

impl Resolver {
    /// A scope in which no path resolves.
    pub fn new(generic_def: Option<GenericDefId>) -> (r: Resolver)
        ensures
            r.generic_def == generic_def,
            r.type_ns@.len() == 0,
            r.where_predicates@.len() == 0,
    {
        Resolver { generic_def, type_ns: Vec::new(), where_predicates: Vec::new() }
    }

    pub fn generic_def(&self) -> (r: Option<GenericDefId>)
        ensures
            r == self.generic_def,
    {
        self.generic_def
    }

    /// What `path` resolves to in the type namespace: the answer of the
    /// first entry for the path, if there is one and it fits the path. An
    /// answer fits where the number of resolved segments is at least 1 and at
    /// most the number of segments, and where a path that resolved as a whole
    /// has a segment at all.
    pub open spec fn spec_resolve(&self, segments: Seq<PathSegment>) -> Option<(TypeNs, Option<usize>)> {
        match find_entry(self.type_ns@, path_names(segments), 0) {
            None => None,
            Some(i) => {
                let e = self.type_ns@[i];
                match e.remaining_index {
                    None => if segments.len() > 0 {
                        Some((e.resolution, None))
                    } else {
                        None
                    },
                    Some(n) => if 1 <= n <= segments.len() {
                        Some((e.resolution, Some(n)))
                    } else {
                        None
                    },
                }
            },
        }
    }

    pub fn resolve_path_in_type_ns(&self, path: &Path) -> (r: Option<(TypeNs, Option<usize>)>)
        ensures
            r == self.spec_resolve(path.segments@),
    {
        let mut i: usize = 0;
        while i < self.type_ns.len()
            invariant
                i <= self.type_ns.len(),
                find_entry(self.type_ns@, path_names(path.segments@), 0) == find_entry(
                    self.type_ns@,
                    path_names(path.segments@),
                    i as int,
                ),
            decreases self.type_ns.len() - i,
        {
            if names_match(&self.type_ns[i].path, &path.segments) {
                let e = &self.type_ns[i];
                return match e.remaining_index {
                    None => if path.segments.len() > 0 {
                        Some((e.resolution, None))
                    } else {
                        None
                    },
                    Some(n) => if 1 <= n && n <= path.segments.len() {
                        Some((e.resolution, Some(n)))
                    } else {
                        None
                    },
                };
            }
            i += 1;
        }
        None
    }

    /// What `path` resolves to where all of it resolves.
    pub open spec fn spec_resolve_fully(&self, segments: Seq<PathSegment>) -> Option<TypeNs> {
        match self.spec_resolve(segments) {
            Some((res, None)) => Some(res),
            _ => None,
        }
    }

    pub fn resolve_path_in_type_ns_fully(&self, path: &Path) -> (r: Option<TypeNs>)
        ensures
            r == self.spec_resolve_fully(path.segments@),
    {
        match self.resolve_path_in_type_ns(path) {
            Some((res, None)) => Some(res),
            _ => None,
        }
    }

    pub fn where_predicates_in_scope(&self) -> (r: &Vec<WherePredicate>)
        ensures
            r == &self.where_predicates,
    {
        &self.where_predicates
    }
}

// ---------------------------------------------------------------------------
// Lookups
// ---------------------------------------------------------------------------

impl Database {
    /// A database without items.
    pub fn new() -> (db: Database)
        ensures
            crate::consistency::database_consistent(db),
            db.functions@.len() == 0,
            db.structs@.len() == 0,
            db.unions@.len() == 0,
            db.enums@.len() == 0,
            db.traits@.len() == 0,
            db.type_aliases@.len() == 0,
            db.impls@.len() == 0,
            db.consts@.len() == 0,
            db.statics@.len() == 0,
    {
        let db = Database {
            functions: Vec::new(),
            structs: Vec::new(),
            unions: Vec::new(),
            enums: Vec::new(),
            traits: Vec::new(),
            type_aliases: Vec::new(),
            impls: Vec::new(),
            consts: Vec::new(),
            statics: Vec::new(),
        };
        proof {
            reveal(crate::consistency::answers_consistent);
            assert forall|def: GenericDefId| db.spec_item(def) is None by {}
            assert forall|def: GenericDefId| #[trigger]
                crate::generics::generic_param_list(db, def).len() == 0 by {
                assert(db.spec_item(def) is None);
                match db.spec_parent_generic_def(def) {
                    Some(p) => {
                        assert(db.spec_item(p) is None);
                    },
                    None => {},
                }
            }
        }
        db
    }

    pub open spec fn spec_function_data(&self, id: FunctionId) -> Option<FunctionData> {
        if id.0 < self.functions@.len() {
            Some(self.functions@[id.0 as int])
        } else {
            None
        }
    }

    pub fn function_data(&self, id: FunctionId) -> (r: Option<&FunctionData>)
        ensures
            r == match self.spec_function_data(id) {
                Some(d) => Some(&d),
                None => None,
            },
    {
        if (id.0 as usize) < self.functions.len() {
            Some(&self.functions[id.0 as usize])
        } else {
            None
        }
    }

    pub open spec fn spec_struct_data(&self, id: StructId) -> Option<StructData> {
        if id.0 < self.structs@.len() {
            Some(self.structs@[id.0 as int])
        } else {
            None
        }
    }

    pub fn struct_data(&self, id: StructId) -> (r: Option<&StructData>)
        ensures
            r == match self.spec_struct_data(id) {
                Some(d) => Some(&d),
                None => None,
            },
    {
        if (id.0 as usize) < self.structs.len() {
            Some(&self.structs[id.0 as usize])
        } else {
            None
        }
    }

    pub open spec fn spec_union_data(&self, id: UnionId) -> Option<UnionData> {
        if id.0 < self.unions@.len() {
            Some(self.unions@[id.0 as int])
        } else {
            None
        }
    }

    pub fn union_data(&self, id: UnionId) -> (r: Option<&UnionData>)
        ensures
            r == match self.spec_union_data(id) {
                Some(d) => Some(&d),
                None => None,
            },
    {
        if (id.0 as usize) < self.unions.len() {
            Some(&self.unions[id.0 as usize])
        } else {
            None
        }
    }

    pub open spec fn spec_enum_data(&self, id: EnumId) -> Option<EnumData> {
        if id.0 < self.enums@.len() {
            Some(self.enums@[id.0 as int])
        } else {
            None
        }
    }

    pub fn enum_data(&self, id: EnumId) -> (r: Option<&EnumData>)
        ensures
            r == match self.spec_enum_data(id) {
                Some(d) => Some(&d),
                None => None,
            },
    {
        if (id.0 as usize) < self.enums.len() {
            Some(&self.enums[id.0 as usize])
        } else {
            None
        }
    }

    pub open spec fn spec_trait_data(&self, id: TraitId) -> Option<TraitData> {
        if id.0 < self.traits@.len() {
            Some(self.traits@[id.0 as int])
        } else {
            None
        }
    }

    pub fn trait_data(&self, id: TraitId) -> (r: Option<&TraitData>)
        ensures
            r == match self.spec_trait_data(id) {
                Some(d) => Some(&d),
                None => None,
            },
    {
        if (id.0 as usize) < self.traits.len() {
            Some(&self.traits[id.0 as usize])
        } else {
            None
        }
    }

    pub open spec fn spec_type_alias_data(&self, id: TypeAliasId) -> Option<TypeAliasData> {
        if id.0 < self.type_aliases@.len() {
            Some(self.type_aliases@[id.0 as int])
        } else {
            None
        }
    }

    pub fn type_alias_data(&self, id: TypeAliasId) -> (r: Option<&TypeAliasData>)
        ensures
            r == match self.spec_type_alias_data(id) {
                Some(d) => Some(&d),
                None => None,
            },
    {
        if (id.0 as usize) < self.type_aliases.len() {
            Some(&self.type_aliases[id.0 as usize])
        } else {
            None
        }
    }

    pub open spec fn spec_impl_data(&self, id: ImplId) -> Option<ImplData> {
        if id.0 < self.impls@.len() {
            Some(self.impls@[id.0 as int])
        } else {
            None
        }
    }

    pub fn impl_data(&self, id: ImplId) -> (r: Option<&ImplData>)
        ensures
            r == match self.spec_impl_data(id) {
                Some(d) => Some(&d),
                None => None,
            },
    {
        if (id.0 as usize) < self.impls.len() {
            Some(&self.impls[id.0 as usize])
        } else {
            None
        }
    }

    pub open spec fn spec_const_data(&self, id: ConstId) -> Option<ConstData> {
        if id.0 < self.consts@.len() {
            Some(self.consts@[id.0 as int])
        } else {
            None
        }
    }

    pub fn const_data(&self, id: ConstId) -> (r: Option<&ConstData>)
        ensures
            r == match self.spec_const_data(id) {
                Some(d) => Some(&d),
                None => None,
            },
    {
        if (id.0 as usize) < self.consts.len() {
            Some(&self.consts[id.0 as usize])
        } else {
            None
        }
    }

    pub open spec fn spec_static_data(&self, id: StaticId) -> Option<StaticData> {
        if id.0 < self.statics@.len() {
            Some(self.statics@[id.0 as int])
        } else {
            None
        }
    }

    pub fn static_data(&self, id: StaticId) -> (r: Option<&StaticData>)
        ensures
            r == match self.spec_static_data(id) {
                Some(d) => Some(&d),
                None => None,
            },
    {
        if (id.0 as usize) < self.statics.len() {
            Some(&self.statics[id.0 as usize])
        } else {
            None
        }
    }

    /// What the definition `def` has as a generic item. An enum variant has
    /// nothing of its own: its parameters are those of its enum.
    pub open spec fn spec_item(&self, def: GenericDefId) -> Option<ItemData> {
        match def {
            GenericDefId::FunctionId(id) => match self.spec_function_data(id) {
                Some(d) => Some(d.item),
                None => None,
            },
            GenericDefId::AdtId(AdtId::StructId(id)) => match self.spec_struct_data(id) {
                Some(d) => Some(d.item),
                None => None,
            },
            GenericDefId::AdtId(AdtId::UnionId(id)) => match self.spec_union_data(id) {
                Some(d) => Some(d.item),
                None => None,
            },
            GenericDefId::AdtId(AdtId::EnumId(id)) => match self.spec_enum_data(id) {
                Some(d) => Some(d.item),
                None => None,
            },
            GenericDefId::TraitId(id) => match self.spec_trait_data(id) {
                Some(d) => Some(d.item),
                None => None,
            },
            GenericDefId::TypeAliasId(id) => match self.spec_type_alias_data(id) {
                Some(d) => Some(d.item),
                None => None,
            },
            GenericDefId::ImplId(id) => match self.spec_impl_data(id) {
                Some(d) => Some(d.item),
                None => None,
            },
            GenericDefId::EnumVariantId(_) => None,
            GenericDefId::ConstId(id) => match self.spec_const_data(id) {
                Some(d) => Some(d.item),
                None => None,
            },
        }
    }

    pub fn item(&self, def: GenericDefId) -> (r: Option<&ItemData>)
        ensures
            r == match self.spec_item(def) {
                Some(d) => Some(&d),
                None => None,
            },
    {
        match def {
            GenericDefId::FunctionId(id) => match self.function_data(id) {
                Some(d) => Some(&d.item),
                None => None,
            },
            GenericDefId::AdtId(AdtId::StructId(id)) => match self.struct_data(id) {
                Some(d) => Some(&d.item),
                None => None,
            },
            GenericDefId::AdtId(AdtId::UnionId(id)) => match self.union_data(id) {
                Some(d) => Some(&d.item),
                None => None,
            },
            GenericDefId::AdtId(AdtId::EnumId(id)) => match self.enum_data(id) {
                Some(d) => Some(&d.item),
                None => None,
            },
            GenericDefId::TraitId(id) => match self.trait_data(id) {
                Some(d) => Some(&d.item),
                None => None,
            },
            GenericDefId::TypeAliasId(id) => match self.type_alias_data(id) {
                Some(d) => Some(&d.item),
                None => None,
            },
            GenericDefId::ImplId(id) => match self.impl_data(id) {
                Some(d) => Some(&d.item),
                None => None,
            },
            GenericDefId::EnumVariantId(_) => None,
            GenericDefId::ConstId(id) => match self.const_data(id) {
                Some(d) => Some(&d.item),
                None => None,
            },
        }
    }

    /// Where the definition `def` is an associated item, the impl or trait
    /// that holds it.
    pub open spec fn spec_container(&self, def: GenericDefId) -> Option<AssocContainerId> {
        match def {
            GenericDefId::FunctionId(id) => match self.spec_function_data(id) {
                Some(d) => Some(d.container),
                None => None,
            },
            GenericDefId::TypeAliasId(id) => match self.spec_type_alias_data(id) {
                Some(d) => Some(d.container),
                None => None,
            },
            GenericDefId::ConstId(id) => match self.spec_const_data(id) {
                Some(d) => Some(d.container),
                None => None,
            },
            _ => None,
        }
    }

    pub fn container(&self, def: GenericDefId) -> (r: Option<AssocContainerId>)
        ensures
            r == self.spec_container(def),
    {
        match def {
            GenericDefId::FunctionId(id) => match self.function_data(id) {
                Some(d) => Some(d.container),
                None => None,
            },
            GenericDefId::TypeAliasId(id) => match self.type_alias_data(id) {
                Some(d) => Some(d.container),
                None => None,
            },
            GenericDefId::ConstId(id) => match self.const_data(id) {
                Some(d) => Some(d.container),
                None => None,
            },
            _ => None,
        }
    }

    /// The definition whose generic parameters `def` inherits: the impl or
    /// trait of an associated item, the enum of a variant.
    pub open spec fn spec_parent_generic_def(&self, def: GenericDefId) -> Option<GenericDefId> {
        match def {
            GenericDefId::EnumVariantId(v) => Some(GenericDefId::AdtId(AdtId::EnumId(v.parent))),
            _ => match self.spec_container(def) {
                Some(AssocContainerId::ImplId(i)) => Some(GenericDefId::ImplId(i)),
                Some(AssocContainerId::TraitId(t)) => Some(GenericDefId::TraitId(t)),
                _ => None,
            },
        }
    }

    pub fn parent_generic_def(&self, def: GenericDefId) -> (r: Option<GenericDefId>)
        ensures
            r == self.spec_parent_generic_def(def),
    {
        match def {
            GenericDefId::EnumVariantId(v) => Some(GenericDefId::AdtId(AdtId::EnumId(v.parent))),
            _ => match self.container(def) {
                Some(AssocContainerId::ImplId(i)) => Some(GenericDefId::ImplId(i)),
                Some(AssocContainerId::TraitId(t)) => Some(GenericDefId::TraitId(t)),
                _ => None,
            },
        }
    }

    /// The fields of a struct, a union or an enum variant.
    pub open spec fn spec_variant_data(&self, id: VariantId) -> Option<VariantData> {
        match id {
            VariantId::StructId(s) => match self.spec_struct_data(s) {
                Some(d) => Some(d.variant_data),
                None => None,
            },
            VariantId::UnionId(u) => match self.spec_union_data(u) {
                Some(d) => Some(d.variant_data),
                None => None,
            },
            VariantId::EnumVariantId(v) => match self.spec_enum_data(v.parent) {
                Some(d) => if v.local_id < d.variants@.len() {
                    Some(d.variants@[v.local_id as int])
                } else {
                    None
                },
                None => None,
            },
        }
    }

    pub fn variant_data(&self, id: VariantId) -> (r: Option<&VariantData>)
        ensures
            r == match self.spec_variant_data(id) {
                Some(d) => Some(&d),
                None => None,
            },
    {
        match id {
            VariantId::StructId(s) => match self.struct_data(s) {
                Some(d) => Some(&d.variant_data),
                None => None,
            },
            VariantId::UnionId(u) => match self.union_data(u) {
                Some(d) => Some(&d.variant_data),
                None => None,
            },
            VariantId::EnumVariantId(v) => match self.enum_data(v.parent) {
                Some(d) => if (v.local_id as usize) < d.variants.len() {
                    Some(&d.variants[v.local_id as usize])
                } else {
                    None
                },
                None => None,
            },
        }
    }
}

// ---------------------------------------------------------------------------
// Answers of queries evaluated before
// ---------------------------------------------------------------------------

impl Database {
    /// The predicates on the type parameter `param`, as far as they were
    /// evaluated: none for a parameter without an evaluated answer.
    pub open spec fn spec_generic_predicates_for_param(&self, param: TypeParamId) -> Seq<
        Binders<GenericPredicate>,
    > {
        match self.spec_item(param.parent) {
            Some(item) => if param.local_id < item.param_predicates@.len() {
                item.param_predicates@[param.local_id as int]@
            } else {
                Seq::empty()
            },
            None => Seq::empty(),
        }
    }

    pub fn generic_predicates_for_param(&self, param: TypeParamId) -> (r: Option<
        &Vec<Binders<GenericPredicate>>,
    >)
        ensures
            match r {
                Some(v) => v@ == self.spec_generic_predicates_for_param(param),
                None => self.spec_generic_predicates_for_param(param).len() == 0,
            },
    {
        match self.item(param.parent) {
            Some(item) => if (param.local_id as usize) < item.param_predicates.len() {
                Some(&item.param_predicates[param.local_id as usize])
            } else {
                None
            },
            None => None,
        }
    }

    /// The lowered defaults of the parameters in scope of `def`, as far as
    /// they were evaluated: none where there is no evaluated answer.
    pub open spec fn spec_generic_defaults(&self, def: GenericDefId) -> Seq<Binders<Ty>> {
        match self.spec_item(def) {
            Some(item) => item.generic_defaults@,
            None => Seq::empty(),
        }
    }

    pub fn generic_defaults(&self, def: GenericDefId) -> (r: Option<&Vec<Binders<Ty>>>)
        ensures
            match r {
                Some(v) => v@ == self.spec_generic_defaults(def),
                None => self.spec_generic_defaults(def).len() == 0,
            },
    {
        match self.item(def) {
            Some(item) => Some(&item.generic_defaults),
            None => None,
        }
    }

    /// The trait that `impl_id` implements, where the impl has one and the
    /// answer was evaluated.
    pub open spec fn spec_impl_trait(&self, impl_id: ImplId) -> Option<Binders<TraitRef>> {
        match self.spec_impl_data(impl_id) {
            Some(d) => d.trait_ref,
            None => None,
        }
    }

    pub fn impl_trait(&self, impl_id: ImplId) -> (r: Option<&Binders<TraitRef>>)
        ensures
            r == match self.spec_impl_trait(impl_id) {
                Some(t) => Some(&t),
                None => None,
            },
    {
        match self.impl_data(impl_id) {
            Some(d) => match &d.trait_ref {
                Some(t) => Some(t),
                None => None,
            },
            None => None,
        }
    }
}

} // verus!
