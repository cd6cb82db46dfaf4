//! Conversions between identities: each kind of definition into the sums
//! that it is a case of.
use vstd::prelude::*;
use vstd::std_specs::convert::FromSpecImpl;
use crate::ids::{
    AdtId, BuiltinType, ConstId, EnumId, EnumVariantId, FunctionId, GenericDefId, StaticId,
    StructId, TyDefId, TypeAliasId, UnionId, ValueTyDefId,
};
use crate::ty::CallableDefId;

verus! {

/// The definition whose generic parameters a callable item has: the
/// function, the struct, or the variant.
pub open spec fn callable_generic_def(def: CallableDefId) -> GenericDefId {
    match def {
        CallableDefId::FunctionId(f) => GenericDefId::FunctionId(f),
        CallableDefId::StructId(s) => GenericDefId::AdtId(AdtId::StructId(s)),
        CallableDefId::EnumVariantId(e) => GenericDefId::EnumVariantId(e),
    }
}

impl From<CallableDefId> for GenericDefId {
    fn from(def: CallableDefId) -> (r: GenericDefId) {
        match def {
            CallableDefId::FunctionId(f) => GenericDefId::FunctionId(f),
            CallableDefId::StructId(s) => GenericDefId::AdtId(AdtId::StructId(s)),
            CallableDefId::EnumVariantId(e) => GenericDefId::EnumVariantId(e),
        }
    }
}

impl FromSpecImpl<CallableDefId> for GenericDefId {
    open spec fn obeys_from_spec() -> bool {
        true
    }

    open spec fn from_spec(def: CallableDefId) -> GenericDefId {
        callable_generic_def(def)
    }
}

impl From<FunctionId> for CallableDefId {
    fn from(it: FunctionId) -> (r: CallableDefId) {
        CallableDefId::FunctionId(it)
    }
}

impl FromSpecImpl<FunctionId> for CallableDefId {
    open spec fn obeys_from_spec() -> bool {
        true
    }

    open spec fn from_spec(it: FunctionId) -> CallableDefId {
        CallableDefId::FunctionId(it)
    }
}

impl From<StructId> for CallableDefId {
    fn from(it: StructId) -> (r: CallableDefId) {
        CallableDefId::StructId(it)
    }
}

impl FromSpecImpl<StructId> for CallableDefId {
    open spec fn obeys_from_spec() -> bool {
        true
    }

    open spec fn from_spec(it: StructId) -> CallableDefId {
        CallableDefId::StructId(it)
    }
}

impl From<EnumVariantId> for CallableDefId {
    fn from(it: EnumVariantId) -> (r: CallableDefId) {
        CallableDefId::EnumVariantId(it)
    }
}

impl FromSpecImpl<EnumVariantId> for CallableDefId {
    open spec fn obeys_from_spec() -> bool {
        true
    }

    open spec fn from_spec(it: EnumVariantId) -> CallableDefId {
        CallableDefId::EnumVariantId(it)
    }
}

impl From<BuiltinType> for TyDefId {
    fn from(it: BuiltinType) -> (r: TyDefId) {
        TyDefId::BuiltinType(it)
    }
}

impl FromSpecImpl<BuiltinType> for TyDefId {
    open spec fn obeys_from_spec() -> bool {
        true
    }

    open spec fn from_spec(it: BuiltinType) -> TyDefId {
        TyDefId::BuiltinType(it)
    }
}

impl From<AdtId> for TyDefId {
    fn from(it: AdtId) -> (r: TyDefId) {
        TyDefId::AdtId(it)
    }
}

impl FromSpecImpl<AdtId> for TyDefId {
    open spec fn obeys_from_spec() -> bool {
        true
    }

    open spec fn from_spec(it: AdtId) -> TyDefId {
        TyDefId::AdtId(it)
    }
}

impl From<StructId> for TyDefId {
    fn from(it: StructId) -> (r: TyDefId) {
        TyDefId::AdtId(AdtId::StructId(it))
    }
}

impl FromSpecImpl<StructId> for TyDefId {
    open spec fn obeys_from_spec() -> bool {
        true
    }

    open spec fn from_spec(it: StructId) -> TyDefId {
        TyDefId::AdtId(AdtId::StructId(it))
    }
}

impl From<EnumId> for TyDefId {
    fn from(it: EnumId) -> (r: TyDefId) {
        TyDefId::AdtId(AdtId::EnumId(it))
    }
}

impl FromSpecImpl<EnumId> for TyDefId {
    open spec fn obeys_from_spec() -> bool {
        true
    }

    open spec fn from_spec(it: EnumId) -> TyDefId {
        TyDefId::AdtId(AdtId::EnumId(it))
    }
}

impl From<UnionId> for TyDefId {
    fn from(it: UnionId) -> (r: TyDefId) {
        TyDefId::AdtId(AdtId::UnionId(it))
    }
}

impl FromSpecImpl<UnionId> for TyDefId {
    open spec fn obeys_from_spec() -> bool {
        true
    }

    open spec fn from_spec(it: UnionId) -> TyDefId {
        TyDefId::AdtId(AdtId::UnionId(it))
    }
}

impl From<TypeAliasId> for TyDefId {
    fn from(it: TypeAliasId) -> (r: TyDefId) {
        TyDefId::TypeAliasId(it)
    }
}

impl FromSpecImpl<TypeAliasId> for TyDefId {
    open spec fn obeys_from_spec() -> bool {
        true
    }

    open spec fn from_spec(it: TypeAliasId) -> TyDefId {
        TyDefId::TypeAliasId(it)
    }
}

impl From<FunctionId> for ValueTyDefId {
    fn from(it: FunctionId) -> (r: ValueTyDefId) {
        ValueTyDefId::FunctionId(it)
    }
}

impl FromSpecImpl<FunctionId> for ValueTyDefId {
    open spec fn obeys_from_spec() -> bool {
        true
    }

    open spec fn from_spec(it: FunctionId) -> ValueTyDefId {
        ValueTyDefId::FunctionId(it)
    }
}

impl From<StructId> for ValueTyDefId {
    fn from(it: StructId) -> (r: ValueTyDefId) {
        ValueTyDefId::StructId(it)
    }
}

impl FromSpecImpl<StructId> for ValueTyDefId {
    open spec fn obeys_from_spec() -> bool {
        true
    }

    open spec fn from_spec(it: StructId) -> ValueTyDefId {
        ValueTyDefId::StructId(it)
    }
}

impl From<UnionId> for ValueTyDefId {
    fn from(it: UnionId) -> (r: ValueTyDefId) {
        ValueTyDefId::UnionId(it)
    }
}

impl FromSpecImpl<UnionId> for ValueTyDefId {
    open spec fn obeys_from_spec() -> bool {
        true
    }

    open spec fn from_spec(it: UnionId) -> ValueTyDefId {
        ValueTyDefId::UnionId(it)
    }
}

impl From<EnumVariantId> for ValueTyDefId {
    fn from(it: EnumVariantId) -> (r: ValueTyDefId) {
        ValueTyDefId::EnumVariantId(it)
    }
}

impl FromSpecImpl<EnumVariantId> for ValueTyDefId {
    open spec fn obeys_from_spec() -> bool {
        true
    }

    open spec fn from_spec(it: EnumVariantId) -> ValueTyDefId {
        ValueTyDefId::EnumVariantId(it)
    }
}

impl From<ConstId> for ValueTyDefId {
    fn from(it: ConstId) -> (r: ValueTyDefId) {
        ValueTyDefId::ConstId(it)
    }
}

impl FromSpecImpl<ConstId> for ValueTyDefId {
    open spec fn obeys_from_spec() -> bool {
        true
    }

    open spec fn from_spec(it: ConstId) -> ValueTyDefId {
        ValueTyDefId::ConstId(it)
    }
}

impl From<StaticId> for ValueTyDefId {
    fn from(it: StaticId) -> (r: ValueTyDefId) {
        ValueTyDefId::StaticId(it)
    }
}

impl FromSpecImpl<StaticId> for ValueTyDefId {
    open spec fn obeys_from_spec() -> bool {
        true
    }

    open spec fn from_spec(it: StaticId) -> ValueTyDefId {
        ValueTyDefId::StaticId(it)
    }
}

} // verus!
