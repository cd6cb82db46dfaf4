//! Identities of definitions. Every identity is a small copyable value that
//! names one entry of the [`crate::db::Database`]; two identities are the same
//! definition exactly when they are equal.
use vstd::prelude::*;

verus! {

/// The crate a definition belongs to.
#[derive(Clone, Copy, Debug, PartialEq, Eq, Hash, Structural)]
pub struct CrateId(pub u32);

/// An interned identifier.
#[derive(Clone, Copy, Debug, PartialEq, Eq, Hash, Structural)]
pub struct Name(pub u32);

#[derive(Clone, Copy, Debug, PartialEq, Eq, Hash, Structural)]
pub struct FunctionId(pub u32);

#[derive(Clone, Copy, Debug, PartialEq, Eq, Hash, Structural)]
pub struct StructId(pub u32);

#[derive(Clone, Copy, Debug, PartialEq, Eq, Hash, Structural)]
pub struct UnionId(pub u32);

#[derive(Clone, Copy, Debug, PartialEq, Eq, Hash, Structural)]
pub struct EnumId(pub u32);

#[derive(Clone, Copy, Debug, PartialEq, Eq, Hash, Structural)]
pub struct TraitId(pub u32);

#[derive(Clone, Copy, Debug, PartialEq, Eq, Hash, Structural)]
pub struct TypeAliasId(pub u32);

#[derive(Clone, Copy, Debug, PartialEq, Eq, Hash, Structural)]
pub struct ImplId(pub u32);

#[derive(Clone, Copy, Debug, PartialEq, Eq, Hash, Structural)]
pub struct ConstId(pub u32);

#[derive(Clone, Copy, Debug, PartialEq, Eq, Hash, Structural)]
pub struct StaticId(pub u32);

/// One variant of an enum: the enum and the variant's position in it.
#[derive(Clone, Copy, Debug, PartialEq, Eq, Hash, Structural)]
pub struct EnumVariantId {
    pub parent: EnumId,
    pub local_id: u32,
}

/// A struct, union or enum.
#[derive(Clone, Copy, Debug, PartialEq, Eq, Hash, Structural)]
pub enum AdtId {
    StructId(StructId),
    UnionId(UnionId),
    EnumId(EnumId),
}

/// A definition that can carry generic parameters.
#[derive(Clone, Copy, Debug, PartialEq, Eq, Hash, Structural)]
pub enum GenericDefId {
    FunctionId(FunctionId),
    AdtId(AdtId),
    TraitId(TraitId),
    TypeAliasId(TypeAliasId),
    ImplId(ImplId),
    EnumVariantId(EnumVariantId),
    ConstId(ConstId),
}

/// A type parameter: the definition that declares it and its position among
/// that definition's own type parameters.
#[derive(Clone, Copy, Debug, PartialEq, Eq, Hash, Structural)]
pub struct TypeParamId {
    pub parent: GenericDefId,
    pub local_id: u32,
}

/// A const parameter: the definition that declares it and its position among
/// that definition's own const parameters.
#[derive(Clone, Copy, Debug, PartialEq, Eq, Hash, Structural)]
pub struct ConstParamId {
    pub parent: GenericDefId,
    pub local_id: u32,
}

/// Something that has fields.
#[derive(Clone, Copy, Debug, PartialEq, Eq, Hash, Structural)]
pub enum VariantId {
    EnumVariantId(EnumVariantId),
    StructId(StructId),
    UnionId(UnionId),
}

/// Where an associated item lives.
#[derive(Clone, Copy, Debug, PartialEq, Eq, Hash, Structural)]
pub enum AssocContainerId {
    /// Not an associated item: declared directly in a module.
    Module,
    ImplId(ImplId),
    TraitId(TraitId),
}

/// A primitive type of the language.
#[derive(Clone, Copy, Debug, PartialEq, Eq, Hash, Structural)]
pub enum BuiltinType {
    Char,
    Bool,
    Str,
    Int(BuiltinInt),
    Uint(BuiltinUint),
    Float(BuiltinFloat),
}

#[derive(Clone, Copy, Debug, PartialEq, Eq, Hash, Structural)]
pub enum BuiltinInt {
    Isize,
    I8,
    I16,
    I32,
    I64,
    I128,
}

#[derive(Clone, Copy, Debug, PartialEq, Eq, Hash, Structural)]
pub enum BuiltinUint {
    Usize,
    U8,
    U16,
    U32,
    U64,
    U128,
}

#[derive(Clone, Copy, Debug, PartialEq, Eq, Hash, Structural)]
pub enum BuiltinFloat {
    F32,
    F64,
}

/// The occurrence of `impl Trait` in a function's return type that an opaque
/// type stands for: the function and the occurrence's index, counted in the
/// order in which the occurrences are met.
#[derive(Clone, Copy, Debug, PartialEq, Eq, Hash, Structural)]
pub struct OpaqueTyId {
    pub func: FunctionId,
    pub idx: u16,
}

/// A definition that has a type in the type namespace.
#[derive(Clone, Copy, Debug, PartialEq, Eq, Hash, Structural)]
pub enum TyDefId {
    BuiltinType(BuiltinType),
    AdtId(AdtId),
    TypeAliasId(TypeAliasId),
}

/// A definition that has a type in the value namespace.
#[derive(Clone, Copy, Debug, PartialEq, Eq, Hash, Structural)]
pub enum ValueTyDefId {
    FunctionId(FunctionId),
    StructId(StructId),
    UnionId(UnionId),
    EnumVariantId(EnumVariantId),
    ConstId(ConstId),
    StaticId(StaticId),
}

} // verus!
