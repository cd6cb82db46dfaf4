//! The internal representation of types, and its mathematical model.
//!
//! Every executable type here has a view, a ghost value built from `Seq`
//! instead of `Vec`. Two terms are the same type exactly when their views are
//! equal, and all contracts of this crate are stated over views.
use vstd::prelude::*;
use crate::ids::{
    AdtId, BuiltinType, EnumVariantId, FunctionId, OpaqueTyId, StructId, TraitId, TypeAliasId,
    TypeParamId,
};

verus! {

/// Names a binder by the number of binders between it and the place where
/// the index stands: 0 is the innermost enclosing binder.
#[derive(Clone, Copy, Debug, PartialEq, Eq, Hash, Structural)]
pub struct DebruijnIndex {
    pub depth: u32,
}

/// A variable bound by an enclosing binder: the binder, and the position of
/// the variable among those that the binder introduces.
#[derive(Clone, Copy, Debug, PartialEq, Eq, Hash, Structural)]
pub struct BoundVar {
    pub debruijn: DebruijnIndex,
    pub index: usize,
}

#[derive(Clone, Copy, Debug, PartialEq, Eq, Hash, Structural)]
pub enum Mutability {
    Mut,
    Not,
}

#[derive(Clone, Copy, Debug, PartialEq, Eq, Hash, Structural)]
pub enum Safety {
    Safe,
    Unsafe,
}

/// What a function pointer type says besides its parameter and return types.
#[derive(Clone, Copy, Debug, PartialEq, Eq, Hash, Structural)]
pub struct FnSig {
    pub safety: Safety,
    pub variadic: bool,
}

/// A type term.
#[derive(Debug, PartialEq, Eq, Hash)]
pub enum Ty {
    Never,
    Builtin(BuiltinType),
    /// A tuple: its arity and its component types.
    Tuple(usize, Substs),
    Adt(AdtId, Substs),
    RawPointer(Mutability, Box<Ty>),
    Array(Box<Ty>),
    Slice(Box<Ty>),
    Reference(Mutability, Box<Ty>),
    FunctionPointer(FnPointer),
    /// The type of a function item or of a tuple constructor.
    FunctionDef(CallableDefId, Substs),
    /// A trait object. Its predicates stand under one binder of their own,
    /// whose single variable is the erased self type.
    Dyn(Vec<GenericPredicate>),
    Alias(AliasTy),
    BoundVar(BoundVar),
    /// A generic parameter seen from inside its definition.
    Placeholder(TypeParamId),
    ForeignType(TypeAliasId),
    /// What a type reference lowers to when it cannot be resolved.
    Unknown,
}

/// An ordered list of types, one for each generic parameter of a definition.
#[derive(Debug, PartialEq, Eq, Hash)]
pub struct Substs(pub Vec<Ty>);

/// A function pointer type. `substs` holds the parameter types followed by
/// the return type.
#[derive(Debug, PartialEq, Eq, Hash)]
pub struct FnPointer {
    pub num_args: usize,
    pub sig: FnSig,
    pub substs: Substs,
}

#[derive(Debug, PartialEq, Eq, Hash)]
pub enum AliasTy {
    Projection(ProjectionTy),
    Opaque(OpaqueTy),
}

/// The associated type `associated_ty_id` of the trait implementation that
/// `substitution` selects.
#[derive(Debug, PartialEq, Eq, Hash)]
pub struct ProjectionTy {
    pub associated_ty_id: TypeAliasId,
    pub substitution: Substs,
}

#[derive(Debug, PartialEq, Eq, Hash)]
pub struct OpaqueTy {
    pub opaque_ty_id: OpaqueTyId,
    pub substitution: Substs,
}

/// `substs[0]` implements `trait_` with the remaining entries of `substs` as
/// the trait's own parameters.
#[derive(Debug, PartialEq, Eq, Hash)]
pub struct TraitRef {
    pub trait_: TraitId,
    pub substs: Substs,
}

/// The obligation that a projection equals a type.
#[derive(Debug, PartialEq, Eq, Hash)]
pub struct ProjectionPredicate {
    pub projection_ty: ProjectionTy,
    pub ty: Ty,
}

#[derive(Debug, PartialEq, Eq, Hash)]
pub enum GenericPredicate {
    Implemented(TraitRef),
    Projection(ProjectionPredicate),
    /// What a bound lowers to when its trait cannot be resolved.
    Error,
}

/// An item that can be called like a function.
#[derive(Clone, Copy, Debug, PartialEq, Eq, Hash, Structural)]
pub enum CallableDefId {
    FunctionId(FunctionId),
    StructId(StructId),
    EnumVariantId(EnumVariantId),
}

// ---------------------------------------------------------------------------
// The model
// ---------------------------------------------------------------------------

/// The model of [`Ty`].
pub enum TyV {
    Never,
    Builtin(BuiltinType),
    Tuple(nat, Seq<TyV>),
    Adt(AdtId, Seq<TyV>),
    RawPointer(Mutability, Box<TyV>),
    Array(Box<TyV>),
    Slice(Box<TyV>),
    Reference(Mutability, Box<TyV>),
    FunctionPointer(nat, FnSig, Seq<TyV>),
    FunctionDef(CallableDefId, Seq<TyV>),
    Dyn(Seq<PredV>),
    Projection(ProjectionTyV),
    Opaque(OpaqueTyId, Seq<TyV>),
    BoundVar(BoundVar),
    Placeholder(TypeParamId),
    ForeignType(TypeAliasId),
    Unknown,
}

/// The model of [`ProjectionTy`].
pub struct ProjectionTyV {
    pub associated_ty_id: TypeAliasId,
    pub substitution: Seq<TyV>,
}

/// The model of [`TraitRef`].
pub struct TraitRefV {
    pub trait_: TraitId,
    pub substs: Seq<TyV>,
}

/// The model of [`GenericPredicate`].
pub enum PredV {
    Implemented(TraitRefV),
    Projection(ProjectionTyV, TyV),
    Error,
}

/// The model of a type term.
pub open spec fn ty_view(t: Ty) -> TyV
    decreases t,
{
    match t {
        Ty::Never => TyV::Never,
        Ty::Builtin(b) => TyV::Builtin(b),
        Ty::Tuple(n, s) => TyV::Tuple(n as nat, tys_view(s.0@)),
        Ty::Adt(id, s) => TyV::Adt(id, tys_view(s.0@)),
        Ty::RawPointer(m, t) => TyV::RawPointer(m, Box::new(ty_view(*t))),
        Ty::Array(t) => TyV::Array(Box::new(ty_view(*t))),
        Ty::Slice(t) => TyV::Slice(Box::new(ty_view(*t))),
        Ty::Reference(m, t) => TyV::Reference(m, Box::new(ty_view(*t))),
        Ty::FunctionPointer(f) => TyV::FunctionPointer(f.num_args as nat, f.sig, tys_view(f.substs.0@)),
        Ty::FunctionDef(id, s) => TyV::FunctionDef(id, tys_view(s.0@)),
        Ty::Dyn(preds) => TyV::Dyn(preds_view(preds@)),
        Ty::Alias(AliasTy::Projection(p)) => TyV::Projection(
            ProjectionTyV { associated_ty_id: p.associated_ty_id, substitution: tys_view(p.substitution.0@) },
        ),
        Ty::Alias(AliasTy::Opaque(o)) => TyV::Opaque(o.opaque_ty_id, tys_view(o.substitution.0@)),
        Ty::BoundVar(b) => TyV::BoundVar(b),
        Ty::Placeholder(p) => TyV::Placeholder(p),
        Ty::ForeignType(t) => TyV::ForeignType(t),
        Ty::Unknown => TyV::Unknown,
    }
}

/// The models of the elements of a list of types, in order.
pub open spec fn tys_view(s: Seq<Ty>) -> Seq<TyV>
    decreases s,
{
    Seq::new(s.len(), |i: int| if 0 <= i < s.len() { ty_view(s[i]) } else { TyV::Unknown })
}

/// The model of a predicate.
pub open spec fn pred_view(p: GenericPredicate) -> PredV
    decreases p,
{
    match p {
        GenericPredicate::Implemented(t) => PredV::Implemented(
            TraitRefV { trait_: t.trait_, substs: tys_view(t.substs.0@) },
        ),
        GenericPredicate::Projection(p) => PredV::Projection(
            ProjectionTyV {
                associated_ty_id: p.projection_ty.associated_ty_id,
                substitution: tys_view(p.projection_ty.substitution.0@),
            },
            ty_view(p.ty),
        ),
        GenericPredicate::Error => PredV::Error,
    }
}

/// The models of the elements of a list of predicates, in order.
pub open spec fn preds_view(s: Seq<GenericPredicate>) -> Seq<PredV>
    decreases s,
{
    Seq::new(s.len(), |i: int| if 0 <= i < s.len() { pred_view(s[i]) } else { PredV::Error })
}

impl View for Ty {
    type V = TyV;

    open spec fn view(&self) -> TyV {
        ty_view(*self)
    }
}

impl View for Substs {
    type V = Seq<TyV>;

    open spec fn view(&self) -> Seq<TyV> {
        tys_view(self.0@)
    }
}

impl View for ProjectionTy {
    type V = ProjectionTyV;

    open spec fn view(&self) -> ProjectionTyV {
        ProjectionTyV { associated_ty_id: self.associated_ty_id, substitution: tys_view(self.substitution.0@) }
    }
}

impl View for TraitRef {
    type V = TraitRefV;

    open spec fn view(&self) -> TraitRefV {
        TraitRefV { trait_: self.trait_, substs: tys_view(self.substs.0@) }
    }
}

impl View for GenericPredicate {
    type V = PredV;

    open spec fn view(&self) -> PredV {
        pred_view(*self)
    }
}

} // verus!
