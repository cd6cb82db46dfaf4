//! Type references as they are written in source: the input of lowering.
use vstd::prelude::*;
use crate::ids::Name;

verus! {

/// Mutability as written in a reference or raw pointer type.
#[derive(Clone, Copy, Debug, PartialEq, Eq, Hash, Structural)]
pub enum Mutability {
    Shared,
    Mut,
}

/// A lifetime as written in source. Lowering never looks inside one.
#[derive(Clone, Copy, Debug, PartialEq, Eq, Hash, Structural)]
pub struct LifetimeRef {
    pub name: Name,
}

/// A type as written in source.
#[derive(Debug, PartialEq, Eq, Hash)]
pub enum TypeRef {
    Never,
    /// The `_` type.
    Placeholder,
    Tuple(Vec<TypeRef>),
    Path(Path),
    RawPtr(Box<TypeRef>, Mutability),
    Reference(Box<TypeRef>, Option<LifetimeRef>, Mutability),
    Array(Box<TypeRef>),
    Slice(Box<TypeRef>),
    /// A function pointer type: the parameter types followed by the return
    /// type, and whether it is variadic.
    Fn(Vec<TypeRef>, bool),
    ImplTrait(Vec<TypeBound>),
    DynTrait(Vec<TypeBound>),
    Error,
}

/// One bound of a `where` clause, of `dyn` or of `impl`.
#[derive(Debug, PartialEq, Eq, Hash)]
pub enum TypeBound {
    Path(Path),
    Lifetime(LifetimeRef),
    Error,
}

/// A path: an optional type anchor (the `T` of `<T as Trait>::Item`) and the
/// segments that follow it.
#[derive(Debug, PartialEq, Eq, Hash)]
pub struct Path {
    pub type_anchor: Option<Box<TypeRef>>,
    pub segments: Vec<PathSegment>,
}

#[derive(Debug, PartialEq, Eq, Hash)]
pub struct PathSegment {
    pub name: Name,
    pub args_and_bindings: Option<GenericArgs>,
}

/// The generic arguments written on one path segment.
#[derive(Debug, PartialEq, Eq, Hash)]
pub struct GenericArgs {
    pub args: Vec<GenericArg>,
    /// Whether the first type argument is the self type, as it is where the
    /// arguments come from `<T as Trait>`.
    pub has_self_type: bool,
    pub bindings: Vec<AssociatedTypeBinding>,
}

/// `Name = T` or `Name: Bound` among the generic arguments of a trait.
#[derive(Debug, PartialEq, Eq, Hash)]
pub struct AssociatedTypeBinding {
    pub name: Name,
    pub type_ref: Option<TypeRef>,
    pub bounds: Vec<TypeBound>,
}

#[derive(Debug, PartialEq, Eq, Hash)]
pub enum GenericArg {
    Type(TypeRef),
    Lifetime(LifetimeRef),
}

/// What a `where` predicate constrains.
#[derive(Debug, PartialEq, Eq, Hash)]
pub enum WherePredicateTypeTarget {
    TypeRef(TypeRef),
    /// A type parameter of the definition in scope, by its position among
    /// that definition's own type parameters.
    TypeParam(u32),
}

#[allow(inconsistent_fields)]
#[derive(Debug, PartialEq, Eq, Hash)]
pub enum WherePredicate {
    TypeBound { target: WherePredicateTypeTarget, bound: TypeBound },
    Lifetime { target: LifetimeRef, bound: LifetimeRef },
    ForLifetime { lifetimes: Vec<Name>, target: WherePredicateTypeTarget, bound: TypeBound },
}

// ---------------------------------------------------------------------------
// Counting `impl Trait`
// ---------------------------------------------------------------------------

/// The number of `impl Trait` nodes in a type reference, itself included.
pub open spec fn impl_trait_count(t: TypeRef) -> nat
    decreases t,
{
    match t {
        TypeRef::Never | TypeRef::Placeholder | TypeRef::Error => 0,
        TypeRef::Tuple(ts) => impl_trait_count_types(ts@),
        TypeRef::Fn(ts, _) => impl_trait_count_types(ts@),
        TypeRef::Path(p) => impl_trait_count_path(p),
        TypeRef::RawPtr(inner, _) => impl_trait_count(*inner),
        TypeRef::Reference(inner, _, _) => impl_trait_count(*inner),
        TypeRef::Array(inner) => impl_trait_count(*inner),
        TypeRef::Slice(inner) => impl_trait_count(*inner),
        TypeRef::ImplTrait(bounds) => 1 + impl_trait_count_bounds(bounds@),
        TypeRef::DynTrait(bounds) => impl_trait_count_bounds(bounds@),
    }
}

/// The `impl Trait` nodes in a list of type references.
pub open spec fn impl_trait_count_types(ts: Seq<TypeRef>) -> nat
    decreases ts,
{
    if ts.len() == 0 {
        0
    } else {
        impl_trait_count_types(ts.drop_last()) + impl_trait_count(ts.last())
    }
}

/// The `impl Trait` nodes in a list of bounds.
pub open spec fn impl_trait_count_bounds(bs: Seq<TypeBound>) -> nat
    decreases bs,
{
    if bs.len() == 0 {
        0
    } else {
        impl_trait_count_bounds(bs.drop_last()) + match bs.last() {
            TypeBound::Path(p) => impl_trait_count_path(p),
            _ => 0,
        }
    }
}

/// The `impl Trait` nodes in a path: in its anchor and in the arguments and
/// bindings of its segments.
pub open spec fn impl_trait_count_path(p: Path) -> nat
    decreases p,
{
    (match p.type_anchor {
        Some(anchor) => impl_trait_count(*anchor),
        None => 0,
    }) + impl_trait_count_segments(p.segments@)
}

pub open spec fn impl_trait_count_segments(ss: Seq<PathSegment>) -> nat
    decreases ss,
{
    if ss.len() == 0 {
        0
    } else {
        impl_trait_count_segments(ss.drop_last()) + match ss.last().args_and_bindings {
            Some(ga) => impl_trait_count_args(ga.args@) + impl_trait_count_bindings(ga.bindings@),
            None => 0,
        }
    }
}

pub open spec fn impl_trait_count_args(args: Seq<GenericArg>) -> nat
    decreases args,
{
    if args.len() == 0 {
        0
    } else {
        impl_trait_count_args(args.drop_last()) + match args.last() {
            GenericArg::Type(t) => impl_trait_count(t),
            GenericArg::Lifetime(_) => 0,
        }
    }
}

pub open spec fn impl_trait_count_bindings(bs: Seq<AssociatedTypeBinding>) -> nat
    decreases bs,
{
    if bs.len() == 0 {
        0
    } else {
        impl_trait_count_bindings(bs.drop_last()) + (match bs.last().type_ref {
            Some(t) => impl_trait_count(t),
            None => 0,
        }) + impl_trait_count_bounds(bs.last().bounds@)
    }
}

} // verus!
