//! What lowering computes: the modes and the state of a pass, and, as
//! mathematical functions from the syntax and the database, the types and
//! predicates that the pass produces.
use vstd::prelude::*;
use crate::binders::{map_ty, map_tys, subst_ty, Binders, VarOp};
use crate::db::{Database, FieldData, Resolver, StructKind, TypeNs, TypeParamProvenance};
use crate::generics::{
    bound_vars, generic_param_list, generics_len, nth_impl_trait_param, param_index, parent_params,
    placeholders, provenance_count, GenericParam,
};
use crate::ids::{
    AdtId, AssocContainerId, ConstId, ConstParamId, EnumVariantId, FunctionId, GenericDefId,
    ImplId, Name, OpaqueTyId, StaticId, StructId, TraitId, TyDefId, TypeAliasId, TypeParamId,
    ValueTyDefId, VariantId,
};
use crate::traits::{assoc_type_including_super_traits, shorthand_candidates, AssocTypeCandidateV};
use crate::ty::{
    preds_view, BoundVar, CallableDefId, DebruijnIndex, FnSig, GenericPredicate, Mutability, PredV,
    ProjectionTyV, Safety, TraitRefV, Ty, TyV,
};
use crate::type_ref::{
    impl_trait_count, AssociatedTypeBinding, GenericArg, Path, PathSegment, TypeBound, TypeRef,
    WherePredicate, WherePredicateTypeTarget,
};

verus! {

// ---------------------------------------------------------------------------
// The context of lowering
// ---------------------------------------------------------------------------

/// What `impl Trait` lowers to.
#[derive(Clone, Copy, Debug, PartialEq, Eq, Structural)]
pub enum ImplTraitLoweringMode {
    /// An opaque type that unifies with nothing but itself. For places where
    /// values flow out: the return type of a function seen from its callers.
    Opaque,
    /// The placeholder of the type parameter that was made for the
    /// `impl Trait`. For the argument types of a function seen from inside.
    Param,
    /// A variable that can unify with some type. For places where values flow
    /// in: the argument types of a function seen from its callers.
    Variable,
    /// `impl Trait` is not allowed and lowers to `Unknown`.
    Disallowed,
}

/// What a generic parameter lowers to.
#[derive(Clone, Copy, Debug, PartialEq, Eq, Structural)]
pub enum TypeParamLoweringMode {
    Placeholder,
    Variable,
}

/// The bounds of one `impl Trait` in a function's return type. They stand
/// under a binder of their own, whose single variable is the opaque type.
#[derive(Debug, PartialEq, Eq, Hash)]
pub struct ReturnTypeImplTrait {
    pub bounds: Binders<Vec<GenericPredicate>>,
}

/// The opaque types of one function, by the index of their occurrence.
#[derive(Debug, PartialEq, Eq, Hash)]
pub struct ReturnTypeImplTraits {
    pub impl_traits: Vec<ReturnTypeImplTrait>,
}

impl View for ReturnTypeImplTrait {
    type V = Binders<Seq<PredV>>;

    open spec fn view(&self) -> Binders<Seq<PredV>> {
        Binders { num_binders: self.bounds.num_binders, value: preds_view(self.bounds.value@) }
    }
}

/// The models of the elements of a list of opaque types.
pub open spec fn impl_traits_view(s: Seq<ReturnTypeImplTrait>) -> Seq<Binders<Seq<PredV>>> {
    Seq::new(s.len(), |i: int| s[i]@)
}

/// What one pass of lowering reads and never changes.
pub struct LowerEnv {
    pub db: Database,
    pub resolver: Resolver,
    /// The number of binders between the place that is lowered and the binder
    /// of the generic parameters.
    pub in_binders: DebruijnIndex,
    pub type_param_mode: TypeParamLoweringMode,
    pub impl_trait_mode: ImplTraitLoweringMode,
}

/// What one pass of lowering builds up: the number of `impl Trait`
/// occurrences met, and the bounds of the opaque types made so far.
pub struct LowerState {
    pub counter: u16,
    pub opaque: Seq<Binders<Seq<PredV>>>,
}

impl LowerEnv {
    pub open spec fn with_binders(self, in_binders: DebruijnIndex) -> LowerEnv {
        LowerEnv { in_binders, ..self }
    }

    /// The number of generic parameters in scope.
    pub open spec fn generics_len(self) -> nat {
        generics_len(self.db, self.resolver.generic_def)
    }
}

/// The variable that stands for the erased self type inside a trait object,
/// and for the opaque type inside its own bounds. The object type supplies a
/// binder of its own, one level inside the place where the type stands: the
/// self type is variable 0 of that binder, which from inside it is the
/// innermost one.
pub open spec fn self_var() -> TyV {
    TyV::BoundVar(BoundVar { debruijn: DebruijnIndex { depth: 0 }, index: 0 })
}

pub open spec fn lower_mutability(m: crate::type_ref::Mutability) -> Mutability {
    match m {
        crate::type_ref::Mutability::Shared => Mutability::Not,
        crate::type_ref::Mutability::Mut => Mutability::Mut,
    }
}

/// `n` times `Unknown`.
pub open spec fn unknowns(n: nat) -> Seq<TyV> {
    Seq::new(n, |i: int| TyV::Unknown)
}

// ---------------------------------------------------------------------------
// What lowering computes
// ---------------------------------------------------------------------------

/// The declared type of `def` as the database has it: computed for builtin
/// types and algebraic data types, read for type aliases, where an alias
/// without an evaluated type reads as `Unknown` under its binders.
pub open spec fn declared_ty(db: Database, def: TyDefId) -> Binders<TyV> {
    match def {
        TyDefId::BuiltinType(b) => Binders { num_binders: 0, value: TyV::Builtin(b) },
        TyDefId::AdtId(adt) => {
            let n = generic_param_list(db, GenericDefId::AdtId(adt)).len();
            Binders {
                num_binders: n as usize,
                value: TyV::Adt(adt, bound_vars(n, DebruijnIndex { depth: 0 })),
            }
        },
        TyDefId::TypeAliasId(t) => match db.spec_type_alias_data(t) {
            Some(d) => match d.ty {
                Some(b) => b@,
                None => Binders {
                    num_binders: generic_param_list(db, GenericDefId::TypeAliasId(t)).len() as usize,
                    value: TyV::Unknown,
                },
            },
            None => Binders {
                num_binders: generic_param_list(db, GenericDefId::TypeAliasId(t)).len() as usize,
                value: TyV::Unknown,
            },
        },
    }
}

/// The self type of an impl as the database has it, where an impl without an
/// evaluated self type reads as `Unknown` under its binders.
pub open spec fn declared_impl_self_ty(db: Database, impl_id: crate::ids::ImplId) -> Binders<TyV> {
    match db.spec_impl_data(impl_id) {
        Some(d) => match d.self_ty {
            Some(b) => b@,
            None => Binders {
                num_binders: generic_param_list(db, GenericDefId::ImplId(impl_id)).len() as usize,
                value: TyV::Unknown,
            },
        },
        None => Binders {
            num_binders: generic_param_list(db, GenericDefId::ImplId(impl_id)).len() as usize,
            value: TyV::Unknown,
        },
    }
}

/// The parameters in scope of `def` as types, in the representation that
/// `env` asks for.
pub open spec fn params_as_types(env: LowerEnv, def: GenericDefId) -> Seq<TyV> {
    match env.type_param_mode {
        TypeParamLoweringMode::Placeholder => placeholders(generic_param_list(env.db, def)),
        TypeParamLoweringMode::Variable => bound_vars(
            generic_param_list(env.db, def).len(),
            env.in_binders,
        ),
    }
}

/// What the type parameter `p` lowers to: its placeholder, or the variable at
/// its position among the parameters in scope. A parameter that is not among
/// them lowers to `Unknown`.
pub open spec fn lower_type_param(env: LowerEnv, p: TypeParamId, debruijn: DebruijnIndex) -> TyV {
    match env.type_param_mode {
        TypeParamLoweringMode::Placeholder => TyV::Placeholder(p),
        TypeParamLoweringMode::Variable => match env.resolver.generic_def {
            Some(def) => match param_index(generic_param_list(env.db, def), p, 0) {
                Some(idx) => TyV::BoundVar(BoundVar { debruijn, index: idx as usize }),
                None => TyV::Unknown,
            },
            None => TyV::Unknown,
        },
    }
}

/// The first of `cands`, from position `from` on, that has the name `name`.
pub open spec fn first_named(cands: Seq<AssocTypeCandidateV>, name: Name, from: int) -> Option<
    AssocTypeCandidateV,
>
    decreases cands.len() - from,
{
    if from < 0 || from >= cands.len() {
        None
    } else if cands[from].name == name {
        Some(cands[from])
    } else {
        first_named(cands, name, from + 1)
    }
}

/// What `res::name` lowers to: the projection of the first associated type
/// named `name` that the traits known to hold of `res`, or their supertraits,
/// declare; `Unknown` where there is none. The projection's substitution is
/// that of the trait reference that declares the type, moved in to where the
/// path stands.
#[verifier::opaque]
pub open spec fn select_associated_type_spec(env: LowerEnv, res: Option<TypeNs>, name: Name) -> TyV {
    match res {
        Some(r) => match first_named(shorthand_candidates(env.db, r), name, 0) {
            Some(c) => {
                let substs = match env.type_param_mode {
                    TypeParamLoweringMode::Placeholder => match env.resolver.generic_def {
                        Some(def) => Some(
                            map_tys(
                                VarOp::Subst(placeholders(generic_param_list(env.db, def))),
                                c.trait_ref.substs,
                                0,
                            ),
                        ),
                        None => None,
                    },
                    TypeParamLoweringMode::Variable => Some(c.trait_ref.substs),
                };
                match substs {
                    Some(s) => TyV::Projection(
                        ProjectionTyV {
                            associated_ty_id: c.associated_ty,
                            substitution: map_tys(VarOp::Shift(env.in_binders.depth as nat), s, 0),
                        },
                    ),
                    None => TyV::Unknown,
                }
            },
            None => TyV::Unknown,
        },
        None => TyV::Unknown,
    }
}

/// What a type and the path segments that follow it lower to: the type
/// itself where no segment follows, the associated type that a single segment
/// names, `Unknown` where more than one follows.
#[verifier::opaque]
pub open spec fn lower_ty_relative_path_spec(
    env: LowerEnv,
    ty: TyV,
    res: Option<TypeNs>,
    remaining: Seq<PathSegment>,
) -> (TyV, Option<TypeNs>) {
    if remaining.len() == 1 {
        (select_associated_type_spec(env, res, remaining[0].name), None)
    } else if remaining.len() > 1 {
        (TyV::Unknown, None)
    } else {
        (ty, res)
    }
}

/// `substs` with the defaults of the parameters that it has no entry for
/// yet, up to `total` entries. Each default has the entries before it
/// substituted for the parameters before it.
pub open spec fn fill_defaults(defaults: Seq<Binders<Ty>>, substs: Seq<TyV>, total: nat) -> Seq<TyV>
    decreases total - substs.len(),
{
    if substs.len() < total && substs.len() < defaults.len() {
        fill_defaults(
            defaults,
            substs.push(subst_ty(defaults[substs.len() as int].value@, substs)),
            total,
        )
    } else {
        substs
    }
}

/// `substs` brought to `total` entries with `Unknown`.
pub open spec fn pad_unknown(substs: Seq<TyV>, total: nat) -> Seq<TyV> {
    if substs.len() < total {
        substs + unknowns((total - substs.len()) as nat)
    } else {
        substs
    }
}

/// The number of parameters in scope of `def` by provenance: inherited,
/// `Self`, from the parameter list, made for `impl Trait`.
pub open spec fn provenance_split_spec(db: Database, def: Option<GenericDefId>) -> (nat, nat, nat, nat) {
    match def {
        Some(d) => {
            let all = generic_param_list(db, d);
            let from = parent_params(db, d).len() as int;
            (
                parent_params(db, d).len(),
                provenance_count(all, from, TypeParamProvenance::TraitSelf),
                provenance_count(all, from, TypeParamProvenance::TypeParamList),
                provenance_count(all, from, TypeParamProvenance::ArgumentImplTrait),
            )
        },
        None => (0, 0, 0, 0),
    }
}

/// The type that `type_ref` lowers to in `env`, the resolution that later
/// segments of a path would be looked up in, and the state after lowering.
///
/// Tuples, pointers, references, arrays, slices and function pointers lower
/// part by part, whatever the modes. A path lowers as [`lower_path_spec`]
/// says. `dyn` lowers its bounds one binder further in, on the erased self
/// type. `impl Trait` lowers by the mode of the pass:
///
/// - as an opaque type, it takes the next occurrence index, reserves the
///   place of its bounds at that index, lowers the bounds one binder away
///   from the generic parameters, which may reserve further places, and puts
///   them in its place; the type is the opaque type of that index, applied to
///   the generic parameters of the function;
/// - as a parameter, it is the placeholder of the parameter that was made
///   for the occurrence, or `Unknown` where there is none;
/// - as a variable, it is the variable after the declared parameters that
///   has the number of the occurrence;
/// - where it is not allowed, it is `Unknown`.
///
/// As a parameter and as a variable it counts all `impl Trait` written inside
/// it. What cannot be counted or named lowers to `Unknown` and leaves the
/// state as it is: an `impl Trait` when the occurrence index is used up, an
/// opaque type outside a function or when the places do not match the
/// occurrences, a trait object under more binders than an index can count, a
/// function pointer without return type.
#[verifier::opaque]
pub open spec fn lower_ty_spec(env: LowerEnv, st: LowerState, type_ref: TypeRef) -> (
    TyV,
    Option<TypeNs>,
    LowerState,
)
    decreases type_ref, 0nat,
{
    match type_ref {
        TypeRef::Never => (TyV::Never, None, st),
        TypeRef::Placeholder => (TyV::Unknown, None, st),
        TypeRef::Error => (TyV::Unknown, None, st),
        TypeRef::Tuple(inner) => {
            let (tys, st2) = lower_tys_spec(env, st, inner@);
            (TyV::Tuple(inner@.len(), tys), None, st2)
        },
        TypeRef::Path(path) => lower_path_spec(env, st, path),
        TypeRef::RawPtr(inner, m) => {
            let (t, _, st2) = lower_ty_spec(env, st, *inner);
            (TyV::RawPointer(lower_mutability(m), Box::new(t)), None, st2)
        },
        TypeRef::Array(inner) => {
            let (t, _, st2) = lower_ty_spec(env, st, *inner);
            (TyV::Array(Box::new(t)), None, st2)
        },
        TypeRef::Slice(inner) => {
            let (t, _, st2) = lower_ty_spec(env, st, *inner);
            (TyV::Slice(Box::new(t)), None, st2)
        },
        TypeRef::Reference(inner, _, m) => {
            let (t, _, st2) = lower_ty_spec(env, st, *inner);
            (TyV::Reference(lower_mutability(m), Box::new(t)), None, st2)
        },
        TypeRef::Fn(params, is_varargs) => {
            let (tys, st2) = lower_tys_spec(env, st, params@);
            if params@.len() == 0 {
                (TyV::Unknown, None, st2)
            } else {
                (
                    TyV::FunctionPointer(
                        (params@.len() - 1) as nat,
                        FnSig { safety: Safety::Safe, variadic: is_varargs },
                        tys,
                    ),
                    None,
                    st2,
                )
            }
        },
        TypeRef::DynTrait(bounds) => match env.in_binders.spec_shifted_in_from(DebruijnIndex { depth: 1 }) {
            Some(d) => {
                let (preds, st2) = lower_type_bounds_spec(env.with_binders(d), st, bounds@, self_var());
                (TyV::Dyn(preds), None, st2)
            },
            None => (TyV::Unknown, None, st),
        },
        TypeRef::ImplTrait(bounds) => match env.impl_trait_mode {
            ImplTraitLoweringMode::Opaque => match env.resolver.generic_def {
                Some(GenericDefId::FunctionId(func)) => if st.counter < u16::MAX && st.counter
                    == st.opaque.len() {
                    let idx = st.counter;
                    let reserved = LowerState {
                        counter: (idx + 1) as u16,
                        opaque: st.opaque.push(Binders { num_binders: 1, value: Seq::empty() }),
                    };
                    let (actual, st2) = lower_impl_trait_spec(
                        env.with_binders(DebruijnIndex { depth: 0 }),
                        reserved,
                        bounds@,
                    );
                    let st3 = LowerState {
                        counter: st2.counter,
                        opaque: if idx < st2.opaque.len() {
                            st2.opaque.update(idx as int, actual)
                        } else {
                            st2.opaque
                        },
                    };
                    (
                        TyV::Opaque(
                            OpaqueTyId { func, idx },
                            bound_vars(env.generics_len(), env.in_binders),
                        ),
                        None,
                        st3,
                    )
                } else {
                    (TyV::Unknown, None, st)
                },
                _ => (TyV::Unknown, None, st),
            },
            ImplTraitLoweringMode::Param => {
                let count = impl_trait_count(type_ref);
                if st.counter + count <= u16::MAX {
                    let st2 = LowerState { counter: (st.counter + count) as u16, opaque: st.opaque };
                    let ty = match env.resolver.generic_def {
                        Some(def) => match nth_impl_trait_param(
                            generic_param_list(env.db, def),
                            0,
                            st.counter as nat,
                        ) {
                            Some(id) => TyV::Placeholder(id),
                            None => TyV::Unknown,
                        },
                        None => TyV::Unknown,
                    };
                    (ty, None, st2)
                } else {
                    (TyV::Unknown, None, st)
                }
            },
            ImplTraitLoweringMode::Variable => {
                let count = impl_trait_count(type_ref);
                let split = provenance_split_spec(env.db, env.resolver.generic_def);
                let index = st.counter + split.0 + split.1 + split.2;
                if st.counter + count <= u16::MAX && index <= usize::MAX {
                    let st2 = LowerState { counter: (st.counter + count) as u16, opaque: st.opaque };
                    (
                        TyV::BoundVar(BoundVar { debruijn: env.in_binders, index: index as usize }),
                        None,
                        st2,
                    )
                } else {
                    (TyV::Unknown, None, st)
                }
            },
            ImplTraitLoweringMode::Disallowed => (TyV::Unknown, None, st),
        },
    }
}

/// The types that a list of type references lowers to, one after the other.
#[verifier::opaque]
pub open spec fn lower_tys_spec(env: LowerEnv, st: LowerState, type_refs: Seq<TypeRef>) -> (
    Seq<TyV>,
    LowerState,
)
    decreases type_refs, 0nat,
{
    if type_refs.len() == 0 {
        (Seq::empty(), st)
    } else {
        let (front, st1) = lower_tys_spec(env, st, type_refs.drop_last());
        let (t, _, st2) = lower_ty_spec(env, st1, type_refs.last());
        (front.push(t), st2)
    }
}

/// What a path lowers to. A path with a type anchor lowers its anchor and
/// reads its segments as following that type; any other path is resolved
/// first, and lowers to `Unknown` where it does not resolve.
#[verifier::opaque]
pub open spec fn lower_path_spec(env: LowerEnv, st: LowerState, path: Path) -> (
    TyV,
    Option<TypeNs>,
    LowerState,
)
    decreases path, 5nat,
{
    match path.type_anchor {
        Some(anchor) => {
            let (ty, res, st2) = lower_ty_spec(env, st, *anchor);
            let (t, r) = lower_ty_relative_path_spec(env, ty, res, path.segments@);
            (t, r, st2)
        },
        None => match env.resolver.spec_resolve(path.segments@) {
            None => (TyV::Unknown, None, st),
            Some((resolution, remaining_index)) => {
                let n = path.segments@.len() as int;
                let from = match remaining_index {
                    None => n,
                    Some(i) => i as int,
                };
                lower_partly_resolved_path_spec(
                    env,
                    st,
                    resolution,
                    path.segments@[from - 1],
                    path.segments@.subrange(from, n),
                    false,
                )
            },
        },
    }
}

/// What a path lowers to of which the segments up to `resolved_segment`
/// resolved to `resolution` and the segments `remaining` did not.
#[verifier::opaque]
pub open spec fn lower_partly_resolved_path_spec(
    env: LowerEnv,
    st: LowerState,
    resolution: TypeNs,
    resolved_segment: PathSegment,
    remaining: Seq<PathSegment>,
    infer_args: bool,
) -> (TyV, Option<TypeNs>, LowerState)
    decreases resolved_segment, 3nat,
{
    match resolution {
        TypeNs::TraitId(trait_) => {
            let self_ty = if remaining.len() == 0 {
                Some(self_var())
            } else {
                None
            };
            let (trait_ref, st2) = lower_trait_ref_from_resolved_path_spec(
                env,
                st,
                trait_,
                resolved_segment,
                self_ty,
            );
            let ty = if remaining.len() == 1 {
                match assoc_type_including_super_traits(env.db, trait_ref, remaining[0].name) {
                    Some((super_trait_ref, associated_ty)) => TyV::Projection(
                        ProjectionTyV { associated_ty_id: associated_ty, substitution: super_trait_ref.substs },
                    ),
                    None => TyV::Unknown,
                }
            } else if remaining.len() > 1 {
                TyV::Unknown
            } else {
                TyV::Dyn(seq![PredV::Implemented(trait_ref)])
            };
            (ty, None, st2)
        },
        TypeNs::EnumVariantId(_) => (TyV::Unknown, None, st),
        TypeNs::GenericParam(p) => {
            let ty = lower_type_param(env, p, env.in_binders);
            let (t, r) = lower_ty_relative_path_spec(env, ty, Some(resolution), remaining);
            (t, r, st)
        },
        TypeNs::SelfType(impl_id) => {
            let substs = params_as_types(env, GenericDefId::ImplId(impl_id));
            let ty = subst_ty(declared_impl_self_ty(env.db, impl_id).value, substs);
            let (t, r) = lower_ty_relative_path_spec(env, ty, Some(resolution), remaining);
            (t, r, st)
        },
        TypeNs::AdtSelfType(adt) => {
            let substs = params_as_types(env, GenericDefId::AdtId(adt));
            let ty = subst_ty(declared_ty(env.db, TyDefId::AdtId(adt)).value, substs);
            let (t, r) = lower_ty_relative_path_spec(env, ty, Some(resolution), remaining);
            (t, r, st)
        },
        TypeNs::AdtId(it) => {
            let (ty, st2) = lower_path_inner_spec(env, st, resolved_segment, TyDefId::AdtId(it), infer_args);
            let (t, r) = lower_ty_relative_path_spec(env, ty, Some(resolution), remaining);
            (t, r, st2)
        },
        TypeNs::BuiltinType(it) => {
            let (ty, st2) = lower_path_inner_spec(
                env,
                st,
                resolved_segment,
                TyDefId::BuiltinType(it),
                infer_args,
            );
            let (t, r) = lower_ty_relative_path_spec(env, ty, Some(resolution), remaining);
            (t, r, st2)
        },
        TypeNs::TypeAliasId(it) => {
            let (ty, st2) = lower_path_inner_spec(
                env,
                st,
                resolved_segment,
                TyDefId::TypeAliasId(it),
                infer_args,
            );
            let (t, r) = lower_ty_relative_path_spec(env, ty, Some(resolution), remaining);
            (t, r, st2)
        },
    }
}

/// The definition whose generic parameters the arguments of a path to
/// `typeable` are for.
pub open spec fn generic_def_of(typeable: TyDefId) -> Option<GenericDefId> {
    match typeable {
        TyDefId::BuiltinType(_) => None,
        TyDefId::AdtId(it) => Some(GenericDefId::AdtId(it)),
        TyDefId::TypeAliasId(it) => Some(GenericDefId::TypeAliasId(it)),
    }
}

/// The declared type of `typeable` with the generic arguments written on
/// `segment` substituted for its parameters.
#[verifier::opaque]
pub open spec fn lower_path_inner_spec(
    env: LowerEnv,
    st: LowerState,
    segment: PathSegment,
    typeable: TyDefId,
    infer_args: bool,
) -> (TyV, LowerState)
    decreases segment, 2nat,
{
    let (substs, st2) = substs_from_path_segment_spec(env, st, segment, generic_def_of(typeable), infer_args);
    (subst_ty(declared_ty(env.db, typeable).value, substs), st2)
}

/// The written type arguments among `args` that are for parameters: of the
/// type arguments, those after the first `skip` and at most `take` of them,
/// each lowered. The third component counts the type arguments among `args`.
#[verifier::opaque]
pub open spec fn lower_type_args_spec(
    env: LowerEnv,
    st: LowerState,
    args: Seq<GenericArg>,
    skip: nat,
    take: nat,
) -> (Seq<TyV>, LowerState, nat)
    decreases args, 0nat,
{
    if args.len() == 0 {
        (Seq::empty(), st, 0)
    } else {
        let (front, st1, seen) = lower_type_args_spec(env, st, args.drop_last(), skip, take);
        match args.last() {
            GenericArg::Type(t) => if seen >= skip && front.len() < take {
                let (ty, _, st2) = lower_ty_spec(env, st1, t);
                (front.push(ty), st2, seen + 1)
            } else {
                (front, st1, seen + 1)
            },
            GenericArg::Lifetime(_) => (front, st1, seen),
        }
    }
}

/// The substitution for the generic parameters in scope of `def_generic`
/// that the arguments written on `segment` give: `Unknown` for each inherited
/// parameter and, unless the arguments start with the self type, for each
/// `Self` parameter; then the written type arguments, lowered; then, unless
/// arguments are to be inferred and none was written, the defaults of the
/// parameters that are left; then `Unknown` up to the number of parameters.
#[verifier::opaque]
pub open spec fn substs_from_path_segment_spec(
    env: LowerEnv,
    st: LowerState,
    segment: PathSegment,
    def_generic: Option<GenericDefId>,
    infer_args: bool,
) -> (Seq<TyV>, LowerState)
    decreases segment, 1nat,
{
    let split = provenance_split_spec(env.db, def_generic);
    let total = generics_len(env.db, def_generic);
    let (written, st2, explicit) = match segment.args_and_bindings {
        Some(ga) => {
            let front = if ga.has_self_type {
                unknowns(split.0)
            } else {
                unknowns(split.0 + split.1)
            };
            let expected = if ga.has_self_type {
                split.1 + split.2
            } else {
                split.2
            };
            let skip: nat = if ga.has_self_type && split.1 == 0 {
                1
            } else {
                0
            };
            let (lowered, st2, _) = lower_type_args_spec(env, st, ga.args@, skip, expected);
            (front + lowered, st2, lowered.len() > 0)
        },
        None => (unknowns(split.0), st, false),
    };
    let filled = if !infer_args || explicit {
        match def_generic {
            Some(def) => fill_defaults(env.db.spec_generic_defaults(def), written, total),
            None => written,
        }
    } else {
        written
    };
    (pad_unknown(filled, total), st2)
}

/// The reference to `trait_` that the arguments written on `segment` give,
/// with `explicit_self_ty`, where there is one, as the implementing type.
#[verifier::opaque]
pub open spec fn lower_trait_ref_from_resolved_path_spec(
    env: LowerEnv,
    st: LowerState,
    trait_: TraitId,
    segment: PathSegment,
    explicit_self_ty: Option<TyV>,
) -> (TraitRefV, LowerState)
    decreases segment, 2nat,
{
    let (substs, st2) = substs_from_path_segment_spec(
        env,
        st,
        segment,
        Some(GenericDefId::TraitId(trait_)),
        false,
    );
    let substs = match explicit_self_ty {
        Some(t) => if substs.len() > 0 {
            substs.update(0, t)
        } else {
            substs
        },
        None => substs,
    };
    (TraitRefV { trait_, substs }, st2)
}

/// The trait reference that `path` lowers to, where all of `path` resolves
/// to a trait.
#[verifier::opaque]
pub open spec fn lower_trait_ref_from_path_spec(
    env: LowerEnv,
    st: LowerState,
    path: Path,
    explicit_self_ty: Option<TyV>,
) -> (Option<TraitRefV>, LowerState)
    decreases path, 0nat,
{
    match env.resolver.spec_resolve_fully(path.segments@) {
        Some(TypeNs::TraitId(tr)) => if path.segments@.len() > 0 {
            let (t, st2) = lower_trait_ref_from_resolved_path_spec(
                env,
                st,
                tr,
                path.segments@.last(),
                explicit_self_ty,
            );
            (Some(t), st2)
        } else {
            (None, st)
        },
        _ => (None, st),
    }
}

/// The associated type bindings written on the last segment of a path, if
/// the path has a segment and arguments are written on the last one.
pub open spec fn bindings_of(path: Path) -> Option<Seq<AssociatedTypeBinding>> {
    if path.segments@.len() > 0 {
        match path.segments@[path.segments@.len() - 1].args_and_bindings {
            Some(ga) => Some(ga.bindings@),
            None => None,
        }
    } else {
        None
    }
}

/// The predicates that one bound on `self_ty` lowers to: that `self_ty`
/// implements the trait, or `Error` where the trait does not resolve, and
/// what the associated type bindings of the bound say. A lifetime bound
/// lowers to nothing.
#[verifier::opaque]
pub open spec fn lower_type_bound_spec(env: LowerEnv, st: LowerState, bound: TypeBound, self_ty: TyV) -> (
    Seq<PredV>,
    LowerState,
)
    decreases bound, 1nat,
{
    match bound {
        TypeBound::Path(path) => {
            let (tr, st2) = lower_trait_ref_from_path_spec(env, st, path, Some(self_ty));
            match tr {
                Some(t) => match bindings_of(path) {
                    Some(bindings) => {
                        let (more, st3) = assoc_type_bindings_spec(env, st2, bindings, t);
                        (seq![PredV::Implemented(t)] + more, st3)
                    },
                    None => (seq![PredV::Implemented(t)], st2),
                },
                None => (seq![PredV::Error], st2),
            }
        },
        TypeBound::Lifetime(_) => (Seq::empty(), st),
        TypeBound::Error => (seq![PredV::Error], st),
    }
}

/// The predicates that a list of bounds on `self_ty` lowers to, bound after
/// bound.
#[verifier::opaque]
pub open spec fn lower_type_bounds_spec(
    env: LowerEnv,
    st: LowerState,
    bounds: Seq<TypeBound>,
    self_ty: TyV,
) -> (Seq<PredV>, LowerState)
    decreases bounds, 0nat,
{
    if bounds.len() == 0 {
        (Seq::empty(), st)
    } else {
        let (front, st1) = lower_type_bounds_spec(env, st, bounds.drop_last(), self_ty);
        let (preds, st2) = lower_type_bound_spec(env, st1, bounds.last(), self_ty);
        (front + preds, st2)
    }
}

/// The predicates that the associated type bindings of a bound lower to,
/// where `trait_ref` is what the bound's trait lowered to. A binding names
/// an associated type of the trait or of one of its supertraits; a binding
/// that names none lowers to nothing. `Name = T` lowers to the equality of
/// the projection and `T`, `Name: Bound` to the bound on the projection.
#[verifier::opaque]
pub open spec fn assoc_type_bindings_spec(
    env: LowerEnv,
    st: LowerState,
    bindings: Seq<AssociatedTypeBinding>,
    trait_ref: TraitRefV,
) -> (Seq<PredV>, LowerState)
    decreases bindings, 0nat,
{
    if bindings.len() == 0 {
        (Seq::empty(), st)
    } else {
        let (front, st1) = assoc_type_bindings_spec(env, st, bindings.drop_last(), trait_ref);
        let binding = bindings.last();
        match assoc_type_including_super_traits(env.db, trait_ref, binding.name) {
            None => (front, st1),
            Some((super_trait_ref, associated_ty)) => {
                let projection_ty = ProjectionTyV {
                    associated_ty_id: associated_ty,
                    substitution: super_trait_ref.substs,
                };
                let (eq, st2) = match binding.type_ref {
                    Some(t) => {
                        let (ty, _, st2) = lower_ty_spec(env, st1, t);
                        (seq![PredV::Projection(projection_ty, ty)], st2)
                    },
                    None => (Seq::empty(), st1),
                };
                let (bounds, st3) = lower_type_bounds_spec(
                    env,
                    st2,
                    binding.bounds@,
                    TyV::Projection(projection_ty),
                );
                (front + eq + bounds, st3)
            },
        }
    }
}

/// The bounds of an `impl Trait`, lowered under a binder of their own whose
/// variable stands for the type itself.
#[verifier::opaque]
pub open spec fn lower_impl_trait_spec(env: LowerEnv, st: LowerState, bounds: Seq<TypeBound>) -> (
    Binders<Seq<PredV>>,
    LowerState,
)
    decreases bounds, 1nat,
{
    match env.in_binders.spec_shifted_in_from(DebruijnIndex { depth: 1 }) {
        Some(d) => {
            let (preds, st2) = lower_type_bounds_spec(env.with_binders(d), st, bounds, self_var());
            (Binders { num_binders: 1, value: preds }, st2)
        },
        None => (Binders { num_binders: 1, value: Seq::empty() }, st),
    }
}

/// The predicates that one `where` predicate lowers to. A predicate on a
/// lifetime lowers to nothing.
pub open spec fn lower_where_predicate_spec(env: LowerEnv, st: LowerState, pred: WherePredicate) -> (
    Seq<PredV>,
    LowerState,
)
    decreases pred, 0nat,
{
    match pred {
        WherePredicate::TypeBound { target, bound } => lower_bound_on_target_spec(env, st, target, bound),
        WherePredicate::ForLifetime { lifetimes: _, target, bound } => lower_bound_on_target_spec(
            env,
            st,
            target,
            bound,
        ),
        WherePredicate::Lifetime { target: _, bound: _ } => (Seq::empty(), st),
    }
}

/// The predicates that `bound` on `target` lowers to.
pub open spec fn lower_bound_on_target_spec(
    env: LowerEnv,
    st: LowerState,
    target: WherePredicateTypeTarget,
    bound: TypeBound,
) -> (Seq<PredV>, LowerState) {
    let (self_ty, st2) = match target {
        WherePredicateTypeTarget::TypeRef(t) => {
            let (ty, _, st2) = lower_ty_spec(env, st, t);
            (ty, st2)
        },
        WherePredicateTypeTarget::TypeParam(local_id) => match env.resolver.generic_def {
            Some(def) => (
                lower_type_param(
                    env,
                    TypeParamId { parent: def, local_id },
                    DebruijnIndex { depth: 0 },
                ),
                st,
            ),
            None => (TyV::Unknown, st),
        },
    };
    lower_type_bound_spec(env, st2, bound, self_ty)
}

// ---------------------------------------------------------------------------
// What the queries compute
// ---------------------------------------------------------------------------

/// The environment of a pass that starts at the binder of the generic
/// parameters.
pub open spec fn base_env(
    db: Database,
    resolver: Resolver,
    type_param_mode: TypeParamLoweringMode,
    impl_trait_mode: ImplTraitLoweringMode,
) -> LowerEnv {
    LowerEnv { db, resolver, in_binders: DebruijnIndex { depth: 0 }, type_param_mode, impl_trait_mode }
}

/// The state of a pass that has not met an `impl Trait` yet.
pub open spec fn fresh_state() -> LowerState {
    LowerState { counter: 0, opaque: Seq::empty() }
}

/// The scope that the item `def` is read in.
pub open spec fn resolver_of(db: Database, def: GenericDefId) -> Resolver
    recommends
        db.spec_item(def) is Some,
{
    db.spec_item(def).unwrap().resolver
}

/// The model of a call signature: the parameter types followed by the
/// return type.
pub struct CallableSigV {
    pub params_and_return: Seq<TyV>,
    pub is_varargs: bool,
}

/// The number of generic parameters in scope of `def`.
pub open spec fn binders_of(db: Database, def: GenericDefId) -> usize {
    generic_param_list(db, def).len() as usize
}

/// The signature of a function: its parameter types, lowered with
/// `impl Trait` as variables, and its return type, lowered with `impl Trait`
/// as opaque types, under the function's generic parameters.
pub open spec fn fn_sig_for_fn_spec(db: Database, def: FunctionId) -> Binders<CallableSigV>
    recommends
        db.spec_function_data(def) is Some,
{
    let data = db.spec_function_data(def).unwrap();
    let params = lower_tys_spec(
        base_env(db, data.item.resolver, TypeParamLoweringMode::Variable, ImplTraitLoweringMode::Variable),
        fresh_state(),
        data.params@,
    ).0;
    let ret = lower_ty_spec(
        base_env(db, data.item.resolver, TypeParamLoweringMode::Variable, ImplTraitLoweringMode::Opaque),
        fresh_state(),
        data.ret_type,
    ).0;
    Binders {
        num_binders: binders_of(db, GenericDefId::FunctionId(def)),
        value: CallableSigV { params_and_return: params.push(ret), is_varargs: data.is_varargs },
    }
}

/// The opaque types of a function's return type, by occurrence.
pub open spec fn return_type_impl_traits_spec(db: Database, def: FunctionId) -> Seq<Binders<Seq<PredV>>>
    recommends
        db.spec_function_data(def) is Some,
{
    let data = db.spec_function_data(def).unwrap();
    lower_ty_spec(
        base_env(db, data.item.resolver, TypeParamLoweringMode::Variable, ImplTraitLoweringMode::Opaque),
        fresh_state(),
        data.ret_type,
    ).2.opaque
}

/// The type of a callable item as a value: the item applied to its own
/// generic parameters.
pub open spec fn fn_def_ty(db: Database, callable: CallableDefId, def: GenericDefId) -> Binders<TyV> {
    let n = generic_param_list(db, def).len();
    Binders {
        num_binders: n as usize,
        value: TyV::FunctionDef(callable, bound_vars(n, DebruijnIndex { depth: 0 })),
    }
}

/// The types of `fields`, one after the other.
pub open spec fn field_type_refs(fields: Seq<FieldData>) -> Seq<TypeRef> {
    Seq::new(fields.len(), |i: int| fields[i].type_ref)
}

/// The definition whose generic parameters the fields of `id` are read
/// under.
pub open spec fn variant_generic_def(id: VariantId) -> GenericDefId {
    match id {
        VariantId::StructId(s) => GenericDefId::AdtId(AdtId::StructId(s)),
        VariantId::UnionId(u) => GenericDefId::AdtId(AdtId::UnionId(u)),
        VariantId::EnumVariantId(v) => GenericDefId::AdtId(AdtId::EnumId(v.parent)),
    }
}

/// The lowered types of the fields of `id`, in the order of declaration.
pub open spec fn field_types_spec(db: Database, id: VariantId) -> Seq<TyV>
    recommends
        db.spec_variant_data(id) is Some,
{
    let def = variant_generic_def(id);
    lower_tys_spec(
        base_env(db, resolver_of(db, def), TypeParamLoweringMode::Variable, ImplTraitLoweringMode::Disallowed),
        fresh_state(),
        field_type_refs(db.spec_variant_data(id).unwrap().fields@),
    ).0
}

/// The signature of the constructor of a tuple struct or tuple variant: from
/// the field types to the data type.
pub open spec fn constructor_sig_spec(db: Database, id: VariantId, adt: AdtId) -> Binders<CallableSigV>
    recommends
        db.spec_variant_data(id) is Some,
{
    let ret = declared_ty(db, TyDefId::AdtId(adt));
    Binders {
        num_binders: ret.num_binders,
        value: CallableSigV {
            params_and_return: field_types_spec(db, id).push(ret.value),
            is_varargs: false,
        },
    }
}

/// The signature of a callable item.
pub open spec fn callable_item_sig_spec(db: Database, def: CallableDefId) -> Binders<CallableSigV> {
    match def {
        CallableDefId::FunctionId(f) => fn_sig_for_fn_spec(db, f),
        CallableDefId::StructId(s) => constructor_sig_spec(db, VariantId::StructId(s), AdtId::StructId(s)),
        CallableDefId::EnumVariantId(e) => constructor_sig_spec(
            db,
            VariantId::EnumVariantId(e),
            AdtId::EnumId(e.parent),
        ),
    }
}

/// The type of a constructor as a value: the data type itself for a unit
/// struct or variant, else the constructor applied to the generic parameters
/// of the data type.
pub open spec fn constructor_ty_spec(db: Database, id: VariantId, callable: CallableDefId, adt: AdtId) -> Binders<
    TyV,
>
    recommends
        db.spec_variant_data(id) is Some,
{
    if db.spec_variant_data(id).unwrap().kind == StructKind::Unit {
        declared_ty(db, TyDefId::AdtId(adt))
    } else {
        fn_def_ty(db, callable, GenericDefId::AdtId(adt))
    }
}

/// `type_ref` lowered in the scope of `def`, with generic parameters as
/// variables, under the generic parameters of `def`.
pub open spec fn lowered_in_scope(db: Database, def: GenericDefId, type_ref: TypeRef) -> Binders<TyV> {
    Binders {
        num_binders: binders_of(db, def),
        value: lower_ty_spec(
            base_env(
                db,
                resolver_of(db, def),
                TypeParamLoweringMode::Variable,
                ImplTraitLoweringMode::Disallowed,
            ),
            fresh_state(),
            type_ref,
        ).0,
    }
}

/// The declared type of a type alias: a foreign type for an extern type,
/// else what the alias stands for, lowered; `Unknown` where it stands for
/// nothing.
pub open spec fn type_for_type_alias_spec(db: Database, t: TypeAliasId) -> Binders<TyV>
    recommends
        db.spec_type_alias_data(t) is Some,
{
    let data = db.spec_type_alias_data(t).unwrap();
    if data.is_extern {
        Binders { num_binders: 0, value: TyV::ForeignType(t) }
    } else {
        lowered_in_scope(
            db,
            GenericDefId::TypeAliasId(t),
            match data.type_ref {
                Some(r) => r,
                None => TypeRef::Error,
            },
        )
    }
}

/// The declared type of a definition in the type namespace, computed from
/// the definition.
pub open spec fn ty_query_spec(db: Database, def: TyDefId) -> Binders<TyV> {
    match def {
        TyDefId::BuiltinType(_) => declared_ty(db, def),
        TyDefId::AdtId(_) => declared_ty(db, def),
        TyDefId::TypeAliasId(t) => type_for_type_alias_spec(db, t),
    }
}

/// The declared type of a static: its type, lowered with generic parameters
/// as placeholders, under no binder.
pub open spec fn type_for_static_spec(db: Database, def: StaticId) -> Binders<TyV>
    recommends
        db.spec_static_data(def) is Some,
{
    let data = db.spec_static_data(def).unwrap();
    Binders {
        num_binders: 0,
        value: lower_ty_spec(
            base_env(
                db,
                data.resolver,
                TypeParamLoweringMode::Placeholder,
                ImplTraitLoweringMode::Disallowed,
            ),
            fresh_state(),
            data.type_ref,
        ).0,
    }
}

/// The declared type of a definition in the value namespace.
pub open spec fn value_ty_query_spec(db: Database, def: ValueTyDefId) -> Binders<TyV> {
    match def {
        ValueTyDefId::FunctionId(f) => fn_def_ty(db, CallableDefId::FunctionId(f), GenericDefId::FunctionId(f)),
        ValueTyDefId::StructId(s) => constructor_ty_spec(
            db,
            VariantId::StructId(s),
            CallableDefId::StructId(s),
            AdtId::StructId(s),
        ),
        ValueTyDefId::UnionId(u) => declared_ty(db, TyDefId::AdtId(AdtId::UnionId(u))),
        ValueTyDefId::EnumVariantId(e) => constructor_ty_spec(
            db,
            VariantId::EnumVariantId(e),
            CallableDefId::EnumVariantId(e),
            AdtId::EnumId(e.parent),
        ),
        ValueTyDefId::ConstId(c) => lowered_in_scope(
            db,
            GenericDefId::ConstId(c),
            db.spec_const_data(c).unwrap().type_ref,
        ),
        ValueTyDefId::StaticId(s) => type_for_static_spec(db, s),
    }
}

/// Whether the database holds the definition.
pub open spec fn has_value_def(db: Database, def: ValueTyDefId) -> bool {
    match def {
        ValueTyDefId::FunctionId(_) => true,
        ValueTyDefId::StructId(s) => db.spec_struct_data(s) is Some,
        ValueTyDefId::UnionId(_) => true,
        ValueTyDefId::EnumVariantId(e) => db.spec_variant_data(VariantId::EnumVariantId(e)) is Some,
        ValueTyDefId::ConstId(c) => db.spec_const_data(c) is Some,
        ValueTyDefId::StaticId(s) => db.spec_static_data(s) is Some,
    }
}

/// Whether the database holds the definition.
pub open spec fn has_callable_def(db: Database, def: CallableDefId) -> bool {
    match def {
        CallableDefId::FunctionId(f) => db.spec_function_data(f) is Some,
        CallableDefId::StructId(s) => db.spec_struct_data(s) is Some,
        CallableDefId::EnumVariantId(e) => db.spec_variant_data(VariantId::EnumVariantId(e)) is Some,
    }
}

/// The self type of an impl: its target type, lowered.
pub open spec fn impl_self_ty_query_spec(db: Database, impl_id: ImplId) -> Binders<TyV>
    recommends
        db.spec_impl_data(impl_id) is Some,
{
    lowered_in_scope(db, GenericDefId::ImplId(impl_id), db.spec_impl_data(impl_id).unwrap().target_type)
}

/// The trait that an impl implements, for the impl's self type as the
/// database has it; `None` for an impl without a trait or with a trait that
/// does not resolve.
pub open spec fn impl_trait_query_spec(db: Database, impl_id: ImplId) -> Option<Binders<TraitRefV>>
    recommends
        db.spec_impl_data(impl_id) is Some,
{
    let data = db.spec_impl_data(impl_id).unwrap();
    let self_ty = declared_impl_self_ty(db, impl_id);
    match data.target_trait {
        Some(TypeRef::Path(path)) => match lower_trait_ref_from_path_spec(
            base_env(
                db,
                data.item.resolver,
                TypeParamLoweringMode::Variable,
                ImplTraitLoweringMode::Disallowed,
            ),
            fresh_state(),
            path,
            Some(self_ty.value),
        ).0 {
            Some(t) => Some(Binders { num_binders: self_ty.num_binders, value: t }),
            None => None,
        },
        _ => None,
    }
}

/// The type of a const parameter: its declared type, lowered in the scope of
/// the definition that declares it, with generic parameters as placeholders.
pub open spec fn const_param_ty_query_spec(db: Database, def: ConstParamId) -> TyV
    recommends
        has_const_param(db, def),
{
    lower_ty_spec(
        base_env(
            db,
            resolver_of(db, def.parent),
            TypeParamLoweringMode::Placeholder,
            ImplTraitLoweringMode::Disallowed,
        ),
        fresh_state(),
        db.spec_item(def.parent).unwrap().generic_params.consts@[def.local_id as int].ty,
    ).0
}

pub open spec fn has_const_param(db: Database, def: ConstParamId) -> bool {
    match db.spec_item(def.parent) {
        Some(item) => def.local_id < item.generic_params.consts@.len(),
        None => false,
    }
}

/// The generic parameter that `type_ref` names, told from its shape alone: a
/// path of one segment, without anchor, that resolves to a generic parameter
/// as a whole.
pub open spec fn only_param_spec(resolver: Resolver, type_ref: TypeRef) -> Option<TypeParamId> {
    match type_ref {
        TypeRef::Path(path) => if path.type_anchor is Some || path.segments@.len() > 1 {
            None
        } else {
            match resolver.spec_resolve(path.segments@) {
                Some((TypeNs::GenericParam(p), None)) => Some(p),
                _ => None,
            }
        },
        _ => None,
    }
}

/// Whether the `where` predicate `pred` is on the parameter `param`, told
/// without lowering anything.
pub open spec fn predicate_is_on(resolver: Resolver, pred: WherePredicate, param: TypeParamId) -> bool {
    match pred {
        WherePredicate::TypeBound { target, bound: _ } => target_is(resolver, target, param),
        WherePredicate::ForLifetime { lifetimes: _, target, bound: _ } => target_is(resolver, target, param),
        WherePredicate::Lifetime { target: _, bound: _ } => false,
    }
}

pub open spec fn target_is(resolver: Resolver, target: WherePredicateTypeTarget, param: TypeParamId) -> bool {
    match target {
        WherePredicateTypeTarget::TypeRef(t) => only_param_spec(resolver, t) == Some(param),
        WherePredicateTypeTarget::TypeParam(local_id) => local_id == param.local_id,
    }
}

/// The predicates that the `where` predicates `preds` lower to, one after
/// the other; with `only`, those of the predicates on that parameter alone.
pub open spec fn lower_where_predicates_spec(
    env: LowerEnv,
    st: LowerState,
    preds: Seq<WherePredicate>,
    only: Option<TypeParamId>,
) -> (Seq<PredV>, LowerState)
    decreases preds.len(),
{
    if preds.len() == 0 {
        (Seq::empty(), st)
    } else {
        let (front, st1) = lower_where_predicates_spec(env, st, preds.drop_last(), only);
        let wanted = match only {
            Some(p) => predicate_is_on(env.resolver, preds.last(), p),
            None => true,
        };
        if wanted {
            let (lowered, st2) = lower_where_predicate_spec(env, st1, preds.last());
            (front + lowered, st2)
        } else {
            (front, st1)
        }
    }
}

/// Each of `preds` under `n` binders.
pub open spec fn under_binders(preds: Seq<PredV>, n: usize) -> Seq<Binders<PredV>> {
    Seq::new(preds.len(), |i: int| Binders { num_binders: n, value: preds[i] })
}

/// The predicates of the `where` clauses in scope of `def`, with generic
/// parameters as variables, each under the generic parameters of `def`; with
/// `only`, those on that parameter alone.
pub open spec fn generic_predicates_spec(db: Database, def: GenericDefId, only: Option<TypeParamId>) -> Seq<
    Binders<PredV>,
> {
    let resolver = resolver_of(db, def);
    under_binders(
        lower_where_predicates_spec(
            base_env(db, resolver, TypeParamLoweringMode::Variable, ImplTraitLoweringMode::Disallowed),
            fresh_state(),
            resolver.where_predicates@,
            only,
        ).0,
        binders_of(db, def),
    )
}

/// The default that is written for the parameter `p`.
pub open spec fn param_default(db: Database, p: GenericParam) -> Option<TypeRef> {
    match db.spec_item(p.id.parent) {
        Some(item) => if p.id.local_id < item.generic_params.types@.len() {
            item.generic_params.types@[p.id.local_id as int].default
        } else {
            None
        },
        None => None,
    }
}

/// The lowered defaults of `params`, one after the other. The default of the
/// parameter at position `i` stands under `i` binders: a variable in it that
/// names a parameter at position `i` or later is replaced by `Unknown`. A
/// parameter without a default has the default `Unknown`.
pub open spec fn lower_defaults_spec(env: LowerEnv, st: LowerState, params: Seq<GenericParam>) -> (
    Seq<Binders<TyV>>,
    LowerState,
)
    decreases params.len(),
{
    if params.len() == 0 {
        (Seq::empty(), st)
    } else {
        let (front, st1) = lower_defaults_spec(env, st, params.drop_last());
        let idx = (params.len() - 1) as nat;
        let (ty, st2) = match param_default(env.db, params.last()) {
            Some(t) => {
                let (ty, _, st2) = lower_ty_spec(env, st1, t);
                (ty, st2)
            },
            None => (TyV::Unknown, st1),
        };
        (front.push(Binders { num_binders: idx as usize, value: map_ty(VarOp::Truncate(idx), ty, 0) }), st2)
    }
}

/// The lowered defaults of the generic parameters in scope of `def`.
pub open spec fn generic_defaults_spec(db: Database, def: GenericDefId) -> Seq<Binders<TyV>> {
    lower_defaults_spec(
        base_env(
            db,
            resolver_of(db, def),
            TypeParamLoweringMode::Variable,
            ImplTraitLoweringMode::Disallowed,
        ),
        fresh_state(),
        generic_param_list(db, def),
    ).0
}

/// The model of the environment of a definition.
pub struct TraitEnvironmentV {
    pub traits_from_clauses: Seq<(TyV, TraitId)>,
    pub env: Seq<PredV>,
}

/// The predicates among `preds` that are not `Error`, in order.
pub open spec fn without_errors(preds: Seq<PredV>) -> Seq<PredV>
    decreases preds.len(),
{
    if preds.len() == 0 {
        Seq::empty()
    } else if preds.last() is Error {
        without_errors(preds.drop_last())
    } else {
        without_errors(preds.drop_last()).push(preds.last())
    }
}

/// For each `Implemented` predicate among `preds` that has a self type, the
/// self type and the trait, in order.
pub open spec fn implementing_types(preds: Seq<PredV>) -> Seq<(TyV, TraitId)>
    decreases preds.len(),
{
    if preds.len() == 0 {
        Seq::empty()
    } else {
        let front = implementing_types(preds.drop_last());
        match preds.last() {
            PredV::Implemented(t) => if t.substs.len() > 0 {
                front.push((t.substs[0], t.trait_))
            } else {
                front
            },
            _ => front,
        }
    }
}

/// The trait whose `Self` the body of `def` may assume to implement it: the
/// trait that holds `def`, where `def` is an associated item of a trait.
pub open spec fn enclosing_trait(db: Database, def: GenericDefId) -> Option<TraitId> {
    match db.spec_container(def) {
        Some(AssocContainerId::TraitId(t)) => Some(t),
        _ => None,
    }
}

/// The environment of `def`: what the `where` clauses in scope say, with
/// generic parameters as placeholders and without the predicates that did
/// not resolve, and, inside a trait, that `Self` implements the trait.
pub open spec fn trait_environment_spec(db: Database, def: GenericDefId) -> TraitEnvironmentV {
    let resolver = resolver_of(db, def);
    let lowered = without_errors(
        lower_where_predicates_spec(
            base_env(db, resolver, TypeParamLoweringMode::Placeholder, ImplTraitLoweringMode::Disallowed),
            fresh_state(),
            resolver.where_predicates@,
            None,
        ).0,
    );
    TraitEnvironmentV {
        traits_from_clauses: implementing_types(lowered),
        env: match enclosing_trait(db, def) {
            Some(t) => lowered.push(
                PredV::Implemented(
                    TraitRefV {
                        trait_: t,
                        substs: placeholders(generic_param_list(db, GenericDefId::TraitId(t))),
                    },
                ),
            ),
            None => lowered,
        },
    }
}

/// The segment of a path to `resolved` that carries the generic arguments:
/// the last one, or, for an enum variant, the one before it where arguments
/// are written there.
pub open spec fn args_segment(segments: Seq<PathSegment>, resolved: ValueTyDefId) -> PathSegment
    recommends
        segments.len() > 0,
{
    let last = segments[segments.len() - 1];
    match resolved {
        ValueTyDefId::EnumVariantId(_) => if segments.len() >= 2 && segments[segments.len()
            - 2].args_and_bindings is Some {
            segments[segments.len() - 2]
        } else {
            last
        },
        _ => last,
    }
}

/// The definition whose generic parameters the arguments of a path to
/// `resolved` are for.
pub open spec fn value_generic_def(resolved: ValueTyDefId) -> Option<GenericDefId> {
    match resolved {
        ValueTyDefId::FunctionId(it) => Some(GenericDefId::FunctionId(it)),
        ValueTyDefId::StructId(it) => Some(GenericDefId::AdtId(AdtId::StructId(it))),
        ValueTyDefId::UnionId(it) => Some(GenericDefId::AdtId(AdtId::UnionId(it))),
        ValueTyDefId::ConstId(it) => Some(GenericDefId::ConstId(it)),
        ValueTyDefId::StaticId(_) => None,
        ValueTyDefId::EnumVariantId(var) => Some(GenericDefId::AdtId(AdtId::EnumId(var.parent))),
    }
}

} // verus!
