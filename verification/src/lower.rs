//! Lowering type references to type terms.
use vstd::prelude::*;
use crate::binders::{closed_ty, map_bound_vars, Binders, BoundVarOp};
use crate::consistency::{env_consistent, reach};
use crate::db::{Database, Resolver, TypeNs};
use crate::generics::{generic_param_list, generics, generics_len};
use crate::ids::{AdtId, GenericDefId, OpaqueTyId, TraitId, TyDefId, TypeParamId};
use crate::laws::lemma_lower_ty_bound;
use crate::pred_buffer::PredicateSink;
use crate::semantics::{
    assoc_type_bindings_spec, bindings_of, declared_impl_self_ty, declared_ty, fill_defaults,
    first_named, generic_def_of, impl_traits_view, lower_bound_on_target_spec,
    lower_impl_trait_spec, lower_mutability, lower_partly_resolved_path_spec,
    lower_path_inner_spec, lower_path_spec, lower_trait_ref_from_path_spec,
    lower_trait_ref_from_resolved_path_spec, lower_ty_relative_path_spec, lower_ty_spec,
    lower_type_args_spec, lower_type_bound_spec, lower_type_bounds_spec, lower_tys_spec,
    lower_where_predicate_spec, pad_unknown, select_associated_type_spec,
    substs_from_path_segment_spec, unknowns, ImplTraitLoweringMode, LowerEnv, LowerState,
    ReturnTypeImplTrait, TypeParamLoweringMode,
};
use crate::traits::{
    associated_type_by_name_including_super_traits, shorthand_candidate_list,
    candidates_view, shorthand_candidates,
};
use crate::ty::{
    preds_view, tys_view, AliasTy, BoundVar, DebruijnIndex, FnPointer, FnSig, GenericPredicate,
    Mutability, OpaqueTy, PredV, ProjectionPredicate, ProjectionTy, Safety, Substs, TraitRef,
    TraitRefV, Ty, TyV,
};
use crate::type_ref::{
    impl_trait_count, impl_trait_count_args, impl_trait_count_bindings, impl_trait_count_bounds,
    impl_trait_count_path, impl_trait_count_segments, impl_trait_count_types,
    AssociatedTypeBinding, GenericArg, Path, PathSegment, TypeBound, TypeRef, WherePredicate,
    WherePredicateTypeTarget,
};

verus! {

/// `n`, or the largest `usize` where `n` does not fit.
pub open spec fn saturated(n: nat) -> usize {
    if n <= usize::MAX { n as usize } else { usize::MAX }
}

fn saturating_sum(a: usize, b: usize, Ghost(x): Ghost<nat>, Ghost(y): Ghost<nat>) -> (r: usize)
    requires
        a == saturated(x),
        b == saturated(y),
    ensures
        r == saturated(x + y),
{
    if a > usize::MAX - b { usize::MAX } else { a + b }
}

/// Counts the `impl Trait` nodes in `type_ref`, itself included. The count
/// stops at the largest `usize`.
pub fn count_impl_traits(type_ref: &TypeRef) -> (count: usize)
    ensures
        count == saturated(impl_trait_count(*type_ref)),
    decreases *type_ref, 0nat,
{
    match type_ref {
        TypeRef::Never | TypeRef::Placeholder | TypeRef::Error => 0,
        TypeRef::Tuple(ts) => count_impl_traits_in_types(ts),
        TypeRef::Fn(ts, _) => count_impl_traits_in_types(ts),
        TypeRef::Path(p) => count_impl_traits_in_path(p),
        TypeRef::RawPtr(inner, _) => count_impl_traits(inner),
        TypeRef::Reference(inner, _, _) => count_impl_traits(inner),
        TypeRef::Array(inner) => count_impl_traits(inner),
        TypeRef::Slice(inner) => count_impl_traits(inner),
        TypeRef::ImplTrait(bounds) => {
            let inner = count_impl_traits_in_bounds(bounds);
            saturating_sum(1, inner, Ghost(1), Ghost(impl_trait_count_bounds(bounds@)))
        },
        TypeRef::DynTrait(bounds) => count_impl_traits_in_bounds(bounds),
    }
}

fn count_impl_traits_in_types(ts: &Vec<TypeRef>) -> (count: usize)
    ensures
        count == saturated(impl_trait_count_types(ts@)),
    decreases *ts, 1nat,
{
    let mut count: usize = 0;
    let mut i: usize = 0;
    while i < ts.len()
        invariant
            i <= ts.len(),
            count == saturated(impl_trait_count_types(ts@.take(i as int))),
        decreases ts.len() - i,
    {
        let c = count_impl_traits(&ts[i]);
        proof {
            assert(ts@.take(i + 1).drop_last() == ts@.take(i as int));
        }
        count = saturating_sum(
            count,
            c,
            Ghost(impl_trait_count_types(ts@.take(i as int))),
            Ghost(impl_trait_count(ts@[i as int])),
        );
        i += 1;
    }
    proof {
        assert(ts@.take(ts.len() as int) == ts@);
    }
    count
}

fn count_impl_traits_in_bounds(bs: &Vec<TypeBound>) -> (count: usize)
    ensures
        count == saturated(impl_trait_count_bounds(bs@)),
    decreases *bs, 1nat,
{
    let mut count: usize = 0;
    let mut i: usize = 0;
    while i < bs.len()
        invariant
            i <= bs.len(),
            count == saturated(impl_trait_count_bounds(bs@.take(i as int))),
        decreases bs.len() - i,
    {
        proof {
            assert(bs@.take(i + 1).drop_last() == bs@.take(i as int));
        }
        match &bs[i] {
            TypeBound::Path(p) => {
                let c = count_impl_traits_in_path(p);
                count = saturating_sum(
                    count,
                    c,
                    Ghost(impl_trait_count_bounds(bs@.take(i as int))),
                    Ghost(impl_trait_count_path(*p)),
                );
            },
            _ => {},
        }
        i += 1;
    }
    proof {
        assert(bs@.take(bs.len() as int) == bs@);
    }
    count
}

fn count_impl_traits_in_path(p: &Path) -> (count: usize)
    ensures
        count == saturated(impl_trait_count_path(*p)),
    decreases *p, 2nat,
{
    let anchor: usize = match &p.type_anchor {
        Some(t) => count_impl_traits(t),
        None => 0,
    };
    let ghost anchor_count: nat = match &p.type_anchor {
        Some(t) => impl_trait_count(**t),
        None => 0,
    };
    let mut count: usize = 0;
    let mut i: usize = 0;
    while i < p.segments.len()
        invariant
            i <= p.segments.len(),
            count == saturated(impl_trait_count_segments(p.segments@.take(i as int))),
        decreases p.segments.len() - i,
    {
        proof {
            assert(p.segments@.take(i + 1).drop_last() == p.segments@.take(i as int));
        }
        match &p.segments[i].args_and_bindings {
            Some(ga) => {
                let a = count_impl_traits_in_args(&ga.args);
                let b = count_impl_traits_in_bindings(&ga.bindings);
                let ab = saturating_sum(
                    a,
                    b,
                    Ghost(impl_trait_count_args(ga.args@)),
                    Ghost(impl_trait_count_bindings(ga.bindings@)),
                );
                count = saturating_sum(
                    count,
                    ab,
                    Ghost(impl_trait_count_segments(p.segments@.take(i as int))),
                    Ghost(impl_trait_count_args(ga.args@) + impl_trait_count_bindings(ga.bindings@)),
                );
            },
            None => {},
        }
        i += 1;
    }
    proof {
        assert(p.segments@.take(p.segments.len() as int) == p.segments@);
    }
    saturating_sum(anchor, count, Ghost(anchor_count), Ghost(impl_trait_count_segments(p.segments@)))
}

fn count_impl_traits_in_args(args: &Vec<GenericArg>) -> (count: usize)
    ensures
        count == saturated(impl_trait_count_args(args@)),
    decreases *args, 1nat,
{
    let mut count: usize = 0;
    let mut i: usize = 0;
    while i < args.len()
        invariant
            i <= args.len(),
            count == saturated(impl_trait_count_args(args@.take(i as int))),
        decreases args.len() - i,
    {
        proof {
            assert(args@.take(i + 1).drop_last() == args@.take(i as int));
        }
        match &args[i] {
            GenericArg::Type(t) => {
                let c = count_impl_traits(t);
                count = saturating_sum(
                    count,
                    c,
                    Ghost(impl_trait_count_args(args@.take(i as int))),
                    Ghost(impl_trait_count(*t)),
                );
            },
            GenericArg::Lifetime(_) => {},
        }
        i += 1;
    }
    proof {
        assert(args@.take(args.len() as int) == args@);
    }
    count
}

fn count_impl_traits_in_bindings(bs: &Vec<AssociatedTypeBinding>) -> (count: usize)
    ensures
        count == saturated(impl_trait_count_bindings(bs@)),
    decreases *bs, 1nat,
{
    let mut count: usize = 0;
    let mut i: usize = 0;
    while i < bs.len()
        invariant
            i <= bs.len(),
            count == saturated(impl_trait_count_bindings(bs@.take(i as int))),
        decreases bs.len() - i,
    {
        proof {
            assert(bs@.take(i + 1).drop_last() == bs@.take(i as int));
        }
        let t: usize = match &bs[i].type_ref {
            Some(t) => count_impl_traits(t),
            None => 0,
        };
        let ghost t_count: nat = match &bs@[i as int].type_ref {
            Some(t) => impl_trait_count(*t),
            None => 0,
        };
        let b = count_impl_traits_in_bounds(&bs[i].bounds);
        let step = saturating_sum(
            count,
            t,
            Ghost(impl_trait_count_bindings(bs@.take(i as int))),
            Ghost(t_count),
        );
        count = saturating_sum(
            step,
            b,
            Ghost(impl_trait_count_bindings(bs@.take(i as int)) + t_count),
            Ghost(impl_trait_count_bounds(bs@[i as int].bounds@)),
        );
        i += 1;
    }
    proof {
        assert(bs@.take(bs.len() as int) == bs@);
    }
    count
}

// ---------------------------------------------------------------------------
// Reading the database
// ---------------------------------------------------------------------------

impl Database {
    /// The declared type of `def` as the database has it.
    pub fn ty(&self, def: TyDefId) -> (r: Binders<Ty>)
        ensures
            r@ == declared_ty(*self, def),
    {
        match def {
            TyDefId::BuiltinType(b) => Binders::new(0, Ty::Builtin(b)),
            TyDefId::AdtId(adt) => type_for_adt(self, adt),
            TyDefId::TypeAliasId(t) => {
                match self.type_alias_data(t) {
                    Some(d) => match &d.ty {
                        Some(b) => return Binders::new(b.num_binders, b.value.duplicate()),
                        None => {},
                    },
                    None => {},
                }
                ty_recover(self, def)
            },
        }
    }

    /// The self type of an impl as the database has it.
    pub fn impl_self_ty(&self, impl_id: crate::ids::ImplId) -> (r: Binders<Ty>)
        ensures
            r@ == declared_impl_self_ty(*self, impl_id),
    {
        match self.impl_data(impl_id) {
            Some(d) => match &d.self_ty {
                Some(b) => return Binders::new(b.num_binders, b.value.duplicate()),
                None => {},
            },
            None => {},
        }
        impl_self_ty_recover(self, impl_id)
    }
}

/// The declared type of an algebraic data type: the type applied to its own
/// parameters.
pub fn type_for_adt(db: &Database, adt: AdtId) -> (r: Binders<Ty>)
    ensures
        r@ == declared_ty(*db, TyDefId::AdtId(adt)),
{
    let generics = generics(db, GenericDefId::AdtId(adt));
    let substs = Substs::bound_vars(&generics, DebruijnIndex::innermost());
    Binders::new(substs.len(), Ty::Adt(adt, substs))
}

/// What the declared type of `def` is taken to be where it depends on
/// itself: `Unknown`, under as many binders as `def` has parameters.
pub fn ty_recover(db: &Database, def: TyDefId) -> (r: Binders<Ty>)
    ensures
        r@ == (Binders {
            num_binders: generics_len(*db, generic_def_of(def)) as usize,
            value: TyV::Unknown,
        }),
{
    let num_binders = match def {
        TyDefId::BuiltinType(_) => 0,
        TyDefId::AdtId(it) => generics(db, GenericDefId::AdtId(it)).len(),
        TyDefId::TypeAliasId(it) => generics(db, GenericDefId::TypeAliasId(it)).len(),
    };
    Binders::new(num_binders, Ty::Unknown)
}

/// What the self type of an impl is taken to be where it depends on itself:
/// `Unknown`, under as many binders as the impl has parameters.
pub fn impl_self_ty_recover(db: &Database, impl_id: crate::ids::ImplId) -> (r: Binders<Ty>)
    ensures
        r@ == (Binders {
            num_binders: generic_param_list(*db, GenericDefId::ImplId(impl_id)).len() as usize,
            value: TyV::Unknown,
        }),
{
    let generics = generics(db, GenericDefId::ImplId(impl_id));
    Binders::new(generics.len(), Ty::Unknown)
}

/// Mutability as type terms have it.
pub fn lower_to_chalk_mutability(m: crate::type_ref::Mutability) -> (r: Mutability)
    ensures
        r == lower_mutability(m),
{
    match m {
        crate::type_ref::Mutability::Shared => Mutability::Not,
        crate::type_ref::Mutability::Mut => Mutability::Mut,
    }
}

fn push_unknowns(v: &mut Vec<Ty>, n: usize)
    ensures
        tys_view(final(v)@) == tys_view(old(v)@) + unknowns(n as nat),
{
    let mut i: usize = 0;
    assert(tys_view(v@) =~= tys_view(v@) + unknowns(0));
    while i < n
        invariant
            i <= n,
            tys_view(v@) == tys_view(old(v)@) + unknowns(i as nat),
        decreases n - i,
    {
        let ghost before = tys_view(v@);
        v.push(Ty::Unknown);
        assert(tys_view(v@) =~= before.push(TyV::Unknown));
        assert(before.push(TyV::Unknown) =~= tys_view(old(v)@) + unknowns((i + 1) as nat));
        i += 1;
    }
}

/// Appends to `substs` the defaults of the parameters that it has no entry
/// for, as far as the database has defaults and up to `total_len` entries.
fn fill_with_defaults(db: &Database, def: GenericDefId, substs: &mut Vec<Ty>, total_len: usize)
    requires
        old(substs).len() <= total_len,
    ensures
        tys_view(final(substs)@) == fill_defaults(
            db.spec_generic_defaults(def),
            tys_view(old(substs)@),
            total_len as nat,
        ),
        final(substs).len() <= total_len,
{
    match db.generic_defaults(def) {
        Some(defaults) => {
            while substs.len() < total_len && substs.len() < defaults.len()
                invariant
                    substs.len() <= total_len,
                    defaults@ == db.spec_generic_defaults(def),
                    fill_defaults(defaults@, tys_view(old(substs)@), total_len as nat) == fill_defaults(
                        defaults@,
                        tys_view(substs@),
                        total_len as nat,
                    ),
                decreases total_len - substs.len(),
            {
                // Each default can depend on the parameters before it.
                let ghost before = tys_view(substs@);
                let ty = map_bound_vars(&BoundVarOp::Subst(substs), &defaults[substs.len()].value, 0);
                substs.push(ty);
                assert(tys_view(substs@) =~= before.push(ty@));
            }
        },
        None => {},
    }
}

/// Appends `Unknown` to `substs` until it has `total_len` entries.
fn pad_with_unknown(substs: &mut Vec<Ty>, total_len: usize)
    ensures
        tys_view(final(substs)@) == pad_unknown(tys_view(old(substs)@), total_len as nat),
        old(substs).len() <= total_len ==> final(substs).len() == total_len,
{
    if substs.len() < total_len {
        let missing = total_len - substs.len();
        push_unknowns(substs, missing);
    }
}

// ---------------------------------------------------------------------------
// Lowering
// ---------------------------------------------------------------------------

/// The segments of a path from some segment on.
pub struct PathSegments<'a> {
    pub segments: &'a Vec<PathSegment>,
    pub start: usize,
}

impl<'a> View for PathSegments<'a> {
    type V = Seq<PathSegment>;

    open spec fn view(&self) -> Seq<PathSegment> {
        if self.start <= self.segments@.len() {
            self.segments@.subrange(self.start as int, self.segments@.len() as int)
        } else {
            Seq::empty()
        }
    }
}

impl<'a> PathSegments<'a> {
    /// All segments of a path.
    pub fn all(segments: &'a Vec<PathSegment>) -> (r: PathSegments<'a>)
        ensures
            r@ == segments@,
    {
        let r = PathSegments { segments, start: 0 };
        assert(r@ =~= segments@);
        r
    }

    /// The segments of a path from number `start` on.
    pub fn skip(segments: &'a Vec<PathSegment>, start: usize) -> (r: PathSegments<'a>)
        requires
            start <= segments@.len(),
        ensures
            r@ == segments@.subrange(start as int, segments@.len() as int),
    {
        PathSegments { segments, start }
    }

    pub fn len(&self) -> (n: usize)
        ensures
            n == self@.len(),
    {
        if self.start <= self.segments.len() {
            self.segments.len() - self.start
        } else {
            0
        }
    }

    pub fn first(&self) -> (r: Option<&'a PathSegment>)
        ensures
            match r {
                Some(s) => self@.len() > 0 && *s == self@[0],
                None => self@.len() == 0,
            },
    {
        if self.start < self.segments.len() {
            Some(&self.segments[self.start])
        } else {
            None
        }
    }
}

pub open spec fn opt_ty_view(o: Option<Ty>) -> Option<TyV> {
    match o {
        Some(t) => Some(t@),
        None => None,
    }
}

pub open spec fn opt_trait_ref_view(o: Option<TraitRef>) -> Option<TraitRefV> {
    match o {
        Some(t) => Some(t@),
        None => None,
    }
}

/// One pass of lowering: where it reads, how it lowers generic parameters
/// and `impl Trait`, how deep under binders it stands, and what it has
/// collected.
#[derive(Debug)]
pub struct TyLoweringContext<'a> {
    pub db: &'a Database,
    pub resolver: &'a Resolver,
    pub in_binders: DebruijnIndex,
    pub type_param_mode: TypeParamLoweringMode,
    pub impl_trait_mode: ImplTraitLoweringMode,
    /// The number of `impl Trait` occurrences met so far.
    pub impl_trait_counter: u16,
    /// The bounds of the opaque types made so far, by occurrence.
    pub opaque_type_data: Vec<ReturnTypeImplTrait>,
}

impl<'a> TyLoweringContext<'a> {
    pub open spec fn env(&self) -> LowerEnv {
        LowerEnv {
            db: *self.db,
            resolver: *self.resolver,
            in_binders: self.in_binders,
            type_param_mode: self.type_param_mode,
            impl_trait_mode: self.impl_trait_mode,
        }
    }

    pub open spec fn state(&self) -> LowerState {
        LowerState { counter: self.impl_trait_counter, opaque: impl_traits_view(self.opaque_type_data@) }
    }

    /// A pass that lowers generic parameters to placeholders and does not
    /// allow `impl Trait`, at the binder of the generic parameters.
    pub fn new(db: &'a Database, resolver: &'a Resolver) -> (r: Self)
        ensures
            r.env() == (LowerEnv {
                db: *db,
                resolver: *resolver,
                in_binders: DebruijnIndex { depth: 0 },
                type_param_mode: TypeParamLoweringMode::Placeholder,
                impl_trait_mode: ImplTraitLoweringMode::Disallowed,
            }),
            r.state() == (LowerState { counter: 0, opaque: Seq::empty() }),
    {
        let r = TyLoweringContext {
            db,
            resolver,
            in_binders: DebruijnIndex::innermost(),
            type_param_mode: TypeParamLoweringMode::Placeholder,
            impl_trait_mode: ImplTraitLoweringMode::Disallowed,
            impl_trait_counter: 0,
            opaque_type_data: Vec::new(),
        };
        assert(r.state().opaque =~= Seq::empty());
        r
    }

    /// Runs `f` on the pass at the binder depth `debruijn`. What was
    /// collected so far goes along, and what `f` collects stays; the depth
    /// and the modes are afterwards what they were.
    pub fn with_debruijn<T, F: FnOnce(&mut TyLoweringContext<'a>) -> T>(
        &mut self,
        debruijn: DebruijnIndex,
        f: F,
    ) -> (r: T)
        requires
            forall|c: &mut TyLoweringContext<'a>|
                (*c).env() == old(self).env().with_binders(debruijn) && (*c).state() == old(self).state()
                    ==> #[trigger] call_requires(f, (c,)),
        ensures
            final(self).env() == old(self).env(),
            exists|c: &mut TyLoweringContext<'a>|
                (*c).env() == old(self).env().with_binders(debruijn) && (*c).state() == old(self).state()
                    && #[trigger] call_ensures(f, (c,), r) && final(self).state() == final(c).state(),
    {
        let db = self.db;
        let resolver = self.resolver;
        let outer = self.in_binders;
        let type_param_mode = self.type_param_mode;
        let impl_trait_mode = self.impl_trait_mode;
        self.in_binders = debruijn;
        let r = f(self);
        self.db = db;
        self.resolver = resolver;
        self.in_binders = outer;
        self.type_param_mode = type_param_mode;
        self.impl_trait_mode = impl_trait_mode;
        r
    }

    /// Runs `f` on the pass under `debruijn` further binders.
    pub fn with_shifted_in<T, F: FnOnce(&mut TyLoweringContext<'a>) -> T>(
        &mut self,
        debruijn: DebruijnIndex,
        f: F,
    ) -> (r: T)
        requires
            old(self).in_binders.depth + debruijn.depth <= u32::MAX,
            forall|c: &mut TyLoweringContext<'a>|
                (*c).env() == old(self).env().with_binders(
                    DebruijnIndex { depth: (old(self).in_binders.depth + debruijn.depth) as u32 },
                ) && (*c).state() == old(self).state() ==> #[trigger] call_requires(f, (c,)),
        ensures
            final(self).env() == old(self).env(),
            exists|c: &mut TyLoweringContext<'a>|
                (*c).env() == old(self).env().with_binders(
                    DebruijnIndex { depth: (old(self).in_binders.depth + debruijn.depth) as u32 },
                ) && (*c).state() == old(self).state() && #[trigger] call_ensures(f, (c,), r)
                    && final(self).state() == final(c).state(),
    {
        match self.in_binders.shifted_in_from(debruijn) {
            Some(d) => self.with_debruijn(d, f),
            None => vstd::pervasive::unreached(),
        }
    }

    pub fn with_impl_trait_mode(self, impl_trait_mode: ImplTraitLoweringMode) -> (r: Self)
        ensures
            r.env() == (LowerEnv { impl_trait_mode, ..self.env() }),
            r.state() == self.state(),
    {
        TyLoweringContext { impl_trait_mode, ..self }
    }

    pub fn with_type_param_mode(self, type_param_mode: TypeParamLoweringMode) -> (r: Self)
        ensures
            r.env() == (LowerEnv { type_param_mode, ..self.env() }),
            r.state() == self.state(),
    {
        TyLoweringContext { type_param_mode, ..self }
    }

    /// Lowers `type_ref` to a type. In a consistent environment the type is
    /// bound where the pass stands: every bound variable in it names a binder
    /// inside the type, or one of the generic parameters in scope.
    pub fn lower_ty(&mut self, type_ref: &TypeRef) -> (ty: Ty)
        ensures
            final(self).env() == old(self).env(),
            ty@ == lower_ty_spec(old(self).env(), old(self).state(), *type_ref).0,
            final(self).state() == lower_ty_spec(old(self).env(), old(self).state(), *type_ref).2,
            env_consistent(old(self).env()) ==> closed_ty(
                ty@,
                old(self).in_binders.depth as nat,
                seq![reach(old(self).env(), final(self).state())],
            ),
    {
        proof {
            if env_consistent(self.env()) {
                lemma_lower_ty_bound(self.env(), self.state(), *type_ref);
            }
        }
        self.lower_ty_ext(type_ref).0
    }

    /// Lowers `type_ref` to a type, and says in what a segment that follows
    /// it in a path would be looked up.
    #[verifier::rlimit(50)]
    pub fn lower_ty_ext(&mut self, type_ref: &TypeRef) -> (r: (Ty, Option<TypeNs>))
        ensures
            final(self).env() == old(self).env(),
            (r.0@, r.1, final(self).state()) == lower_ty_spec(old(self).env(), old(self).state(), *type_ref),
        decreases *type_ref, 1nat,
    {
        reveal(lower_ty_spec);
        reveal(lower_tys_spec);
        reveal(lower_path_spec);
        reveal(lower_type_bounds_spec);
        reveal(lower_impl_trait_spec);
        match type_ref {
            TypeRef::Never => (Ty::Never, None),
            TypeRef::Placeholder => (Ty::Unknown, None),
            TypeRef::Error => (Ty::Unknown, None),
            TypeRef::Tuple(inner) => {
                let tys = self.lower_tys(inner);
                (Ty::Tuple(inner.len(), Substs(tys)), None)
            },
            TypeRef::Path(path) => self.lower_path(path),
            TypeRef::RawPtr(inner, mutability) => {
                let inner_ty = self.lower_ty_ext(inner).0;
                (Ty::RawPointer(lower_to_chalk_mutability(*mutability), Box::new(inner_ty)), None)
            },
            TypeRef::Array(inner) => {
                let inner_ty = self.lower_ty_ext(inner).0;
                (Ty::Array(Box::new(inner_ty)), None)
            },
            TypeRef::Slice(inner) => {
                let inner_ty = self.lower_ty_ext(inner).0;
                (Ty::Slice(Box::new(inner_ty)), None)
            },
            TypeRef::Reference(inner, _, mutability) => {
                let inner_ty = self.lower_ty_ext(inner).0;
                (Ty::Reference(lower_to_chalk_mutability(*mutability), Box::new(inner_ty)), None)
            },
            TypeRef::Fn(params, is_varargs) => {
                let tys = self.lower_tys(params);
                if params.len() == 0 {
                    (Ty::Unknown, None)
                } else {
                    (
                        Ty::FunctionPointer(
                            FnPointer {
                                num_args: params.len() - 1,
                                sig: FnSig { safety: Safety::Safe, variadic: *is_varargs },
                                substs: Substs(tys),
                            },
                        ),
                        None,
                    )
                }
            },
            TypeRef::DynTrait(bounds) => {
                let outer = self.in_binders;
                match outer.shifted_in() {
                    Some(d) => {
                        let self_ty = Ty::BoundVar(BoundVar::new(DebruijnIndex::innermost(), 0));
                        self.in_binders = d;
                        let predicates = self.lower_type_bounds(bounds, &self_ty);
                        self.in_binders = outer;
                        (Ty::Dyn(predicates), None)
                    },
                    None => (Ty::Unknown, None),
                }
            },
            TypeRef::ImplTrait(bounds) => self.lower_impl_trait_type(type_ref, bounds),
        }
    }

    /// Lowers an `impl Trait` as the mode of this pass says.
    #[verifier::rlimit(50)]
    fn lower_impl_trait_type(&mut self, type_ref: &TypeRef, bounds: &Vec<TypeBound>) -> (r: (Ty, Option<TypeNs>))
        requires
            *type_ref == TypeRef::ImplTrait(*bounds),
        ensures
            final(self).env() == old(self).env(),
            (r.0@, r.1, final(self).state()) == lower_ty_spec(old(self).env(), old(self).state(), *type_ref),
        decreases *type_ref, 0nat,
    {
        reveal(lower_ty_spec);
        reveal(lower_tys_spec);
        reveal(lower_path_spec);
        reveal(lower_type_bounds_spec);
        reveal(lower_impl_trait_spec);
        match self.impl_trait_mode {
            ImplTraitLoweringMode::Opaque => {
                let func = match self.resolver.generic_def() {
                    Some(GenericDefId::FunctionId(f)) => f,
                    _ => {
                        return (Ty::Unknown, None);
                    },
                };
                let idx = self.impl_trait_counter;
                if idx < u16::MAX && idx as usize == self.opaque_type_data.len() {
                    self.impl_trait_counter = idx + 1;
                    let ghost before = impl_traits_view(self.opaque_type_data@);
                    let reserved = ReturnTypeImplTrait { bounds: Binders::new(1, Vec::new()) };
                    assert(reserved@.value =~= Seq::<PredV>::empty());
                    self.opaque_type_data.push(reserved);
                    assert(impl_traits_view(self.opaque_type_data@) =~= before.push(reserved@));
                    // The bounds do not end up inside the binders that this
                    // place stands under: they are kept apart, one binder
                    // away from the generic parameters.
                    let outer = self.in_binders;
                    self.in_binders = DebruijnIndex::innermost();
                    assert(decreases_to!(*type_ref => type_ref->ImplTrait_0));
                    let actual = self.lower_impl_trait(bounds);
                    self.in_binders = outer;
                    if (idx as usize) < self.opaque_type_data.len() {
                        let ghost filled = impl_traits_view(self.opaque_type_data@);
                        let ghost actual_view = actual@;
                        self.opaque_type_data.set(idx as usize, actual);
                        assert(impl_traits_view(self.opaque_type_data@) =~= filled.update(
                            idx as int,
                            actual_view,
                        ));
                    }
                    let generics = generics(self.db, GenericDefId::FunctionId(func));
                    let parameters = Substs::bound_vars(&generics, self.in_binders);
                    (
                        Ty::Alias(
                            AliasTy::Opaque(
                                OpaqueTy {
                                    opaque_ty_id: OpaqueTyId { func, idx },
                                    substitution: parameters,
                                },
                            ),
                        ),
                        None,
                    )
                } else {
                    (Ty::Unknown, None)
                }
            },
            ImplTraitLoweringMode::Param => {
                let idx = self.impl_trait_counter;
                let count = count_impl_traits(type_ref);
                if count <= (u16::MAX - idx) as usize {
                    self.impl_trait_counter = idx + count as u16;
                    let ty = match self.resolver.generic_def() {
                        Some(def) => {
                            let generics = generics(self.db, def);
                            match generics.nth_impl_trait_param(idx as usize) {
                                Some(id) => Ty::Placeholder(id),
                                None => Ty::Unknown,
                            }
                        },
                        None => Ty::Unknown,
                    };
                    (ty, None)
                } else {
                    (Ty::Unknown, None)
                }
            },
            ImplTraitLoweringMode::Variable => {
                let idx = self.impl_trait_counter;
                let count = count_impl_traits(type_ref);
                let declared: usize = match self.resolver.generic_def() {
                    Some(def) => {
                        let generics = generics(self.db, def);
                        let split = generics.provenance_split();
                        let n = generics.len();
                        assert(split.0 + split.1 + split.2 <= n);
                        split.0 + split.1 + split.2
                    },
                    None => 0,
                };
                if count <= (u16::MAX - idx) as usize && declared <= usize::MAX - idx as usize {
                    self.impl_trait_counter = idx + count as u16;
                    (Ty::BoundVar(BoundVar::new(self.in_binders, idx as usize + declared)), None)
                } else {
                    (Ty::Unknown, None)
                }
            },
            ImplTraitLoweringMode::Disallowed => (Ty::Unknown, None),
        }
    }

    /// Lowers a list of type references, one after the other.
    pub fn lower_tys(&mut self, type_refs: &Vec<TypeRef>) -> (r: Vec<Ty>)
        ensures
            final(self).env() == old(self).env(),
            (tys_view(r@), final(self).state()) == lower_tys_spec(
                old(self).env(),
                old(self).state(),
                type_refs@,
            ),
            r.len() == type_refs.len(),
        decreases *type_refs, 0nat,
    {
        reveal(lower_tys_spec);
        reveal(lower_ty_spec);
        let ghost env = self.env();
        let ghost st = self.state();
        let mut r: Vec<Ty> = Vec::new();
        let mut i: usize = 0;
        assert(type_refs@.take(0) =~= Seq::empty());
        assert(tys_view(r@) =~= Seq::empty());
        while i < type_refs.len()
            invariant
                i <= type_refs.len(),
                r.len() == i,
                self.env() == env,
                (tys_view(r@), self.state()) == lower_tys_spec(env, st, type_refs@.take(i as int)),
            decreases type_refs.len() - i,
        {
            reveal(lower_tys_spec);
            reveal(lower_ty_spec);
            proof {
                assert(type_refs@.take(i + 1).drop_last() == type_refs@.take(i as int));
            }
            let ghost before = tys_view(r@);
            let ty = self.lower_ty_ext(&type_refs[i]).0;
            r.push(ty);
            assert(tys_view(r@) =~= before.push(ty@));
            i += 1;
        }
        proof {
            assert(type_refs@.take(type_refs.len() as int) == type_refs@);
        }
        r
    }

    /// Lowers what follows a type in a path.
    pub fn lower_ty_relative_path(&self, ty: Ty, res: Option<TypeNs>, remaining_segments: PathSegments<'_>) -> (r:
        (Ty, Option<TypeNs>))
        ensures
            (r.0@, r.1) == lower_ty_relative_path_spec(self.env(), ty@, res, remaining_segments@),
    {
        reveal(lower_ty_relative_path_spec);
        if remaining_segments.len() == 1 {
            match remaining_segments.first() {
                Some(segment) => (self.select_associated_type(res, segment), None),
                None => (Ty::Unknown, None),
            }
        } else if remaining_segments.len() > 1 {
            (Ty::Unknown, None)
        } else {
            (ty, res)
        }
    }

    /// Lowers a path of which a prefix resolved to `resolution`.
    #[verifier::rlimit(50)]
    pub fn lower_partly_resolved_path(
        &mut self,
        resolution: TypeNs,
        resolved_segment: &PathSegment,
        remaining_segments: PathSegments<'_>,
        infer_args: bool,
    ) -> (r: (Ty, Option<TypeNs>))
        ensures
            final(self).env() == old(self).env(),
            (r.0@, r.1, final(self).state()) == lower_partly_resolved_path_spec(
                old(self).env(),
                old(self).state(),
                resolution,
                *resolved_segment,
                remaining_segments@,
                infer_args,
            ),
        decreases *resolved_segment, 5nat,
    {
        reveal(lower_partly_resolved_path_spec);
        reveal(lower_trait_ref_from_resolved_path_spec);
        reveal(lower_path_inner_spec);
        let ty = match resolution {
            TypeNs::TraitId(trait_) => {
                return self.lower_trait_path(trait_, resolved_segment, remaining_segments, infer_args);
            },
            TypeNs::GenericParam(param_id) => self.lower_type_param(param_id, self.in_binders),
            TypeNs::SelfType(impl_id) => {
                let substs = self.params_as_types(GenericDefId::ImplId(impl_id));
                self.db.impl_self_ty(impl_id).subst(&substs)
            },
            TypeNs::AdtSelfType(adt) => {
                let substs = self.params_as_types(GenericDefId::AdtId(adt));
                self.db.ty(TyDefId::AdtId(adt)).subst(&substs)
            },
            TypeNs::AdtId(it) => self.lower_path_inner(resolved_segment, TyDefId::AdtId(it), infer_args),
            TypeNs::BuiltinType(it) => self.lower_path_inner(
                resolved_segment,
                TyDefId::BuiltinType(it),
                infer_args,
            ),
            TypeNs::TypeAliasId(it) => self.lower_path_inner(
                resolved_segment,
                TyDefId::TypeAliasId(it),
                infer_args,
            ),
            TypeNs::EnumVariantId(_) => {
                return (Ty::Unknown, None);
            },
        };
        self.lower_ty_relative_path(ty, Some(resolution), remaining_segments)
    }

    /// Lowers a path of which a prefix resolved to the trait `trait_`: to a
    /// trait object where nothing follows, to an associated type of the trait
    /// or of a supertrait where one segment follows.
    #[verifier::rlimit(50)]
    fn lower_trait_path(
        &mut self,
        trait_: TraitId,
        resolved_segment: &PathSegment,
        remaining_segments: PathSegments<'_>,
        infer_args: bool,
    ) -> (r: (Ty, Option<TypeNs>))
        ensures
            final(self).env() == old(self).env(),
            (r.0@, r.1, final(self).state()) == lower_partly_resolved_path_spec(
                old(self).env(),
                old(self).state(),
                TypeNs::TraitId(trait_),
                *resolved_segment,
                remaining_segments@,
                infer_args,
            ),
        decreases *resolved_segment, 4nat,
    {
        reveal(lower_partly_resolved_path_spec);
        reveal(lower_trait_ref_from_resolved_path_spec);
        reveal(lower_path_inner_spec);
        // A bare trait is a trait object: its self type is the variable of
        // the object's own binder.
        let self_ty = if remaining_segments.len() == 0 {
            Some(Ty::BoundVar(BoundVar::new(DebruijnIndex::innermost(), 0)))
        } else {
            None
        };
        let trait_ref = self.lower_trait_ref_from_resolved_path(trait_, resolved_segment, self_ty);
        let ty = if remaining_segments.len() == 1 {
            match remaining_segments.first() {
                Some(segment) => {
                    let found = associated_type_by_name_including_super_traits(
                        self.db,
                        trait_ref,
                        segment.name,
                    );
                    match found {
                        Some((super_trait_ref, associated_ty)) => Ty::Alias(
                            AliasTy::Projection(
                                ProjectionTy {
                                    associated_ty_id: associated_ty,
                                    substitution: super_trait_ref.substs,
                                },
                            ),
                        ),
                        None => Ty::Unknown,
                    }
                },
                None => Ty::Unknown,
            }
        } else if remaining_segments.len() > 1 {
            Ty::Unknown
        } else {
            let mut preds: Vec<GenericPredicate> = Vec::new();
            let ghost tv = trait_ref@;
            preds.push(GenericPredicate::Implemented(trait_ref));
            assert(preds_view(preds@) =~= seq![PredV::Implemented(tv)]);
            Ty::Dyn(preds)
        };
        (ty, None)
    }

    fn params_as_types(&self, def: GenericDefId) -> (r: Substs)
        ensures
            r@ == crate::semantics::params_as_types(self.env(), def),
    {
        let generics = generics(self.db, def);
        match self.type_param_mode {
            TypeParamLoweringMode::Placeholder => Substs::type_params_for_generics(&generics),
            TypeParamLoweringMode::Variable => Substs::bound_vars(&generics, self.in_binders),
        }
    }

    fn lower_type_param(&self, param_id: TypeParamId, debruijn: DebruijnIndex) -> (r: Ty)
        ensures
            r@ == crate::semantics::lower_type_param(self.env(), param_id, debruijn),
    {
        match self.type_param_mode {
            TypeParamLoweringMode::Placeholder => Ty::Placeholder(param_id),
            TypeParamLoweringMode::Variable => match self.resolver.generic_def() {
                Some(def) => {
                    let generics = generics(self.db, def);
                    match generics.param_idx(param_id) {
                        Some(idx) => Ty::BoundVar(BoundVar::new(debruijn, idx)),
                        None => Ty::Unknown,
                    }
                },
                None => Ty::Unknown,
            },
        }
    }

    /// Lowers a path to a type.
    pub fn lower_path(&mut self, path: &Path) -> (r: (Ty, Option<TypeNs>))
        ensures
            final(self).env() == old(self).env(),
            (r.0@, r.1, final(self).state()) == lower_path_spec(old(self).env(), old(self).state(), *path),
        decreases *path, 5nat,
    {
        reveal(lower_path_spec);
        reveal(lower_ty_spec);
        reveal(lower_partly_resolved_path_spec);
        match &path.type_anchor {
            Some(type_ref) => {
                let (ty, res) = self.lower_ty_ext(type_ref);
                return self.lower_ty_relative_path(ty, res, PathSegments::all(&path.segments));
            },
            None => {},
        }
        let (resolution, remaining_index) = match self.resolver.resolve_path_in_type_ns(path) {
            Some(it) => it,
            None => {
                return (Ty::Unknown, None);
            },
        };
        let n = path.segments.len();
        let from = match remaining_index {
            None => n,
            Some(i) => i,
        };
        self.lower_partly_resolved_path(
            resolution,
            &path.segments[from - 1],
            PathSegments::skip(&path.segments, from),
            false,
        )
    }

    fn select_associated_type(&self, res: Option<TypeNs>, segment: &PathSegment) -> (r: Ty)
        ensures
            r@ == select_associated_type_spec(self.env(), res, segment.name),
    {
        reveal(select_associated_type_spec);
        let resolution = match res {
            Some(resolution) => resolution,
            None => {
                return Ty::Unknown;
            },
        };
        let candidates = shorthand_candidate_list(self.db, resolution);
        let ghost cands = candidates_view(candidates@);
        let mut i: usize = 0;
        while i < candidates.len()
            invariant
                i <= candidates.len(),
                res == Some(resolution),
                cands == candidates_view(candidates@),
                cands == shorthand_candidates(*self.db, resolution),
                first_named(cands, segment.name, 0) == first_named(cands, segment.name, i as int),
            decreases candidates.len() - i,
        {
            reveal(select_associated_type_spec);
            let c = &candidates[i];
            assert(cands[i as int] == c@);
            assert(first_named(cands, segment.name, i as int) == if c.name == segment.name {
                Some(c@)
            } else {
                first_named(cands, segment.name, i + 1)
            });
            if c.name == segment.name {
                let substs = match self.type_param_mode {
                    TypeParamLoweringMode::Placeholder => {
                        // Placeholders have to be put in now.
                        match self.resolver.generic_def() {
                            Some(def) => {
                                let s = Substs::type_params(self.db, def);
                                c.trait_ref.substs.subst_bound_vars(&s)
                            },
                            None => {
                                return Ty::Unknown;
                            },
                        }
                    },
                    TypeParamLoweringMode::Variable => c.trait_ref.substs.duplicate(),
                };
                // The candidates stand at the binder of the generic parameters.
                let substs = substs.shift_bound_vars(self.in_binders);
                return Ty::Alias(
                    AliasTy::Projection(
                        ProjectionTy { associated_ty_id: c.associated_ty, substitution: substs },
                    ),
                );
            }
            i += 1;
        }
        Ty::Unknown
    }

    fn lower_path_inner(&mut self, segment: &PathSegment, typeable: TyDefId, infer_args: bool) -> (r: Ty)
        ensures
            final(self).env() == old(self).env(),
            (r@, final(self).state()) == lower_path_inner_spec(
                old(self).env(),
                old(self).state(),
                *segment,
                typeable,
                infer_args,
            ),
        decreases *segment, 2nat,
    {
        reveal(lower_path_inner_spec);
        reveal(substs_from_path_segment_spec);
        let generic_def = match typeable {
            TyDefId::BuiltinType(_) => None,
            TyDefId::AdtId(it) => Some(GenericDefId::AdtId(it)),
            TyDefId::TypeAliasId(it) => Some(GenericDefId::TypeAliasId(it)),
        };
        let substs = self.substs_from_path_segment(segment, generic_def, infer_args);
        self.db.ty(typeable).subst(&substs)
    }

    fn lower_type_args(&mut self, args: &Vec<GenericArg>, skip: usize, take: usize) -> (r: Vec<Ty>)
        ensures
            final(self).env() == old(self).env(),
            tys_view(r@) == lower_type_args_spec(
                old(self).env(),
                old(self).state(),
                args@,
                skip as nat,
                take as nat,
            ).0,
            final(self).state() == lower_type_args_spec(
                old(self).env(),
                old(self).state(),
                args@,
                skip as nat,
                take as nat,
            ).1,
            r.len() <= take,
        decreases *args, 0nat,
    {
        reveal(lower_type_args_spec);
        reveal(lower_ty_spec);
        let ghost env = self.env();
        let ghost st = self.state();
        let mut r: Vec<Ty> = Vec::new();
        let mut seen: usize = 0;
        let mut i: usize = 0;
        assert(args@.take(0) =~= Seq::empty());
        assert(tys_view(r@) =~= Seq::empty());
        while i < args.len()
            invariant
                i <= args.len(),
                seen <= i,
                r.len() <= take,
                self.env() == env,
                (tys_view(r@), self.state(), seen as nat) == lower_type_args_spec(
                    env,
                    st,
                    args@.take(i as int),
                    skip as nat,
                    take as nat,
                ),
            decreases args.len() - i,
        {
            reveal(lower_type_args_spec);
            reveal(lower_ty_spec);
            proof {
                assert(args@.take(i + 1).drop_last() == args@.take(i as int));
            }
            match &args[i] {
                GenericArg::Type(type_ref) => {
                    if seen >= skip && r.len() < take {
                        let ghost before = tys_view(r@);
                        let ty = self.lower_ty_ext(type_ref).0;
                        r.push(ty);
                        assert(tys_view(r@) =~= before.push(ty@));
                    }
                    seen += 1;
                },
                GenericArg::Lifetime(_) => {},
            }
            i += 1;
        }
        proof {
            assert(args@.take(args.len() as int) == args@);
        }
        r
    }

    /// Collects the generic arguments written on a path segment into a
    /// substitution for the parameters in scope of `def_generic`. The
    /// substitution has one entry for each of those parameters.
    #[verifier::rlimit(50)]
    pub fn substs_from_path_segment(
        &mut self,
        segment: &PathSegment,
        def_generic: Option<GenericDefId>,
        infer_args: bool,
    ) -> (r: Substs)
        ensures
            final(self).env() == old(self).env(),
            (r@, final(self).state()) == substs_from_path_segment_spec(
                old(self).env(),
                old(self).state(),
                *segment,
                def_generic,
                infer_args,
            ),
            r@.len() == generics_len(*old(self).db, def_generic),
        decreases *segment, 1nat,
    {
        reveal(substs_from_path_segment_spec);
        reveal(lower_type_args_spec);
        let mut substs: Vec<Ty> = Vec::new();
        let ((parent_params, self_params, type_params, _impl_trait_params), total_len) = match def_generic {
            Some(def) => {
                let generics = generics(self.db, def);
                (generics.provenance_split(), generics.len())
            },
            None => ((0, 0, 0, 0), 0),
        };
        assert(total_len == generics_len(*self.db, def_generic));
        assert(parent_params + self_params + type_params <= total_len);
        assert(tys_view(substs@) =~= Seq::empty());
        push_unknowns(&mut substs, parent_params);
        assert(tys_view(substs@) =~= unknowns(parent_params as nat));

        let mut had_explicit_type_args = false;
        match &segment.args_and_bindings {
            Some(generic_args) => {
                if !generic_args.has_self_type {
                    push_unknowns(&mut substs, self_params);
                    assert(tys_view(substs@) =~= unknowns((parent_params + self_params) as nat));
                }
                let expected_num = if generic_args.has_self_type {
                    self_params + type_params
                } else {
                    type_params
                };
                let skip: usize = if generic_args.has_self_type && self_params == 0 {
                    1
                } else {
                    0
                };
                // Where arguments are written it should be all of them, but that
                // cannot be relied on.
                let mut lowered = self.lower_type_args(&generic_args.args, skip, expected_num);
                had_explicit_type_args = lowered.len() > 0;
                let ghost front = tys_view(substs@);
                let ghost back = tys_view(lowered@);
                substs.append(&mut lowered);
                assert(tys_view(substs@) =~= front + back);
            },
            None => {},
        }
        assert(tys_view(substs@).len() <= total_len);

        // In a path of an expression or pattern without written type arguments,
        // missing arguments are inferred, not defaulted.
        if !infer_args || had_explicit_type_args {
            match def_generic {
                Some(def) => {
                    fill_with_defaults(self.db, def, &mut substs, total_len);
                },
                None => {},
            }
        }
        // What is still missing is left to inference.
        pad_with_unknown(&mut substs, total_len);
        Substs(substs)
    }

    /// The reference to the trait `resolved` that the arguments written on
    /// `segment` give.
    pub fn lower_trait_ref_from_resolved_path(
        &mut self,
        resolved: TraitId,
        segment: &PathSegment,
        explicit_self_ty: Option<Ty>,
    ) -> (r: TraitRef)
        ensures
            final(self).env() == old(self).env(),
            (r@, final(self).state()) == lower_trait_ref_from_resolved_path_spec(
                old(self).env(),
                old(self).state(),
                resolved,
                *segment,
                opt_ty_view(explicit_self_ty),
            ),
        decreases *segment, 3nat,
    {
        reveal(lower_trait_ref_from_resolved_path_spec);
        reveal(substs_from_path_segment_spec);
        let mut substs = self.trait_ref_substs_from_path(segment, resolved);
        match explicit_self_ty {
            Some(self_ty) => {
                if substs.0.len() > 0 {
                    let ghost before = substs@;
                    let ghost tv = self_ty@;
                    substs.0.set(0, self_ty);
                    assert(substs@ =~= before.update(0, tv));
                }
            },
            None => {},
        }
        TraitRef { trait_: resolved, substs }
    }

    fn trait_ref_substs_from_path(&mut self, segment: &PathSegment, resolved: TraitId) -> (r: Substs)
        ensures
            final(self).env() == old(self).env(),
            (r@, final(self).state()) == substs_from_path_segment_spec(
                old(self).env(),
                old(self).state(),
                *segment,
                Some(GenericDefId::TraitId(resolved)),
                false,
            ),
        decreases *segment, 2nat,
    {
        self.substs_from_path_segment(segment, Some(GenericDefId::TraitId(resolved)), false)
    }

    fn lower_trait_ref_from_path(&mut self, path: &Path, explicit_self_ty: Option<Ty>) -> (r: Option<TraitRef>)
        ensures
            final(self).env() == old(self).env(),
            (opt_trait_ref_view(r), final(self).state()) == lower_trait_ref_from_path_spec(
                old(self).env(),
                old(self).state(),
                *path,
                opt_ty_view(explicit_self_ty),
            ),
        decreases *path, 0nat,
    {
        reveal(lower_trait_ref_from_path_spec);
        reveal(lower_trait_ref_from_resolved_path_spec);
        let resolved = match self.resolver.resolve_path_in_type_ns_fully(path) {
            Some(TypeNs::TraitId(tr)) => tr,
            _ => {
                return None;
            },
        };
        if path.segments.len() > 0 {
            let segment = &path.segments[path.segments.len() - 1];
            Some(self.lower_trait_ref_from_resolved_path(resolved, segment, explicit_self_ty))
        } else {
            None
        }
    }

    /// The trait reference that a type reference lowers to where it is a path
    /// to a trait.
    pub fn lower_trait_ref(&mut self, type_ref: &TypeRef, explicit_self_ty: Option<Ty>) -> (r: Option<TraitRef>)
        ensures
            final(self).env() == old(self).env(),
            (opt_trait_ref_view(r), final(self).state()) == (match *type_ref {
                TypeRef::Path(path) => lower_trait_ref_from_path_spec(
                    old(self).env(),
                    old(self).state(),
                    path,
                    opt_ty_view(explicit_self_ty),
                ),
                _ => (None, old(self).state()),
            }),
    {
        match type_ref {
            TypeRef::Path(path) => self.lower_trait_ref_from_path(path, explicit_self_ty),
            _ => None,
        }
    }

    /// Lowers one `where` predicate to predicates.
    pub fn lower_where_predicate(&mut self, where_predicate: &WherePredicate) -> (r: Vec<GenericPredicate>)
        ensures
            final(self).env() == old(self).env(),
            (preds_view(r@), final(self).state()) == lower_where_predicate_spec(
                old(self).env(),
                old(self).state(),
                *where_predicate,
            ),
    {
        match where_predicate {
            WherePredicate::ForLifetime { lifetimes: _, target, bound } => self.lower_bound_on_target(
                target,
                bound,
            ),
            WherePredicate::TypeBound { target, bound } => self.lower_bound_on_target(target, bound),
            WherePredicate::Lifetime { target: _, bound: _ } => {
                let r: Vec<GenericPredicate> = Vec::new();
                assert(preds_view(r@) =~= Seq::empty());
                r
            },
        }
    }

    fn lower_bound_on_target(&mut self, target: &WherePredicateTypeTarget, bound: &TypeBound) -> (r: Vec<
        GenericPredicate,
    >)
        ensures
            final(self).env() == old(self).env(),
            (preds_view(r@), final(self).state()) == lower_bound_on_target_spec(
                old(self).env(),
                old(self).state(),
                *target,
                *bound,
            ),
    {
        let self_ty = match target {
            WherePredicateTypeTarget::TypeRef(type_ref) => self.lower_ty_ext(type_ref).0,
            WherePredicateTypeTarget::TypeParam(local_id) => match self.resolver.generic_def() {
                Some(generic_def) => {
                    let param_id = TypeParamId { parent: generic_def, local_id: *local_id };
                    self.lower_type_param(param_id, DebruijnIndex::innermost())
                },
                None => Ty::Unknown,
            },
        };
        self.lower_type_bound(bound, self_ty)
    }

    /// Lowers one bound on `self_ty` to predicates.
    #[verifier::rlimit(50)]
    pub fn lower_type_bound(&mut self, bound: &TypeBound, self_ty: Ty) -> (r: Vec<GenericPredicate>)
        ensures
            final(self).env() == old(self).env(),
            (preds_view(r@), final(self).state()) == lower_type_bound_spec(
                old(self).env(),
                old(self).state(),
                *bound,
                self_ty@,
            ),
        decreases *bound, 1nat,
    {
        reveal(lower_type_bound_spec);
        reveal(lower_trait_ref_from_path_spec);
        reveal(assoc_type_bindings_spec);
        let mut r: Vec<GenericPredicate> = Vec::new();
        match bound {
            TypeBound::Path(path) => {
                match self.lower_trait_ref_from_path(path, Some(self_ty)) {
                    Some(trait_ref) => {
                        let ghost tv = trait_ref@;
                        r.push(GenericPredicate::Implemented(trait_ref.duplicate()));
                        assert(preds_view(r@) =~= seq![PredV::Implemented(tv)]);
                        let mut more = self.assoc_type_bindings_from_type_bound(bound, trait_ref);
                        let ghost back = preds_view(more@);
                        r.append(&mut more);
                        assert(preds_view(r@) =~= seq![PredV::Implemented(tv)] + back);
                    },
                    None => {
                        r.push(GenericPredicate::Error);
                        assert(preds_view(r@) =~= seq![PredV::Error]);
                    },
                }
            },
            TypeBound::Lifetime(_) => {
                assert(preds_view(r@) =~= Seq::empty());
            },
            TypeBound::Error => {
                r.push(GenericPredicate::Error);
                assert(preds_view(r@) =~= seq![PredV::Error]);
            },
        }
        r
    }

    fn lower_type_bounds(&mut self, bounds: &Vec<TypeBound>, self_ty: &Ty) -> (r: Vec<GenericPredicate>)
        ensures
            final(self).env() == old(self).env(),
            (preds_view(r@), final(self).state()) == lower_type_bounds_spec(
                old(self).env(),
                old(self).state(),
                bounds@,
                self_ty@,
            ),
        decreases *bounds, 0nat,
    {
        reveal(lower_type_bounds_spec);
        reveal(lower_type_bound_spec);
        let ghost env = self.env();
        let ghost st = self.state();
        let mut r: Vec<GenericPredicate> = Vec::new();
        let mut i: usize = 0;
        assert(bounds@.take(0) =~= Seq::empty());
        assert(preds_view(r@) =~= Seq::empty());
        while i < bounds.len()
            invariant
                i <= bounds.len(),
                self.env() == env,
                (preds_view(r@), self.state()) == lower_type_bounds_spec(
                    env,
                    st,
                    bounds@.take(i as int),
                    self_ty@,
                ),
            decreases bounds.len() - i,
        {
            reveal(lower_type_bounds_spec);
            reveal(lower_type_bound_spec);
            proof {
                assert(bounds@.take(i + 1).drop_last() == bounds@.take(i as int));
            }
            let ghost front = preds_view(r@);
            let mut preds = self.lower_type_bound(&bounds[i], self_ty.duplicate());
            let ghost back = preds_view(preds@);
            r.append(&mut preds);
            assert(preds_view(r@) =~= front + back);
            i += 1;
        }
        proof {
            assert(bounds@.take(bounds.len() as int) == bounds@);
        }
        r
    }

    /// Lowers the associated type bindings written on a bound, where
    /// `trait_ref` is what the bound's trait lowered to.
    pub fn assoc_type_bindings_from_type_bound(&mut self, bound: &TypeBound, trait_ref: TraitRef) -> (r: Vec<
        GenericPredicate,
    >)
        ensures
            final(self).env() == old(self).env(),
            (preds_view(r@), final(self).state()) == (match *bound {
                TypeBound::Path(path) => match bindings_of(path) {
                    Some(bindings) => assoc_type_bindings_spec(
                        old(self).env(),
                        old(self).state(),
                        bindings,
                        trait_ref@,
                    ),
                    None => (Seq::empty(), old(self).state()),
                },
                _ => (Seq::empty(), old(self).state()),
            }),
        decreases *bound, 0nat,
    {
        match bound {
            TypeBound::Path(path) => {
                if path.segments.len() > 0 {
                    match &path.segments[path.segments.len() - 1].args_and_bindings {
                        Some(args_and_bindings) => {
                            return self.lower_assoc_type_bindings(&args_and_bindings.bindings, &trait_ref);
                        },
                        None => {},
                    }
                }
            },
            _ => {},
        }
        let r: Vec<GenericPredicate> = Vec::new();
        assert(preds_view(r@) =~= Seq::empty());
        r
    }

    #[verifier::rlimit(50)]
    fn lower_assoc_type_bindings(&mut self, bindings: &Vec<AssociatedTypeBinding>, trait_ref: &TraitRef) -> (r:
        Vec<GenericPredicate>)
        ensures
            final(self).env() == old(self).env(),
            (preds_view(r@), final(self).state()) == assoc_type_bindings_spec(
                old(self).env(),
                old(self).state(),
                bindings@,
                trait_ref@,
            ),
        decreases *bindings, 0nat,
    {
        reveal(assoc_type_bindings_spec);
        reveal(lower_ty_spec);
        reveal(lower_type_bounds_spec);
        let ghost env = self.env();
        let ghost st = self.state();
        let mut r: Vec<GenericPredicate> = Vec::new();
        let mut i: usize = 0;
        assert(bindings@.take(0) =~= Seq::empty());
        assert(preds_view(r@) =~= Seq::empty());
        while i < bindings.len()
            invariant
                i <= bindings.len(),
                self.env() == env,
                env.db == *self.db,
                (preds_view(r@), self.state()) == assoc_type_bindings_spec(
                    env,
                    st,
                    bindings@.take(i as int),
                    trait_ref@,
                ),
            decreases bindings.len() - i,
        {
            reveal(assoc_type_bindings_spec);
            reveal(lower_ty_spec);
            reveal(lower_type_bounds_spec);
            proof {
                assert(bindings@.take(i + 1).drop_last() == bindings@.take(i as int));
            }
            let binding = &bindings[i];
            let found = associated_type_by_name_including_super_traits(
                self.db,
                trait_ref.duplicate(),
                binding.name,
            );
            match found {
                None => {},
                Some((super_trait_ref, associated_ty)) => {
                    let projection_ty = ProjectionTy {
                        associated_ty_id: associated_ty,
                        substitution: super_trait_ref.substs,
                    };
                    let ghost front = preds_view(r@);
                    let ghost pv = projection_ty@;
                    let ghost mut eq: Seq<PredV> = Seq::empty();
                    let wanted = if binding.type_ref.is_some() && binding.bounds.len() < usize::MAX {
                        binding.bounds.len() + 1
                    } else {
                        binding.bounds.len()
                    };
                    let mut preds = PredicateSink::new(wanted);
                    assert(preds_view(r@) + preds.pending() =~= front + eq);
                    match &binding.type_ref {
                        Some(type_ref) => {
                            let ty = self.lower_ty_ext(type_ref).0;
                            let ghost tv = ty@;
                            preds.push(
                                GenericPredicate::Projection(
                                    ProjectionPredicate { projection_ty: projection_ty.duplicate(), ty },
                                ),
                                &mut r,
                            );
                            proof {
                                eq = seq![PredV::Projection(pv, tv)];
                            }
                            assert(preds_view(r@) + preds.pending() =~= front + eq);
                        },
                        None => {},
                    }
                    let self_ty = Ty::Alias(AliasTy::Projection(projection_ty));
                    let more = self.lower_type_bounds(&binding.bounds, &self_ty);
                    let ghost back = preds_view(more@);
                    preds.extend(more, &mut r);
                    preds.flush(&mut r);
                    assert(preds_view(r@) =~= front + eq + back);
                },
            }
            i += 1;
        }
        proof {
            assert(bindings@.take(bindings.len() as int) == bindings@);
        }
        r
    }

    /// Lowers the bounds of an `impl Trait` in return position.
    pub fn lower_impl_trait(&mut self, bounds: &Vec<TypeBound>) -> (r: ReturnTypeImplTrait)
        ensures
            final(self).env() == old(self).env(),
            (r@, final(self).state()) == lower_impl_trait_spec(old(self).env(), old(self).state(), bounds@),
        decreases *bounds, 1nat,
    {
        reveal(lower_impl_trait_spec);
        reveal(lower_type_bounds_spec);
        let outer = self.in_binders;
        match outer.shifted_in() {
            Some(d) => {
                let self_ty = Ty::BoundVar(BoundVar::new(DebruijnIndex::innermost(), 0));
                self.in_binders = d;
                let predicates = self.lower_type_bounds(bounds, &self_ty);
                self.in_binders = outer;
                ReturnTypeImplTrait { bounds: Binders::new(1, predicates) }
            },
            None => {
                let r = ReturnTypeImplTrait { bounds: Binders::new(1, Vec::new()) };
                assert(r@.value =~= Seq::empty());
                r
            },
        }
    }
}

} // verus!
