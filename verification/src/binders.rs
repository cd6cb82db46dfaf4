//! Values under binders: shifting, substitution, and what it means for a
//! term to mention only variables that some binder around it introduces.
use vstd::prelude::*;
use crate::ty::{
    pred_view, preds_view, ty_view, tys_view, AliasTy, BoundVar, DebruijnIndex, FnPointer,
    GenericPredicate, OpaqueTy, PredV, ProjectionPredicate, ProjectionTy, ProjectionTyV, Substs,
    TraitRef, TraitRefV, Ty, TyV,
};

verus! {

/// A value together with the number of variables that it is closed under:
/// inside `value`, a bound variable whose index names the binder of this
/// `Binders` stands for one of `num_binders` generic parameters.
#[derive(Debug, PartialEq, Eq, Hash)]
pub struct Binders<T> {
    pub num_binders: usize,
    pub value: T,
}

impl<T: View> View for Binders<T> {
    type V = Binders<T::V>;

    open spec fn view(&self) -> Binders<T::V> {
        Binders { num_binders: self.num_binders, value: self.value@ }
    }
}

impl<T> Binders<T> {
    pub fn new(num_binders: usize, value: T) -> (r: Binders<T>)
        ensures
            r.num_binders == num_binders,
            r.value == value,
    {
        Binders { num_binders, value }
    }
}

/// The models of the elements of a list of predicates under binders.
pub open spec fn bound_preds_view(s: Seq<Binders<GenericPredicate>>) -> Seq<Binders<PredV>> {
    Seq::new(s.len(), |i: int| s[i]@)
}

/// The models of the elements of a list of types under binders.
pub open spec fn bound_tys_view(s: Seq<Binders<Ty>>) -> Seq<Binders<TyV>> {
    Seq::new(s.len(), |i: int| s[i]@)
}

/// The models of the elements of a list of trait references.
pub open spec fn trait_refs_view(s: Seq<TraitRef>) -> Seq<TraitRefV> {
    Seq::new(s.len(), |i: int| s[i]@)
}

/// A rewriting of the bound variables of a term.
pub enum VarOp {
    /// Move the term in through this many further binders.
    Shift(nat),
    /// Replace the variables of the outermost binder by these types, and
    /// remove that binder.
    Subst(Seq<TyV>),
    /// Replace the variables of the outermost binder whose index is not below
    /// the limit by `Unknown`.
    Truncate(nat),
}

pub open spec fn var_op_rank(op: VarOp) -> nat {
    match op {
        VarOp::Subst(_) => 1,
        _ => 0,
    }
}

/// The term `t` with `op` applied to its bound variables, where `t` stands
/// under `cutoff` binders of its own: variables that name one of those are
/// left alone.
pub open spec fn map_ty(op: VarOp, t: TyV, cutoff: nat) -> TyV
    decreases var_op_rank(op), t,
{
    match t {
        TyV::Tuple(n, s) => TyV::Tuple(n, map_tys(op, s, cutoff)),
        TyV::Adt(id, s) => TyV::Adt(id, map_tys(op, s, cutoff)),
        TyV::RawPointer(m, inner) => TyV::RawPointer(m, Box::new(map_ty(op, *inner, cutoff))),
        TyV::Array(inner) => TyV::Array(Box::new(map_ty(op, *inner, cutoff))),
        TyV::Slice(inner) => TyV::Slice(Box::new(map_ty(op, *inner, cutoff))),
        TyV::Reference(m, inner) => TyV::Reference(m, Box::new(map_ty(op, *inner, cutoff))),
        TyV::FunctionPointer(n, sig, s) => TyV::FunctionPointer(n, sig, map_tys(op, s, cutoff)),
        TyV::FunctionDef(id, s) => TyV::FunctionDef(id, map_tys(op, s, cutoff)),
        TyV::Dyn(preds) => TyV::Dyn(map_preds(op, preds, cutoff + 1)),
        TyV::Projection(p) => TyV::Projection(
            ProjectionTyV {
                associated_ty_id: p.associated_ty_id,
                substitution: map_tys(op, p.substitution, cutoff),
            },
        ),
        TyV::Opaque(id, s) => TyV::Opaque(id, map_tys(op, s, cutoff)),
        TyV::BoundVar(b) => match op {
            VarOp::Shift(n) => if b.debruijn.depth >= cutoff {
                if b.debruijn.depth + n <= u32::MAX {
                    TyV::BoundVar(
                        BoundVar {
                            debruijn: DebruijnIndex { depth: (b.debruijn.depth + n) as u32 },
                            index: b.index,
                        },
                    )
                } else {
                    TyV::Unknown
                }
            } else {
                t
            },
            VarOp::Subst(s) => if b.debruijn.depth == cutoff {
                if b.index < s.len() {
                    map_ty(VarOp::Shift(cutoff), s[b.index as int], 0)
                } else {
                    TyV::Unknown
                }
            } else if b.debruijn.depth > cutoff {
                TyV::BoundVar(
                    BoundVar {
                        debruijn: DebruijnIndex { depth: (b.debruijn.depth - 1) as u32 },
                        index: b.index,
                    },
                )
            } else {
                t
            },
            VarOp::Truncate(limit) => if b.debruijn.depth == cutoff && b.index >= limit {
                TyV::Unknown
            } else {
                t
            },
        },
        TyV::Never | TyV::Builtin(_) | TyV::Placeholder(_) | TyV::ForeignType(_) | TyV::Unknown => t,
    }
}

pub open spec fn map_tys(op: VarOp, s: Seq<TyV>, cutoff: nat) -> Seq<TyV>
    decreases var_op_rank(op), s,
{
    Seq::new(s.len(), |i: int| if 0 <= i < s.len() { map_ty(op, s[i], cutoff) } else { TyV::Unknown })
}

pub open spec fn map_pred(op: VarOp, p: PredV, cutoff: nat) -> PredV
    decreases var_op_rank(op), p,
{
    match p {
        PredV::Implemented(t) => PredV::Implemented(
            TraitRefV { trait_: t.trait_, substs: map_tys(op, t.substs, cutoff) },
        ),
        PredV::Projection(p, ty) => PredV::Projection(
            ProjectionTyV {
                associated_ty_id: p.associated_ty_id,
                substitution: map_tys(op, p.substitution, cutoff),
            },
            map_ty(op, ty, cutoff),
        ),
        PredV::Error => PredV::Error,
    }
}

pub open spec fn map_preds(op: VarOp, s: Seq<PredV>, cutoff: nat) -> Seq<PredV>
    decreases var_op_rank(op), s,
{
    Seq::new(s.len(), |i: int| if 0 <= i < s.len() { map_pred(op, s[i], cutoff) } else { PredV::Error })
}

/// `t` moved in through `n` further binders. A variable that would then name
/// a binder deeper than an index can count becomes `Unknown`.
pub open spec fn shift_ty(t: TyV, n: nat) -> TyV {
    map_ty(VarOp::Shift(n), t, 0)
}

/// `t` with each variable of its outermost binder replaced by the entry of
/// `substs` at the variable's index, or by `Unknown` where `substs` has no
/// such entry.
pub open spec fn subst_ty(t: TyV, substs: Seq<TyV>) -> TyV {
    map_ty(VarOp::Subst(substs), t, 0)
}

pub open spec fn map_trait_ref(op: VarOp, t: TraitRefV, cutoff: nat) -> TraitRefV {
    TraitRefV { trait_: t.trait_, substs: map_tys(op, t.substs, cutoff) }
}

// ---------------------------------------------------------------------------
// Binder consistency
// ---------------------------------------------------------------------------

/// Whether every bound variable of `t` is bound: `t` stands under `inner`
/// binders of its own, about whose variables nothing is asked, and around
/// those under the binders `scopes`, of which `scopes[d]` says how many
/// variables the binder at distance `d` has. A variable is bound where it
/// names one of the inner binders, or one of `scopes` and one of that
/// binder's variables.
pub open spec fn closed_ty(t: TyV, inner: nat, scopes: Seq<nat>) -> bool
    decreases t,
{
    match t {
        TyV::Tuple(_, s) => closed_tys(s, inner, scopes),
        TyV::Adt(_, s) => closed_tys(s, inner, scopes),
        TyV::RawPointer(_, x) => closed_ty(*x, inner, scopes),
        TyV::Array(x) => closed_ty(*x, inner, scopes),
        TyV::Slice(x) => closed_ty(*x, inner, scopes),
        TyV::Reference(_, x) => closed_ty(*x, inner, scopes),
        TyV::FunctionPointer(_, _, s) => closed_tys(s, inner, scopes),
        TyV::FunctionDef(_, s) => closed_tys(s, inner, scopes),
        TyV::Dyn(preds) => closed_preds(preds, inner + 1, scopes),
        TyV::Projection(p) => closed_tys(p.substitution, inner, scopes),
        TyV::Opaque(_, s) => closed_tys(s, inner, scopes),
        TyV::BoundVar(b) => closed_var(b, inner, scopes),
        TyV::Never | TyV::Builtin(_) | TyV::Placeholder(_) | TyV::ForeignType(_) | TyV::Unknown => true,
    }
}

pub open spec fn closed_var(b: BoundVar, inner: nat, scopes: Seq<nat>) -> bool {
    b.debruijn.depth < inner || (b.debruijn.depth - inner < scopes.len() && b.index < scopes[b.debruijn.depth
        - inner])
}

pub open spec fn closed_tys(s: Seq<TyV>, inner: nat, scopes: Seq<nat>) -> bool
    decreases s,
{
    forall|i: int| 0 <= i < s.len() ==> closed_ty(#[trigger] s[i], inner, scopes)
}

pub open spec fn closed_pred(p: PredV, inner: nat, scopes: Seq<nat>) -> bool
    decreases p,
{
    match p {
        PredV::Implemented(t) => closed_tys(t.substs, inner, scopes),
        PredV::Projection(p, ty) => closed_tys(p.substitution, inner, scopes) && closed_ty(ty, inner, scopes),
        PredV::Error => true,
    }
}

pub open spec fn closed_preds(s: Seq<PredV>, inner: nat, scopes: Seq<nat>) -> bool
    decreases s,
{
    forall|i: int| 0 <= i < s.len() ==> closed_pred(#[trigger] s[i], inner, scopes)
}

pub open spec fn closed_trait_ref(t: TraitRefV, inner: nat, scopes: Seq<nat>) -> bool {
    closed_tys(t.substs, inner, scopes)
}

pub open spec fn closed_trait_refs(s: Seq<TraitRefV>, inner: nat, scopes: Seq<nat>) -> bool {
    forall|i: int| 0 <= i < s.len() ==> closed_trait_ref(#[trigger] s[i], inner, scopes)
}

/// Whether a type under binders mentions, of the variables of its binder,
/// only those that the binder has: every bound variable in it that names the
/// binder has an index below `num_binders`, and none names a binder further
/// out.
pub open spec fn binder_consistent_ty(b: Binders<TyV>) -> bool {
    closed_ty(b.value, 0, seq![b.num_binders as nat])
}

/// Whether a predicate under binders mentions, of the variables of its
/// binder, only those that the binder has.
pub open spec fn binder_consistent_pred(b: Binders<PredV>) -> bool {
    closed_pred(b.value, 0, seq![b.num_binders as nat])
}

// ---------------------------------------------------------------------------
// Copies
// ---------------------------------------------------------------------------

impl Ty {
    /// A copy of this term.
    pub fn duplicate(&self) -> (r: Ty)
        ensures
            r@ == self@,
        decreases *self,
    {
        match self {
            Ty::Never => Ty::Never,
            Ty::Builtin(b) => Ty::Builtin(*b),
            Ty::Tuple(n, s) => Ty::Tuple(*n, Substs(copy_tys(&s.0))),
            Ty::Adt(id, s) => Ty::Adt(*id, Substs(copy_tys(&s.0))),
            Ty::RawPointer(m, inner) => Ty::RawPointer(*m, Box::new(inner.duplicate())),
            Ty::Array(inner) => Ty::Array(Box::new(inner.duplicate())),
            Ty::Slice(inner) => Ty::Slice(Box::new(inner.duplicate())),
            Ty::Reference(m, inner) => Ty::Reference(*m, Box::new(inner.duplicate())),
            Ty::FunctionPointer(f) => Ty::FunctionPointer(
                FnPointer { num_args: f.num_args, sig: f.sig, substs: Substs(copy_tys(&f.substs.0)) },
            ),
            Ty::FunctionDef(id, s) => Ty::FunctionDef(*id, Substs(copy_tys(&s.0))),
            Ty::Dyn(preds) => Ty::Dyn(copy_preds(preds)),
            Ty::Alias(AliasTy::Projection(p)) => Ty::Alias(
                AliasTy::Projection(
                    ProjectionTy {
                        associated_ty_id: p.associated_ty_id,
                        substitution: Substs(copy_tys(&p.substitution.0)),
                    },
                ),
            ),
            Ty::Alias(AliasTy::Opaque(o)) => Ty::Alias(
                AliasTy::Opaque(
                    OpaqueTy { opaque_ty_id: o.opaque_ty_id, substitution: Substs(copy_tys(&o.substitution.0)) },
                ),
            ),
            Ty::BoundVar(b) => Ty::BoundVar(*b),
            Ty::Placeholder(p) => Ty::Placeholder(*p),
            Ty::ForeignType(t) => Ty::ForeignType(*t),
            Ty::Unknown => Ty::Unknown,
        }
    }
}

/// A copy of a list of terms.
pub fn copy_tys(v: &Vec<Ty>) -> (r: Vec<Ty>)
    ensures
        tys_view(r@) == tys_view(v@),
        r.len() == v.len(),
    decreases *v,
{
    let mut r: Vec<Ty> = Vec::new();
    let mut i: usize = 0;
    while i < v.len()
        invariant
            i <= v.len(),
            r.len() == i,
            forall|j: int| 0 <= j < i ==> ty_view(#[trigger] r@[j]) == ty_view(v@[j]),
        decreases v.len() - i,
    {
        r.push(v[i].duplicate());
        i += 1;
    }
    assert(tys_view(r@) =~= tys_view(v@));
    r
}

impl GenericPredicate {
    /// A copy of this predicate.
    pub fn duplicate(&self) -> (r: GenericPredicate)
        ensures
            r@ == self@,
        decreases *self,
    {
        match self {
            GenericPredicate::Implemented(t) => GenericPredicate::Implemented(
                TraitRef { trait_: t.trait_, substs: Substs(copy_tys(&t.substs.0)) },
            ),
            GenericPredicate::Projection(p) => GenericPredicate::Projection(
                ProjectionPredicate {
                    projection_ty: ProjectionTy {
                        associated_ty_id: p.projection_ty.associated_ty_id,
                        substitution: Substs(copy_tys(&p.projection_ty.substitution.0)),
                    },
                    ty: p.ty.duplicate(),
                },
            ),
            GenericPredicate::Error => GenericPredicate::Error,
        }
    }

    pub fn is_error(&self) -> (r: bool)
        ensures
            r == (self@ is Error),
    {
        match self {
            GenericPredicate::Error => true,
            _ => false,
        }
    }
}

/// A copy of a list of predicates.
pub fn copy_preds(v: &Vec<GenericPredicate>) -> (r: Vec<GenericPredicate>)
    ensures
        preds_view(r@) == preds_view(v@),
        r.len() == v.len(),
    decreases *v,
{
    let mut r: Vec<GenericPredicate> = Vec::new();
    let mut i: usize = 0;
    while i < v.len()
        invariant
            i <= v.len(),
            r.len() == i,
            forall|j: int| 0 <= j < i ==> pred_view(#[trigger] r@[j]) == pred_view(v@[j]),
        decreases v.len() - i,
    {
        r.push(v[i].duplicate());
        i += 1;
    }
    assert(preds_view(r@) =~= preds_view(v@));
    r
}

impl Substs {
    pub fn duplicate(&self) -> (r: Substs)
        ensures
            r@ == self@,
    {
        Substs(copy_tys(&self.0))
    }

    pub fn len(&self) -> (n: usize)
        ensures
            n == self@.len(),
    {
        self.0.len()
    }
}

impl TraitRef {
    pub fn duplicate(&self) -> (r: TraitRef)
        ensures
            r@ == self@,
    {
        TraitRef { trait_: self.trait_, substs: self.substs.duplicate() }
    }
}

impl ProjectionTy {
    pub fn duplicate(&self) -> (r: ProjectionTy)
        ensures
            r@ == self@,
    {
        ProjectionTy { associated_ty_id: self.associated_ty_id, substitution: self.substitution.duplicate() }
    }
}

// ---------------------------------------------------------------------------
// Rewriting bound variables
// ---------------------------------------------------------------------------

/// Past the deepest binder that an index can name, no rewriting changes a
/// term.
pub proof fn lemma_map_ty_beyond(op: VarOp, t: TyV, cutoff: nat)
    requires
        cutoff > u32::MAX,
    ensures
        map_ty(op, t, cutoff) == t,
    decreases t,
{
    match t {
        TyV::Tuple(_, s) => lemma_map_tys_beyond(op, s, cutoff),
        TyV::Adt(_, s) => lemma_map_tys_beyond(op, s, cutoff),
        TyV::RawPointer(_, inner) => lemma_map_ty_beyond(op, *inner, cutoff),
        TyV::Array(inner) => lemma_map_ty_beyond(op, *inner, cutoff),
        TyV::Slice(inner) => lemma_map_ty_beyond(op, *inner, cutoff),
        TyV::Reference(_, inner) => lemma_map_ty_beyond(op, *inner, cutoff),
        TyV::FunctionPointer(_, _, s) => lemma_map_tys_beyond(op, s, cutoff),
        TyV::FunctionDef(_, s) => lemma_map_tys_beyond(op, s, cutoff),
        TyV::Dyn(preds) => lemma_map_preds_beyond(op, preds, cutoff + 1),
        TyV::Projection(p) => lemma_map_tys_beyond(op, p.substitution, cutoff),
        TyV::Opaque(_, s) => lemma_map_tys_beyond(op, s, cutoff),
        _ => {},
    }
}

pub proof fn lemma_map_tys_beyond(op: VarOp, s: Seq<TyV>, cutoff: nat)
    requires
        cutoff > u32::MAX,
    ensures
        map_tys(op, s, cutoff) == s,
    decreases s,
{
    assert forall|i: int| 0 <= i < s.len() implies map_ty(op, s[i], cutoff) == s[i] by {
        lemma_map_ty_beyond(op, s[i], cutoff);
    }
    assert(map_tys(op, s, cutoff) =~= s);
}

pub proof fn lemma_map_preds_beyond(op: VarOp, s: Seq<PredV>, cutoff: nat)
    requires
        cutoff > u32::MAX,
    ensures
        map_preds(op, s, cutoff) == s,
    decreases s,
{
    assert forall|i: int| 0 <= i < s.len() implies map_pred(op, s[i], cutoff) == s[i] by {
        match s[i] {
            PredV::Implemented(t) => lemma_map_tys_beyond(op, t.substs, cutoff),
            PredV::Projection(p, ty) => {
                lemma_map_tys_beyond(op, p.substitution, cutoff);
                lemma_map_ty_beyond(op, ty, cutoff);
            },
            PredV::Error => {},
        }
    }
    assert(map_preds(op, s, cutoff) =~= s);
}

/// A rewriting, as executable code holds it.
pub enum BoundVarOp<'a> {
    Shift(u32),
    Subst(&'a Vec<Ty>),
    Truncate(usize),
}

impl<'a> View for BoundVarOp<'a> {
    type V = VarOp;

    open spec fn view(&self) -> VarOp {
        match self {
            BoundVarOp::Shift(n) => VarOp::Shift(*n as nat),
            BoundVarOp::Subst(s) => VarOp::Subst(tys_view(s@)),
            BoundVarOp::Truncate(limit) => VarOp::Truncate(*limit as nat),
        }
    }
}

/// Applies `op` to the bound variables of `t`, which stands under `cutoff`
/// binders of its own.
pub fn map_bound_vars(op: &BoundVarOp, t: &Ty, cutoff: u32) -> (r: Ty)
    ensures
        r@ == map_ty(op@, t@, cutoff as nat),
    decreases var_op_rank(op@), *t,
{
    match t {
        Ty::Never => Ty::Never,
        Ty::Builtin(b) => Ty::Builtin(*b),
        Ty::Tuple(n, s) => Ty::Tuple(*n, Substs(map_bound_vars_in_tys(op, &s.0, cutoff))),
        Ty::Adt(id, s) => Ty::Adt(*id, Substs(map_bound_vars_in_tys(op, &s.0, cutoff))),
        Ty::RawPointer(m, inner) => Ty::RawPointer(*m, Box::new(map_bound_vars(op, inner, cutoff))),
        Ty::Array(inner) => Ty::Array(Box::new(map_bound_vars(op, inner, cutoff))),
        Ty::Slice(inner) => Ty::Slice(Box::new(map_bound_vars(op, inner, cutoff))),
        Ty::Reference(m, inner) => Ty::Reference(*m, Box::new(map_bound_vars(op, inner, cutoff))),
        Ty::FunctionPointer(f) => Ty::FunctionPointer(
            FnPointer {
                num_args: f.num_args,
                sig: f.sig,
                substs: Substs(map_bound_vars_in_tys(op, &f.substs.0, cutoff)),
            },
        ),
        Ty::FunctionDef(id, s) => Ty::FunctionDef(*id, Substs(map_bound_vars_in_tys(op, &s.0, cutoff))),
        Ty::Dyn(preds) => {
            if cutoff == u32::MAX {
                proof {
                    lemma_map_preds_beyond(op@, preds_view(preds@), cutoff as nat + 1);
                }
                Ty::Dyn(copy_preds(preds))
            } else {
                Ty::Dyn(map_bound_vars_in_preds(op, preds, cutoff + 1))
            }
        },
        Ty::Alias(AliasTy::Projection(p)) => Ty::Alias(
            AliasTy::Projection(
                ProjectionTy {
                    associated_ty_id: p.associated_ty_id,
                    substitution: Substs(map_bound_vars_in_tys(op, &p.substitution.0, cutoff)),
                },
            ),
        ),
        Ty::Alias(AliasTy::Opaque(o)) => Ty::Alias(
            AliasTy::Opaque(
                OpaqueTy {
                    opaque_ty_id: o.opaque_ty_id,
                    substitution: Substs(map_bound_vars_in_tys(op, &o.substitution.0, cutoff)),
                },
            ),
        ),
        Ty::BoundVar(b) => match op {
            BoundVarOp::Shift(n) => {
                if b.debruijn.depth >= cutoff {
                    match b.debruijn.shifted_in_from(DebruijnIndex::new(*n)) {
                        Some(d) => Ty::BoundVar(BoundVar::new(d, b.index)),
                        None => Ty::Unknown,
                    }
                } else {
                    Ty::BoundVar(*b)
                }
            },
            BoundVarOp::Subst(s) => {
                if b.debruijn.depth == cutoff {
                    if b.index < s.len() {
                        map_bound_vars(&BoundVarOp::Shift(cutoff), &s[b.index], 0)
                    } else {
                        Ty::Unknown
                    }
                } else if b.debruijn.depth > cutoff {
                    match b.debruijn.shifted_out_to(DebruijnIndex::one()) {
                        Some(d) => Ty::BoundVar(BoundVar::new(d, b.index)),
                        None => Ty::Unknown,
                    }
                } else {
                    Ty::BoundVar(*b)
                }
            },
            BoundVarOp::Truncate(limit) => {
                if b.debruijn.depth == cutoff && b.index >= *limit {
                    Ty::Unknown
                } else {
                    Ty::BoundVar(*b)
                }
            },
        },
        Ty::Placeholder(p) => Ty::Placeholder(*p),
        Ty::ForeignType(t) => Ty::ForeignType(*t),
        Ty::Unknown => Ty::Unknown,
    }
}

pub fn map_bound_vars_in_tys(op: &BoundVarOp, v: &Vec<Ty>, cutoff: u32) -> (r: Vec<Ty>)
    ensures
        tys_view(r@) == map_tys(op@, tys_view(v@), cutoff as nat),
        r.len() == v.len(),
    decreases var_op_rank(op@), *v,
{
    let mut r: Vec<Ty> = Vec::new();
    let mut i: usize = 0;
    while i < v.len()
        invariant
            i <= v.len(),
            r.len() == i,
            forall|j: int| 0 <= j < i ==> ty_view(#[trigger] r@[j]) == map_ty(op@, ty_view(v@[j]), cutoff as nat),
        decreases v.len() - i,
    {
        r.push(map_bound_vars(op, &v[i], cutoff));
        i += 1;
    }
    assert(tys_view(r@) =~= map_tys(op@, tys_view(v@), cutoff as nat));
    r
}

pub fn map_bound_vars_in_pred(op: &BoundVarOp, p: &GenericPredicate, cutoff: u32) -> (r: GenericPredicate)
    ensures
        r@ == map_pred(op@, p@, cutoff as nat),
    decreases var_op_rank(op@), *p,
{
    match p {
        GenericPredicate::Implemented(t) => GenericPredicate::Implemented(
            TraitRef { trait_: t.trait_, substs: Substs(map_bound_vars_in_tys(op, &t.substs.0, cutoff)) },
        ),
        GenericPredicate::Projection(p) => GenericPredicate::Projection(
            ProjectionPredicate {
                projection_ty: ProjectionTy {
                    associated_ty_id: p.projection_ty.associated_ty_id,
                    substitution: Substs(map_bound_vars_in_tys(op, &p.projection_ty.substitution.0, cutoff)),
                },
                ty: map_bound_vars(op, &p.ty, cutoff),
            },
        ),
        GenericPredicate::Error => GenericPredicate::Error,
    }
}

pub fn map_bound_vars_in_preds(op: &BoundVarOp, v: &Vec<GenericPredicate>, cutoff: u32) -> (r: Vec<
    GenericPredicate,
>)
    ensures
        preds_view(r@) == map_preds(op@, preds_view(v@), cutoff as nat),
        r.len() == v.len(),
    decreases var_op_rank(op@), *v,
{
    let mut r: Vec<GenericPredicate> = Vec::new();
    let mut i: usize = 0;
    while i < v.len()
        invariant
            i <= v.len(),
            r.len() == i,
            forall|j: int|
                0 <= j < i ==> pred_view(#[trigger] r@[j]) == map_pred(op@, pred_view(v@[j]), cutoff as nat),
        decreases v.len() - i,
    {
        r.push(map_bound_vars_in_pred(op, &v[i], cutoff));
        i += 1;
    }
    assert(preds_view(r@) =~= map_preds(op@, preds_view(v@), cutoff as nat));
    r
}

impl Ty {
    /// This term moved in through `n` further binders.
    pub fn shift_bound_vars(&self, n: DebruijnIndex) -> (r: Ty)
        ensures
            r@ == shift_ty(self@, n.depth as nat),
    {
        map_bound_vars(&BoundVarOp::Shift(n.depth), self, 0)
    }

    /// This term with the variables of its outermost binder replaced by the
    /// entries of `substs`.
    pub fn subst_bound_vars(&self, substs: &Substs) -> (r: Ty)
        ensures
            r@ == subst_ty(self@, substs@),
    {
        map_bound_vars(&BoundVarOp::Subst(&substs.0), self, 0)
    }
}

impl Substs {
    pub fn shift_bound_vars(&self, n: DebruijnIndex) -> (r: Substs)
        ensures
            r@ == map_tys(VarOp::Shift(n.depth as nat), self@, 0),
    {
        Substs(map_bound_vars_in_tys(&BoundVarOp::Shift(n.depth), &self.0, 0))
    }

    pub fn subst_bound_vars(&self, substs: &Substs) -> (r: Substs)
        ensures
            r@ == map_tys(VarOp::Subst(substs@), self@, 0),
    {
        Substs(map_bound_vars_in_tys(&BoundVarOp::Subst(&substs.0), &self.0, 0))
    }
}

impl TraitRef {
    pub fn subst_bound_vars(&self, substs: &Substs) -> (r: TraitRef)
        ensures
            r@ == map_trait_ref(VarOp::Subst(substs@), self@, 0),
    {
        TraitRef { trait_: self.trait_, substs: self.substs.subst_bound_vars(substs) }
    }
}

impl Binders<Ty> {
    /// The value with the variables of this binder replaced by the entries of
    /// `substs`.
    pub fn subst(&self, substs: &Substs) -> (r: Ty)
        ensures
            r@ == subst_ty(self.value@, substs@),
    {
        self.value.subst_bound_vars(substs)
    }
}

// ---------------------------------------------------------------------------
// Rewriting keeps variables bound
// ---------------------------------------------------------------------------

/// `a` offers no binder and no variable that `b` does not offer too.
pub open spec fn scopes_within(a: Seq<nat>, b: Seq<nat>) -> bool {
    a.len() <= b.len() && forall|i: int| 0 <= i < a.len() ==> a[i] <= b[i]
}

/// What is bound stays bound where more binders or more variables are
/// around.
pub proof fn lemma_closed_weaken(t: TyV, inner: nat, a: Seq<nat>, b: Seq<nat>)
    requires
        closed_ty(t, inner, a),
        scopes_within(a, b),
    ensures
        closed_ty(t, inner, b),
    decreases t,
{
    match t {
        TyV::Tuple(_, s) => lemma_closed_weaken_tys(s, inner, a, b),
        TyV::Adt(_, s) => lemma_closed_weaken_tys(s, inner, a, b),
        TyV::RawPointer(_, x) => lemma_closed_weaken(*x, inner, a, b),
        TyV::Array(x) => lemma_closed_weaken(*x, inner, a, b),
        TyV::Slice(x) => lemma_closed_weaken(*x, inner, a, b),
        TyV::Reference(_, x) => lemma_closed_weaken(*x, inner, a, b),
        TyV::FunctionPointer(_, _, s) => lemma_closed_weaken_tys(s, inner, a, b),
        TyV::FunctionDef(_, s) => lemma_closed_weaken_tys(s, inner, a, b),
        TyV::Dyn(preds) => lemma_closed_weaken_preds(preds, inner + 1, a, b),
        TyV::Projection(p) => lemma_closed_weaken_tys(p.substitution, inner, a, b),
        TyV::Opaque(_, s) => lemma_closed_weaken_tys(s, inner, a, b),
        _ => {},
    }
}

pub proof fn lemma_closed_weaken_tys(s: Seq<TyV>, inner: nat, a: Seq<nat>, b: Seq<nat>)
    requires
        closed_tys(s, inner, a),
        scopes_within(a, b),
    ensures
        closed_tys(s, inner, b),
    decreases s,
{
    assert forall|i: int| 0 <= i < s.len() implies closed_ty(#[trigger] s[i], inner, b) by {
        lemma_closed_weaken(s[i], inner, a, b);
    }
}

pub proof fn lemma_closed_weaken_pred(p: PredV, inner: nat, a: Seq<nat>, b: Seq<nat>)
    requires
        closed_pred(p, inner, a),
        scopes_within(a, b),
    ensures
        closed_pred(p, inner, b),
    decreases p,
{
    match p {
        PredV::Implemented(t) => lemma_closed_weaken_tys(t.substs, inner, a, b),
        PredV::Projection(p, ty) => {
            lemma_closed_weaken_tys(p.substitution, inner, a, b);
            lemma_closed_weaken(ty, inner, a, b);
        },
        PredV::Error => {},
    }
}

pub proof fn lemma_closed_weaken_preds(s: Seq<PredV>, inner: nat, a: Seq<nat>, b: Seq<nat>)
    requires
        closed_preds(s, inner, a),
        scopes_within(a, b),
    ensures
        closed_preds(s, inner, b),
    decreases s,
{
    assert forall|i: int| 0 <= i < s.len() implies closed_pred(#[trigger] s[i], inner, b) by {
        lemma_closed_weaken_pred(s[i], inner, a, b);
    }
}

/// Under one binder, what names that binder or nothing further out than it
/// is bound however many inner binders are counted.
pub proof fn lemma_closed_deeper(t: TyV, inner: nat, deeper: nat, scopes: Seq<nat>)
    requires
        closed_ty(t, inner, scopes),
        scopes.len() <= 1,
        inner <= deeper,
    ensures
        closed_ty(t, deeper, scopes),
    decreases t,
{
    match t {
        TyV::Tuple(_, s) => lemma_closed_deeper_tys(s, inner, deeper, scopes),
        TyV::Adt(_, s) => lemma_closed_deeper_tys(s, inner, deeper, scopes),
        TyV::RawPointer(_, x) => lemma_closed_deeper(*x, inner, deeper, scopes),
        TyV::Array(x) => lemma_closed_deeper(*x, inner, deeper, scopes),
        TyV::Slice(x) => lemma_closed_deeper(*x, inner, deeper, scopes),
        TyV::Reference(_, x) => lemma_closed_deeper(*x, inner, deeper, scopes),
        TyV::FunctionPointer(_, _, s) => lemma_closed_deeper_tys(s, inner, deeper, scopes),
        TyV::FunctionDef(_, s) => lemma_closed_deeper_tys(s, inner, deeper, scopes),
        TyV::Dyn(preds) => lemma_closed_deeper_preds(preds, inner + 1, deeper + 1, scopes),
        TyV::Projection(p) => lemma_closed_deeper_tys(p.substitution, inner, deeper, scopes),
        TyV::Opaque(_, s) => lemma_closed_deeper_tys(s, inner, deeper, scopes),
        _ => {},
    }
}

pub proof fn lemma_closed_deeper_tys(s: Seq<TyV>, inner: nat, deeper: nat, scopes: Seq<nat>)
    requires
        closed_tys(s, inner, scopes),
        scopes.len() <= 1,
        inner <= deeper,
    ensures
        closed_tys(s, deeper, scopes),
    decreases s,
{
    assert forall|i: int| 0 <= i < s.len() implies closed_ty(#[trigger] s[i], deeper, scopes) by {
        lemma_closed_deeper(s[i], inner, deeper, scopes);
    }
}

pub proof fn lemma_closed_deeper_preds(s: Seq<PredV>, inner: nat, deeper: nat, scopes: Seq<nat>)
    requires
        closed_preds(s, inner, scopes),
        scopes.len() <= 1,
        inner <= deeper,
    ensures
        closed_preds(s, deeper, scopes),
    decreases s,
{
    assert forall|i: int| 0 <= i < s.len() implies closed_pred(#[trigger] s[i], deeper, scopes) by {
        match s[i] {
            PredV::Implemented(t) => lemma_closed_deeper_tys(t.substs, inner, deeper, scopes),
            PredV::Projection(p, ty) => {
                lemma_closed_deeper_tys(p.substitution, inner, deeper, scopes);
                lemma_closed_deeper(ty, inner, deeper, scopes);
            },
            PredV::Error => {},
        }
    }
}

/// Moving a term in through `n` binders keeps its variables bound, with `n`
/// more inner binders.
pub proof fn lemma_shift_closed(t: TyV, n: nat, cutoff: nat, inner: nat, scopes: Seq<nat>)
    requires
        closed_ty(t, inner, scopes),
        cutoff <= inner,
    ensures
        closed_ty(map_ty(VarOp::Shift(n), t, cutoff), inner + n, scopes),
    decreases t,
{
    match t {
        TyV::Tuple(_, s) => lemma_shift_closed_tys(s, n, cutoff, inner, scopes),
        TyV::Adt(_, s) => lemma_shift_closed_tys(s, n, cutoff, inner, scopes),
        TyV::RawPointer(_, x) => lemma_shift_closed(*x, n, cutoff, inner, scopes),
        TyV::Array(x) => lemma_shift_closed(*x, n, cutoff, inner, scopes),
        TyV::Slice(x) => lemma_shift_closed(*x, n, cutoff, inner, scopes),
        TyV::Reference(_, x) => lemma_shift_closed(*x, n, cutoff, inner, scopes),
        TyV::FunctionPointer(_, _, s) => lemma_shift_closed_tys(s, n, cutoff, inner, scopes),
        TyV::FunctionDef(_, s) => lemma_shift_closed_tys(s, n, cutoff, inner, scopes),
        TyV::Dyn(preds) => lemma_shift_closed_preds(preds, n, cutoff + 1, inner + 1, scopes),
        TyV::Projection(p) => lemma_shift_closed_tys(p.substitution, n, cutoff, inner, scopes),
        TyV::Opaque(_, s) => lemma_shift_closed_tys(s, n, cutoff, inner, scopes),
        _ => {},
    }
}

pub proof fn lemma_shift_closed_tys(s: Seq<TyV>, n: nat, cutoff: nat, inner: nat, scopes: Seq<nat>)
    requires
        closed_tys(s, inner, scopes),
        cutoff <= inner,
    ensures
        closed_tys(map_tys(VarOp::Shift(n), s, cutoff), inner + n, scopes),
    decreases s,
{
    let r = map_tys(VarOp::Shift(n), s, cutoff);
    assert forall|i: int| 0 <= i < r.len() implies closed_ty(#[trigger] r[i], inner + n, scopes) by {
        lemma_shift_closed(s[i], n, cutoff, inner, scopes);
    }
}

pub proof fn lemma_shift_closed_preds(s: Seq<PredV>, n: nat, cutoff: nat, inner: nat, scopes: Seq<nat>)
    requires
        closed_preds(s, inner, scopes),
        cutoff <= inner,
    ensures
        closed_preds(map_preds(VarOp::Shift(n), s, cutoff), inner + n, scopes),
    decreases s,
{
    let r = map_preds(VarOp::Shift(n), s, cutoff);
    assert forall|i: int| 0 <= i < r.len() implies closed_pred(#[trigger] r[i], inner + n, scopes) by {
        match s[i] {
            PredV::Implemented(t) => lemma_shift_closed_tys(t.substs, n, cutoff, inner, scopes),
            PredV::Projection(p, ty) => {
                lemma_shift_closed_tys(p.substitution, n, cutoff, inner, scopes);
                lemma_shift_closed(ty, n, cutoff, inner, scopes);
            },
            PredV::Error => {},
        }
    }
}

/// Substituting bound terms for the variables of the one binder that a term
/// stands under gives a bound term: where `t`, under `cutoff` binders of its
/// own, names nothing further out than its binder, and the entries of
/// `substs` are bound under `inner` inner binders and `scopes`, the result is
/// bound under `cutoff + inner` inner binders and `scopes`.
pub proof fn lemma_subst_closed(
    t: TyV,
    substs: Seq<TyV>,
    cutoff: nat,
    m: nat,
    inner: nat,
    scopes: Seq<nat>,
)
    requires
        closed_ty(t, cutoff, seq![m]),
        closed_tys(substs, inner, scopes),
    ensures
        closed_ty(map_ty(VarOp::Subst(substs), t, cutoff), cutoff + inner, scopes),
    decreases t,
{
    match t {
        TyV::Tuple(_, s) => lemma_subst_closed_tys(s, substs, cutoff, m, inner, scopes),
        TyV::Adt(_, s) => lemma_subst_closed_tys(s, substs, cutoff, m, inner, scopes),
        TyV::RawPointer(_, x) => lemma_subst_closed(*x, substs, cutoff, m, inner, scopes),
        TyV::Array(x) => lemma_subst_closed(*x, substs, cutoff, m, inner, scopes),
        TyV::Slice(x) => lemma_subst_closed(*x, substs, cutoff, m, inner, scopes),
        TyV::Reference(_, x) => lemma_subst_closed(*x, substs, cutoff, m, inner, scopes),
        TyV::FunctionPointer(_, _, s) => lemma_subst_closed_tys(s, substs, cutoff, m, inner, scopes),
        TyV::FunctionDef(_, s) => lemma_subst_closed_tys(s, substs, cutoff, m, inner, scopes),
        TyV::Dyn(preds) => {
            lemma_subst_closed_preds(preds, substs, cutoff + 1, m, inner, scopes);
        },
        TyV::Projection(p) => lemma_subst_closed_tys(p.substitution, substs, cutoff, m, inner, scopes),
        TyV::Opaque(_, s) => lemma_subst_closed_tys(s, substs, cutoff, m, inner, scopes),
        TyV::BoundVar(b) => {
            if b.debruijn.depth == cutoff && b.index < substs.len() {
                lemma_shift_closed(substs[b.index as int], cutoff, 0, inner, scopes);
            }
        },
        _ => {},
    }
}

pub proof fn lemma_subst_closed_tys(
    s: Seq<TyV>,
    substs: Seq<TyV>,
    cutoff: nat,
    m: nat,
    inner: nat,
    scopes: Seq<nat>,
)
    requires
        closed_tys(s, cutoff, seq![m]),
        closed_tys(substs, inner, scopes),
    ensures
        closed_tys(map_tys(VarOp::Subst(substs), s, cutoff), cutoff + inner, scopes),
    decreases s,
{
    let r = map_tys(VarOp::Subst(substs), s, cutoff);
    assert forall|i: int| 0 <= i < r.len() implies closed_ty(#[trigger] r[i], cutoff + inner, scopes) by {
        lemma_subst_closed(s[i], substs, cutoff, m, inner, scopes);
    }
}

pub proof fn lemma_subst_closed_preds(
    s: Seq<PredV>,
    substs: Seq<TyV>,
    cutoff: nat,
    m: nat,
    inner: nat,
    scopes: Seq<nat>,
)
    requires
        closed_preds(s, cutoff, seq![m]),
        closed_tys(substs, inner, scopes),
    ensures
        closed_preds(map_preds(VarOp::Subst(substs), s, cutoff), cutoff + inner, scopes),
    decreases s,
{
    let r = map_preds(VarOp::Subst(substs), s, cutoff);
    assert forall|i: int| 0 <= i < r.len() implies closed_pred(#[trigger] r[i], cutoff + inner, scopes) by {
        match s[i] {
            PredV::Implemented(t) => lemma_subst_closed_tys(t.substs, substs, cutoff, m, inner, scopes),
            PredV::Projection(p, ty) => {
                lemma_subst_closed_tys(p.substitution, substs, cutoff, m, inner, scopes);
                lemma_subst_closed(ty, substs, cutoff, m, inner, scopes);
            },
            PredV::Error => {},
        }
    }
}

/// After the variables of the binder with an index of `limit` or more are
/// replaced by `Unknown`, a term that names nothing further out than its
/// binder is bound under a binder of `limit` variables.
pub proof fn lemma_truncate_closed(t: TyV, limit: nat, cutoff: nat, m: nat)
    requires
        closed_ty(t, cutoff, seq![m]),
    ensures
        closed_ty(map_ty(VarOp::Truncate(limit), t, cutoff), cutoff, seq![limit]),
    decreases t,
{
    match t {
        TyV::Tuple(_, s) => lemma_truncate_closed_tys(s, limit, cutoff, m),
        TyV::Adt(_, s) => lemma_truncate_closed_tys(s, limit, cutoff, m),
        TyV::RawPointer(_, x) => lemma_truncate_closed(*x, limit, cutoff, m),
        TyV::Array(x) => lemma_truncate_closed(*x, limit, cutoff, m),
        TyV::Slice(x) => lemma_truncate_closed(*x, limit, cutoff, m),
        TyV::Reference(_, x) => lemma_truncate_closed(*x, limit, cutoff, m),
        TyV::FunctionPointer(_, _, s) => lemma_truncate_closed_tys(s, limit, cutoff, m),
        TyV::FunctionDef(_, s) => lemma_truncate_closed_tys(s, limit, cutoff, m),
        TyV::Dyn(preds) => lemma_truncate_closed_preds(preds, limit, cutoff + 1, m),
        TyV::Projection(p) => lemma_truncate_closed_tys(p.substitution, limit, cutoff, m),
        TyV::Opaque(_, s) => lemma_truncate_closed_tys(s, limit, cutoff, m),
        _ => {},
    }
}

pub proof fn lemma_truncate_closed_tys(s: Seq<TyV>, limit: nat, cutoff: nat, m: nat)
    requires
        closed_tys(s, cutoff, seq![m]),
    ensures
        closed_tys(map_tys(VarOp::Truncate(limit), s, cutoff), cutoff, seq![limit]),
    decreases s,
{
    let r = map_tys(VarOp::Truncate(limit), s, cutoff);
    assert forall|i: int| 0 <= i < r.len() implies closed_ty(#[trigger] r[i], cutoff, seq![limit]) by {
        lemma_truncate_closed(s[i], limit, cutoff, m);
    }
}

pub proof fn lemma_truncate_closed_preds(s: Seq<PredV>, limit: nat, cutoff: nat, m: nat)
    requires
        closed_preds(s, cutoff, seq![m]),
    ensures
        closed_preds(map_preds(VarOp::Truncate(limit), s, cutoff), cutoff, seq![limit]),
    decreases s,
{
    let r = map_preds(VarOp::Truncate(limit), s, cutoff);
    assert forall|i: int| 0 <= i < r.len() implies closed_pred(#[trigger] r[i], cutoff, seq![limit]) by {
        match s[i] {
            PredV::Implemented(t) => lemma_truncate_closed_tys(t.substs, limit, cutoff, m),
            PredV::Projection(p, ty) => {
                lemma_truncate_closed_tys(p.substitution, limit, cutoff, m);
                lemma_truncate_closed(ty, limit, cutoff, m);
            },
            PredV::Error => {},
        }
    }
}

} // verus!
