//! The generic parameters in scope of a definition: those of its parent
//! first, then its own, each in the order of declaration.
use vstd::prelude::*;
use crate::db::{Database, TypeParamProvenance};
use crate::ids::{GenericDefId, TypeParamId};
use crate::ty::{BoundVar, DebruijnIndex, Substs, Ty, TyV};

verus! {

/// One generic parameter in scope.
#[derive(Clone, Copy, Debug, PartialEq, Eq, Hash, Structural)]
pub struct GenericParam {
    pub id: TypeParamId,
    pub provenance: TypeParamProvenance,
}

/// The number of type parameters of one definition that identities can tell
/// apart.
pub open spec fn addressable(n: nat) -> nat {
    if n <= u32::MAX {
        n
    } else {
        (u32::MAX as nat) + 1
    }
}

/// The type parameters that `def` declares itself.
pub open spec fn own_params(db: Database, def: GenericDefId) -> Seq<GenericParam> {
    match db.spec_item(def) {
        Some(item) => Seq::new(
            addressable(item.generic_params.types@.len()),
            |i: int|
                GenericParam {
                    id: TypeParamId { parent: def, local_id: i as u32 },
                    provenance: item.generic_params.types@[i].provenance,
                },
        ),
        None => Seq::empty(),
    }
}

/// The type parameters that `def` inherits.
pub open spec fn parent_params(db: Database, def: GenericDefId) -> Seq<GenericParam> {
    match db.spec_parent_generic_def(def) {
        Some(p) => own_params(db, p),
        None => Seq::empty(),
    }
}

/// The type parameters in scope of `def`.
pub open spec fn generic_param_list(db: Database, def: GenericDefId) -> Seq<GenericParam> {
    parent_params(db, def) + own_params(db, def)
}

/// The number of type parameters in scope of `def`, or 0 where there is no
/// definition.
pub open spec fn generics_len(db: Database, def: Option<GenericDefId>) -> nat {
    match def {
        Some(d) => generic_param_list(db, d).len(),
        None => 0,
    }
}

/// How many of the parameters from position `from` on have the provenance
/// `prov`.
pub open spec fn provenance_count(s: Seq<GenericParam>, from: int, prov: TypeParamProvenance) -> nat
    decreases s.len() - from,
{
    if from < 0 || from >= s.len() {
        0
    } else {
        (if s[from].provenance == prov { 1nat } else { 0nat }) + provenance_count(s, from + 1, prov)
    }
}

/// The position of the first parameter with the identity `p`.
pub open spec fn param_index(s: Seq<GenericParam>, p: TypeParamId, from: int) -> Option<int>
    decreases s.len() - from,
{
    if from < 0 || from >= s.len() {
        None
    } else if s[from].id == p {
        Some(from)
    } else {
        param_index(s, p, from + 1)
    }
}

/// The identity of the parameter that is number `n`, from 0, among those from
/// position `from` on that were made for an `impl Trait` argument.
pub open spec fn nth_impl_trait_param(s: Seq<GenericParam>, from: int, n: nat) -> Option<TypeParamId>
    decreases s.len() - from,
{
    if from < 0 || from >= s.len() {
        None
    } else if s[from].provenance == TypeParamProvenance::ArgumentImplTrait {
        if n == 0 {
            Some(s[from].id)
        } else {
            nth_impl_trait_param(s, from + 1, (n - 1) as nat)
        }
    } else {
        nth_impl_trait_param(s, from + 1, n)
    }
}

pub proof fn lemma_param_index_bound(s: Seq<GenericParam>, p: TypeParamId, from: int)
    requires
        0 <= from,
    ensures
        match param_index(s, p, from) {
            Some(i) => from <= i < s.len() && s[i].id == p,
            None => true,
        },
    decreases s.len() - from,
{
    if from < s.len() && s[from].id != p {
        lemma_param_index_bound(s, p, from + 1);
    }
}

/// The provenances partition the parameters.
pub proof fn lemma_provenance_counts(s: Seq<GenericParam>, from: int)
    requires
        0 <= from <= s.len(),
    ensures
        provenance_count(s, from, TypeParamProvenance::TraitSelf) + provenance_count(
            s,
            from,
            TypeParamProvenance::TypeParamList,
        ) + provenance_count(s, from, TypeParamProvenance::ArgumentImplTrait) == s.len() - from,
    decreases s.len() - from,
{
    if from < s.len() {
        lemma_provenance_counts(s, from + 1);
    }
}

/// The generic parameters in scope of a definition.
#[derive(Debug)]
pub struct Generics {
    pub def: GenericDefId,
    pub params: Vec<GenericParam>,
    /// How many of `params`, from the front, are inherited.
    pub parent_len: usize,
}

impl Generics {
    /// Whether this is what [`generics`] returns for `def`.
    pub open spec fn is_for(&self, db: Database, def: GenericDefId) -> bool {
        &&& self.def == def
        &&& self.params@ == generic_param_list(db, def)
        &&& self.parent_len == parent_params(db, def).len()
    }

    pub open spec fn wf(&self) -> bool {
        self.parent_len <= self.params@.len()
    }

    /// The number of parameters in scope.
    pub fn len(&self) -> (n: usize)
        ensures
            n == self.params@.len(),
    {
        self.params.len()
    }

    fn count_own(&self, prov: TypeParamProvenance) -> (n: usize)
        requires
            self.wf(),
        ensures
            n == provenance_count(self.params@, self.parent_len as int, prov),
            n <= self.params@.len() - self.parent_len,
    {
        let mut n: usize = 0;
        let mut i: usize = self.params.len();
        while i > self.parent_len
            invariant
                self.parent_len <= i <= self.params.len(),
                n == provenance_count(self.params@, i as int, prov),
                n <= self.params.len() - i,
            decreases i,
        {
            i -= 1;
            if self.params[i].provenance == prov {
                n += 1;
            }
        }
        n
    }

    /// The numbers of inherited parameters, of `Self` parameters, of
    /// parameters from the parameter list and of parameters made for
    /// `impl Trait` arguments. They add up to [`Generics::len`].
    pub fn provenance_split(&self) -> (r: (usize, usize, usize, usize))
        requires
            self.wf(),
        ensures
            r.0 == self.parent_len,
            r.1 == provenance_count(self.params@, self.parent_len as int, TypeParamProvenance::TraitSelf),
            r.2 == provenance_count(self.params@, self.parent_len as int, TypeParamProvenance::TypeParamList),
            r.3 == provenance_count(
                self.params@,
                self.parent_len as int,
                TypeParamProvenance::ArgumentImplTrait,
            ),
            r.0 + r.1 + r.2 + r.3 == self.params@.len(),
    {
        let self_params = self.count_own(TypeParamProvenance::TraitSelf);
        let list_params = self.count_own(TypeParamProvenance::TypeParamList);
        let impl_trait_params = self.count_own(TypeParamProvenance::ArgumentImplTrait);
        proof {
            lemma_provenance_counts(self.params@, self.parent_len as int);
        }
        (self.parent_len, self_params, list_params, impl_trait_params)
    }

    /// The position of `param` among the parameters in scope.
    pub fn param_idx(&self, param: TypeParamId) -> (r: Option<usize>)
        ensures
            match r {
                Some(i) => param_index(self.params@, param, 0) == Some(i as int) && i < self.params@.len(),
                None => param_index(self.params@, param, 0) is None,
            },
    {
        let mut i: usize = 0;
        while i < self.params.len()
            invariant
                i <= self.params.len(),
                param_index(self.params@, param, 0) == param_index(self.params@, param, i as int),
            decreases self.params.len() - i,
        {
            if self.params[i].id == param {
                return Some(i);
            }
            i += 1;
        }
        None
    }

    /// The identity of the `n`-th parameter made for an `impl Trait`
    /// argument.
    pub fn nth_impl_trait_param(&self, n: usize) -> (r: Option<TypeParamId>)
        ensures
            r == nth_impl_trait_param(self.params@, 0, n as nat),
    {
        let mut i: usize = 0;
        let mut left: usize = n;
        while i < self.params.len()
            invariant
                i <= self.params.len(),
                nth_impl_trait_param(self.params@, 0, n as nat) == nth_impl_trait_param(
                    self.params@,
                    i as int,
                    left as nat,
                ),
            decreases self.params.len() - i,
        {
            if self.params[i].provenance == TypeParamProvenance::ArgumentImplTrait {
                if left == 0 {
                    return Some(self.params[i].id);
                }
                left -= 1;
            }
            i += 1;
        }
        None
    }
}

fn push_own_params(db: &Database, def: GenericDefId, params: &mut Vec<GenericParam>)
    ensures
        final(params)@ == old(params)@ + own_params(*db, def),
{
    match db.item(def) {
        Some(item) => {
            let types = &item.generic_params.types;
            let mut i: usize = 0;
            while i < types.len() && i <= u32::MAX as usize
                invariant
                    i <= types.len(),
                    i <= u32::MAX + 1,
                    db.spec_item(def) == Some(*item),
                    types == &item.generic_params.types,
                    params@ == old(params)@ + own_params(*db, def).take(i as int),
                decreases types.len() - i,
            {
                params.push(GenericParam {
                    id: TypeParamId { parent: def, local_id: i as u32 },
                    provenance: types[i].provenance,
                });
                proof {
                    let own = own_params(*db, def);
                    assert(own.take(i + 1) =~= own.take(i as int).push(own[i as int]));
                }
                i += 1;
            }
            proof {
                let own = own_params(*db, def);
                assert(own.take(i as int) =~= own);
            }
        },
        None => {
            assert(params@ =~= old(params)@ + own_params(*db, def));
        },
    }
}

/// The generic parameters in scope of `def`.
pub fn generics(db: &Database, def: GenericDefId) -> (g: Generics)
    ensures
        g.is_for(*db, def),
        g.wf(),
{
    let mut params: Vec<GenericParam> = Vec::new();
    match db.parent_generic_def(def) {
        Some(p) => push_own_params(db, p, &mut params),
        None => {},
    }
    let parent_len = params.len();
    assert(params@ =~= parent_params(*db, def));
    push_own_params(db, def, &mut params);
    Generics { def, params, parent_len }
}

/// One bound variable for each of `n` parameters, all of the binder
/// `debruijn`.
pub open spec fn bound_vars(n: nat, debruijn: DebruijnIndex) -> Seq<TyV> {
    Seq::new(n, |i: int| TyV::BoundVar(BoundVar { debruijn, index: i as usize }))
}

/// One placeholder for each of the parameters.
pub open spec fn placeholders(params: Seq<GenericParam>) -> Seq<TyV> {
    Seq::new(params.len(), |i: int| TyV::Placeholder(params[i].id))
}

impl Substs {
    /// Each parameter in scope as a variable of the binder `debruijn`.
    pub fn bound_vars(generics: &Generics, debruijn: DebruijnIndex) -> (r: Substs)
        ensures
            r@ == bound_vars(generics.params@.len(), debruijn),
    {
        let mut v: Vec<Ty> = Vec::new();
        let mut i: usize = 0;
        while i < generics.params.len()
            invariant
                i <= generics.params.len(),
                v.len() == i,
                forall|j: int|
                    0 <= j < i ==> (#[trigger] v@[j])@ == TyV::BoundVar(BoundVar { debruijn, index: j as usize }),
            decreases generics.params.len() - i,
        {
            v.push(Ty::BoundVar(BoundVar::new(debruijn, i)));
            i += 1;
        }
        let r = Substs(v);
        assert(r@ =~= bound_vars(generics.params@.len(), debruijn));
        r
    }

    /// Each parameter in scope as its placeholder.
    pub fn type_params_for_generics(generics: &Generics) -> (r: Substs)
        ensures
            r@ == placeholders(generics.params@),
    {
        let mut v: Vec<Ty> = Vec::new();
        let mut i: usize = 0;
        while i < generics.params.len()
            invariant
                i <= generics.params.len(),
                v.len() == i,
                forall|j: int| 0 <= j < i ==> (#[trigger] v@[j])@ == TyV::Placeholder(generics.params@[j].id),
            decreases generics.params.len() - i,
        {
            v.push(Ty::Placeholder(generics.params[i].id));
            i += 1;
        }
        let r = Substs(v);
        assert(r@ =~= placeholders(generics.params@));
        r
    }

    /// Each parameter in scope of `def` as its placeholder.
    pub fn type_params(db: &Database, def: GenericDefId) -> (r: Substs)
        ensures
            r@ == placeholders(generic_param_list(*db, def)),
    {
        let g = generics(db, def);
        Substs::type_params_for_generics(&g)
    }
}

} // verus!
