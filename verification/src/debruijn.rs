//! Arithmetic on binder indices.
use vstd::prelude::*;
use crate::ty::{BoundVar, DebruijnIndex};

verus! {

impl DebruijnIndex {
    /// The innermost binder.
    pub fn innermost() -> (r: DebruijnIndex)
        ensures
            r.depth == 0,
    {
        DebruijnIndex { depth: 0 }
    }

    /// The binder around the innermost one.
    pub fn one() -> (r: DebruijnIndex)
        ensures
            r.depth == 1,
    {
        DebruijnIndex { depth: 1 }
    }

    pub fn new(depth: u32) -> (r: DebruijnIndex)
        ensures
            r.depth == depth,
    {
        DebruijnIndex { depth }
    }

    pub fn depth(self) -> (d: u32)
        ensures
            d == self.depth,
    {
        self.depth
    }

    /// Calls `chalk_ir::DebruijnIndex::shifted_in_from`: the index that names,
    /// from inside `outer_binder` further binders, what `self` names from
    /// outside them. The sum of the two depths must fit, since the outside
    /// function adds them in `u32`.
    #[verifier::external_body]
    fn add_depths(self, outer_binder: DebruijnIndex) -> (r: DebruijnIndex)
        requires
            self.depth + outer_binder.depth <= u32::MAX,
        ensures
            r.depth == self.depth + outer_binder.depth,
    {
        let inner = chalk_ir::DebruijnIndex::new(self.depth);
        let outer = chalk_ir::DebruijnIndex::new(outer_binder.depth);
        DebruijnIndex { depth: inner.shifted_in_from(outer).depth() }
    }

    /// Calls `chalk_ir::DebruijnIndex::shifted_out_to`: `None` where `self`
    /// lies inside `outer_binder`, else the index that names, from outside
    /// `outer_binder` binders, what `self` names from inside them.
    #[verifier::external_body]
    fn sub_depths(self, outer_binder: DebruijnIndex) -> (r: Option<DebruijnIndex>)
        ensures
            self.depth < outer_binder.depth ==> r is None,
            self.depth >= outer_binder.depth ==> r == Some(
                DebruijnIndex { depth: (self.depth - outer_binder.depth) as u32 },
            ),
    {
        let inner = chalk_ir::DebruijnIndex::new(self.depth);
        let outer = chalk_ir::DebruijnIndex::new(outer_binder.depth);
        match inner.shifted_out_to(outer) {
            Some(d) => Some(DebruijnIndex { depth: d.depth() }),
            None => None,
        }
    }

    /// The index moved in through `outer_binder` further binders, or `None`
    /// where no index can count that deep.
    pub fn shifted_in_from(self, outer_binder: DebruijnIndex) -> (r: Option<DebruijnIndex>)
        ensures
            r == self.spec_shifted_in_from(outer_binder),
    {
        if self.depth > u32::MAX - outer_binder.depth {
            None
        } else {
            Some(self.add_depths(outer_binder))
        }
    }

    pub open spec fn spec_shifted_in_from(self, outer_binder: DebruijnIndex) -> Option<DebruijnIndex> {
        if self.depth + outer_binder.depth <= u32::MAX {
            Some(DebruijnIndex { depth: (self.depth + outer_binder.depth) as u32 })
        } else {
            None
        }
    }

    /// The index moved in through one further binder.
    pub fn shifted_in(self) -> (r: Option<DebruijnIndex>)
        ensures
            r == self.spec_shifted_in_from(DebruijnIndex { depth: 1 }),
    {
        self.shifted_in_from(DebruijnIndex::one())
    }

    /// The index moved out of `outer_binder` binders, or `None` where it
    /// names one of them.
    pub fn shifted_out_to(self, outer_binder: DebruijnIndex) -> (r: Option<DebruijnIndex>)
        ensures
            self.depth < outer_binder.depth ==> r is None,
            self.depth >= outer_binder.depth ==> r == Some(
                DebruijnIndex { depth: (self.depth - outer_binder.depth) as u32 },
            ),
    {
        self.sub_depths(outer_binder)
    }
}

impl BoundVar {
    pub fn new(debruijn: DebruijnIndex, index: usize) -> (r: BoundVar)
        ensures
            r == (BoundVar { debruijn, index }),
    {
        BoundVar { debruijn, index }
    }
}

} // verus!
