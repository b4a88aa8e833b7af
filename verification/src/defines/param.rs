use vstd::prelude::*;

verus! {

/// Something that names a slot of a critter's parameter array.
pub trait ParamIndex {
    spec fn spec_index(&self) -> usize;

    fn index(&self) -> (r: usize)
        ensures
            r == self.spec_index(),
    ;
}

/// A parameter index is the number itself.
impl ParamIndex for u16 {
    open spec fn spec_index(&self) -> usize {
        *self as usize
    }

    fn index(&self) -> (r: usize) {
        *self as usize
    }
}

/// Read access to a critter's parameters.
pub trait CritterParam<P: ParamIndex> {
    /// The parameter array.
    spec fn spec_params(&self) -> Seq<i32>;

    fn params_all(&self) -> (r: &[i32])
        ensures
            r@ == self.spec_params(),
    ;

    fn param(&self, p: P) -> (r: i32)
        requires
            p.spec_index() < self.spec_params().len(),
        ensures
            r == self.spec_params()[p.spec_index() as int],
    {
        let i = p.index();
        self.params_all()[i]
    }

    /// The parameter's bits read as unsigned.
    fn uparam(&self, p: P) -> (r: u32)
        requires
            p.spec_index() < self.spec_params().len(),
        ensures
            r == self.spec_params()[p.spec_index() as int] as u32,
    {
        self.param(p) as u32
    }

    /// Whether the parameter is set (not zero).
    fn bparam(&self, p: P) -> (r: bool)
        requires
            p.spec_index() < self.spec_params().len(),
        ensures
            r == (self.spec_params()[p.spec_index() as int] != 0),
    {
        self.param(p) != 0
    }

    /// The parameters from `range.start` up to, without, `range.end`.
    fn params_range(&self, range: core::ops::Range<P>) -> (r: &[i32])
        requires
            range.start.spec_index() <= range.end.spec_index() <= self.spec_params().len(),
        ensures
            r@ == self.spec_params().subrange(range.start.spec_index() as int, range.end.spec_index() as int),
    {
        let from = range.start.index();
        let to = range.end.index();
        &self.params_all()[from..to]
    }

    /// The parameters from `first` up to and with `last`.
    fn params_range_inc(&self, first: P, last: P) -> (r: &[i32])
        requires
            first.spec_index() <= last.spec_index() < self.spec_params().len(),
        ensures
            r@ == self.spec_params().subrange(first.spec_index() as int, last.spec_index() + 1),
    {
        let from = first.index();
        let to = last.index();
        let all = self.params_all();
        let n = all.len();
        assert(to < n);
        &all[from..to + 1]
    }
}

/// Write access to a critter's parameters.
pub trait CritterParamMut<P: ParamIndex>: CritterParam<P> {
    fn set_param(&mut self, p: P, val: i32)
        requires
            p.spec_index() < old(self).spec_params().len(),
        ensures
            final(self).spec_params() == old(self).spec_params().update(p.spec_index() as int, val),
    ;

    /// Stores the bits of an unsigned value.
    fn set_uparam(&mut self, p: P, val: u32)
        requires
            p.spec_index() < old(self).spec_params().len(),
        ensures
            final(self).spec_params() == old(self).spec_params().update(p.spec_index() as int, val as i32),
    {
        self.set_param(p, val as i32)
    }
}

/// A parameter reads back what was written to it, and writing it leaves the
/// others as they were.
pub proof fn lemma_param_reads_back<P: ParamIndex, C: CritterParamMut<P>>(before: C, after: C, p: P, val: i32)
    requires
        p.spec_index() < before.spec_params().len(),
        after.spec_params() == before.spec_params().update(p.spec_index() as int, val),
    ensures
        after.spec_params()[p.spec_index() as int] == val,
        after.spec_params().len() == before.spec_params().len(),
        forall|j: int| 0 <= j < before.spec_params().len() && j != p.spec_index() ==> after.spec_params()[j]
            == before.spec_params()[j],
{
}

} // verus!
