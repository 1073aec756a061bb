//! The label allocator: issues symbolic jump targets, unique within one
//! compilation run.

use vstd::prelude::*;

verus! {

/// A symbolic jump target, rendered as `label_<n>` in the output text.
#[derive(Clone, Copy, PartialEq, Eq, Structural, Debug)]
pub struct Label(pub usize);

/// Issues fresh labels; every call to `next` returns a label no earlier
/// call has returned.
pub struct Labeler {
    index: usize,
}

impl Labeler {
    pub closed spec fn issued(&self) -> nat {
        self.index as nat
    }

    pub fn new() -> (r: Labeler)
        ensures
            r.issued() == 0,
    {
        Labeler { index: 0 }
    }

    pub fn next(&mut self) -> (r: Label)
        requires
            old(self).issued() < usize::MAX,
        ensures
            r == Label(old(self).issued() as usize),
            final(self).issued() == old(self).issued() + 1,
    {
        let index = self.index;
        self.index = index + 1;
        Label(index)
    }
}

} // verus!
