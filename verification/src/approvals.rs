use vstd::prelude::*;

verus! {

/// An unforgeable token: permission, and obligation, to construct exactly one
/// new physical connection for the pool. Every approval is accounted for in
/// `pending_conns` at the moment it is minted, and is consumed either by
/// `put` (connect success) or by `connect_failed` (connector gave up).
pub struct Approval {
    no_forge: (),
}

/// A batch of approvals, handed out one at a time.
pub struct ApprovalIter {
    num: usize,
}

impl ApprovalIter {
    /// How many approvals remain in the batch.
    pub closed spec fn spec_len(self) -> nat {
        self.num as nat
    }

    /// Only the admission logic mints batches.
    pub(crate) fn from_count(num: usize) -> (r: Self)
        ensures
            r.spec_len() == num,
    {
        ApprovalIter { num }
    }

    /// Take one approval out of the batch, if any remains.
    pub fn next(&mut self) -> (r: Option<Approval>)
        ensures
            old(self).spec_len() == 0 ==> r is None && final(self).spec_len() == 0,
            old(self).spec_len() > 0 ==> r is Some && final(self).spec_len() == old(self).spec_len() - 1,
    {
        match self.num {
            0 => None,
            _ => {
                self.num = self.num - 1;
                Some(Approval { no_forge: () })
            }
        }
    }

    pub fn len(&self) -> (r: usize)
        ensures
            r == self.spec_len(),
    {
        self.num
    }
}

} // verus!
