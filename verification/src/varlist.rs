use crate::variable::Variable;
use crate::variable::VariablePtr;
use crate::variable::VariableView;
use vstd::prelude::*;

verus! {

/// A chain of bound variables as it hangs on a message. It may be empty.
#[derive(Debug)]
pub struct VarListPtr {
    vars: Vec<VariablePtr>,
}

/// A chain of bound variables owned by the caller.
#[derive(Debug)]
pub struct VarList(VarListPtr);

/// A walk over a chain, from its head to its end. It borrows the chain and
/// owns nothing; every walk starts at the head.
pub struct VarListIter<'a> {
    list: &'a VarListPtr,
    next: usize,
}

impl View for VarListPtr {
    type V = Seq<VariableView>;

    closed spec fn view(&self) -> Seq<VariableView> {
        Seq::new(self.vars@.len(), |i: int| self.vars@[i]@)
    }
}

impl View for VarList {
    type V = Seq<VariableView>;

    closed spec fn view(&self) -> Seq<VariableView> {
        self.0@
    }
}

impl<'a> VarListIter<'a> {
    /// The chain that is walked.
    pub closed spec fn chain(&self) -> Seq<VariableView> {
        self.list@
    }

    /// How many variables the walk has passed.
    pub closed spec fn position(&self) -> nat {
        self.next as nat
    }

    #[verifier::type_invariant]
    closed spec fn within_chain(&self) -> bool {
        self.next <= self.list.vars@.len()
    }

    /// The variable the walk stands at, after which it moves on by one; at
    /// the end of the chain nothing, however often it is asked.
    pub fn next(&mut self) -> (res: Option<&'a VariablePtr>)
        ensures
            final(self).chain() == old(self).chain(),
            old(self).position() <= old(self).chain().len(),
            old(self).position() < old(self).chain().len() ==> (res matches Some(var) && var@
                == old(self).chain()[old(self).position() as int]) && final(self).position()
                == old(self).position() + 1,
            old(self).position() == old(self).chain().len() ==> res is None
                && final(self).position() == old(self).position(),
    {
        proof {
            use_type_invariant(&*self);
        }
        let list: &'a VarListPtr = self.list;
        if self.next < list.vars.len() {
            let var = &list.vars[self.next];
            self.next = self.next + 1;
            Some(var)
        } else {
            None
        }
    }
}

impl VarListPtr {
    /// The number of variables on the chain.
    pub fn len(&self) -> (res: usize)
        ensures
            res == self@.len(),
    {
        self.vars.len()
    }

    /// The variable at index `i` of the chain.
    pub fn get(&self, i: usize) -> (res: Option<&VariablePtr>)
        ensures
            i < self@.len() ==> (res matches Some(var) && var@ == self@[i as int]),
            i >= self@.len() ==> res is None,
    {
        if i < self.vars.len() {
            Some(&self.vars[i])
        } else {
            None
        }
    }

    /// Starts a walk at the head of the chain.
    pub fn into_iter(&self) -> (res: VarListIter<'_>)
        ensures
            res.chain() == self@,
            res.position() == 0,
    {
        VarListIter { list: self, next: 0 }
    }

    /// A copy of the chain that the caller owns.
    pub fn to_owned(&self) -> (res: VarList)
        ensures
            res@ == self@,
    {
        let mut vars: Vec<VariablePtr> = Vec::new();
        let mut i: usize = 0;
        while i < self.vars.len()
            invariant
                i <= self.vars.len(),
                vars@.len() == i,
                forall|j: int| 0 <= j < i ==> vars@[j]@ == self.vars@[j]@,
            decreases self.vars.len() - i,
        {
            vars.push(self.vars[i].to_owned().into_inner());
            i += 1;
        }
        let res = VarList(VarListPtr { vars });
        assert(res@ =~= self@);
        res
    }
}

impl VarList {
    /// The empty chain.
    pub fn new() -> (res: VarList)
        ensures
            res@ == Seq::<VariableView>::empty(),
    {
        let res = VarList(VarListPtr { vars: Vec::new() });
        assert(res@ =~= Seq::<VariableView>::empty());
        res
    }

    /// Hangs `var` on the end of the chain.
    pub fn push(&mut self, var: Variable)
        ensures
            final(self)@ == old(self)@.push(var@),
    {
        self.0.vars.push(var.into_inner());
        assert(self@ =~= old(self)@.push(var@));
    }

    /// The chain this handle owns.
    pub fn as_raw(&self) -> (res: &VarListPtr)
        ensures
            res@ == self@,
    {
        &self.0
    }

    /// Gives up the handle and returns the chain it owned.
    pub fn into_raw(self) -> (res: VarListPtr)
        ensures
            res@ == self@,
    {
        self.0
    }
}

impl core::ops::Deref for VarList {
    type Target = VarListPtr;

    fn deref(&self) -> (res: &VarListPtr)
        ensures
            res@ == self@,
    {
        &self.0
    }
}

} // verus!
