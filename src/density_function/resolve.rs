use vstd::prelude::*;

use crate::density_function::CompileError;

verus! {

fn same_bytes(a: &[u8], b: &[u8]) -> (r: bool)
    ensures
        r == (a@ == b@),
{
    if a.len() != b.len() {
        return false;
    }
    let mut i: usize = 0;
    while i < a.len()
        invariant
            i <= a@.len() == b@.len(),
            forall|k: int| 0 <= k < i ==> a@[k] == b@[k],
        decreases a@.len() - i,
    {
        if a[i] != b[i] {
            return false;
        }
        i = i + 1;
    }
    assert(a@ =~= b@);
    true
}

/// The chain of references that a compilation is resolving, outermost first. A
/// reference that is already on the chain would never finish resolving.
pub struct ResolutionPath {
    ids: Vec<Vec<u8>>,
}

impl View for ResolutionPath {
    type V = Seq<Seq<u8>>;

    closed spec fn view(&self) -> Seq<Seq<u8>> {
        self.ids@.map_values(|id: Vec<u8>| id@)
    }
}

impl ResolutionPath {
    pub fn new() -> (r: ResolutionPath)
        ensures
            r@ == Seq::<Seq<u8>>::empty(),
    {
        let r = ResolutionPath { ids: Vec::new() };
        assert(r@ =~= Seq::<Seq<u8>>::empty());
        r
    }

    /// Steps into reference `id`; refused when `id` is already being resolved.
    pub fn enter(&mut self, id: &[u8]) -> (r: Result<(), CompileError>)
        ensures
            old(self)@.contains(id@) ==> r == Err::<(), CompileError>(CompileError::ReferenceCycle)
                && final(self)@ == old(self)@,
            !old(self)@.contains(id@) ==> r is Ok && final(self)@ == old(self)@.push(id@),
    {
        let mut i: usize = 0;
        while i < self.ids.len()
            invariant
                i <= self.ids@.len(),
                self@ == old(self)@,
                forall|k: int| 0 <= k < i ==> self@[k] != id@,
            decreases self.ids@.len() - i,
        {
            if same_bytes(self.ids[i].as_slice(), id) {
                assert(self@[i as int] == id@);
                return Err(CompileError::ReferenceCycle);
            }
            i = i + 1;
        }
        let mut copy: Vec<u8> = Vec::new();
        let mut j: usize = 0;
        while j < id.len()
            invariant
                j <= id@.len(),
                copy@ == id@.subrange(0, j as int),
            decreases id@.len() - j,
        {
            copy.push(id[j]);
            j = j + 1;
            assert(copy@ =~= id@.subrange(0, j as int));
        }
        assert(copy@ =~= id@);
        self.ids.push(copy);
        assert(self@ =~= old(self)@.push(id@));
        Ok(())
    }

    /// Steps out of the innermost reference.
    pub fn leave(&mut self)
        requires
            old(self)@.len() > 0,
        ensures
            final(self)@ == old(self)@.drop_last(),
    {
        self.ids.pop();
        assert(self@ =~= old(self)@.drop_last());
    }

    pub fn depth(&self) -> (r: usize)
        ensures
            r == self@.len(),
    {
        self.ids.len()
    }
}

} // verus!
