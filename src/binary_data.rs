//! The binary resource table: host-owned byte buffers that the guest refers to
//! by integer handle, with LIFO reuse of freed handles.
use vstd::prelude::*;

verus! {

/// The mathematical model of a [`BinaryData`] table.
pub struct BinaryDataView {
    /// One entry per handle ever handed out: `Some` while live, `None` once freed.
    pub slots: Seq<Option<Seq<u8>>>,
    /// Freed handles, the most recently freed last.
    pub free: Seq<usize>,
}

/// One operation on the table, for stating laws over sequences of operations.
pub enum TableOp {
    Push(Seq<u8>),
    Remove(usize),
}

impl BinaryDataView {
    /// The table's invariant: the free stack holds exactly the empty slots, once each.
    pub open spec fn wf(self) -> bool {
        &&& forall|i: int| 0 <= i < self.free.len() ==> {
            &&& (#[trigger] self.free[i]) < self.slots.len()
            &&& self.slots[self.free[i] as int] is None
        }
        &&& forall|i: int, j: int|
            0 <= i < self.free.len() && 0 <= j < self.free.len() && i != j
                ==> self.free[i] != self.free[j]
        &&& forall|k: usize|
            k < self.slots.len() && (#[trigger] self.slots[k as int]) is None
                ==> self.free.contains(k)
    }

    /// What a lookup of `handle` yields.
    pub open spec fn get(self, handle: int) -> Option<Seq<u8>> {
        if 0 <= handle < self.slots.len() {
            self.slots[handle]
        } else {
            None
        }
    }

    /// The table after storing `bytes`, and the handle they get: the most
    /// recently freed handle if there is one, else a new one at the end.
    pub open spec fn push(self, bytes: Seq<u8>) -> (Self, int) {
        if self.free.len() > 0 {
            let h = self.free.last();
            (
                BinaryDataView { slots: self.slots.update(h as int, Some(bytes)), free: self.free.drop_last() },
                h as int,
            )
        } else {
            (BinaryDataView { slots: self.slots.push(Some(bytes)), free: self.free }, self.slots.len() as int)
        }
    }

    /// The table after removing `handle`, and the bytes it held. A handle that
    /// is free or was never handed out leaves the table as it is.
    pub open spec fn remove(self, handle: usize) -> (Self, Option<Seq<u8>>) {
        if self.get(handle as int) is Some {
            (
                BinaryDataView {
                    slots: self.slots.update(handle as int, None),
                    free: self.free.push(handle),
                },
                self.get(handle as int),
            )
        } else {
            (self, None)
        }
    }

    /// The table after one operation.
    pub open spec fn apply(self, op: TableOp) -> Self {
        match op {
            TableOp::Push(bytes) => self.push(bytes).0,
            TableOp::Remove(handle) => self.remove(handle).0,
        }
    }

    /// The table after a sequence of operations, applied in order.
    pub open spec fn apply_all(self, ops: Seq<TableOp>) -> Self
        decreases ops.len(),
    {
        if ops.len() == 0 {
            self
        } else {
            self.apply(ops[0]).apply_all(ops.drop_first())
        }
    }

    /// The total number of bytes held by live handles among the first `n` slots.
    pub open spec fn size_of_first(self, n: nat) -> nat
        decreases n,
    {
        if n == 0 || n > self.slots.len() {
            0
        } else {
            self.size_of_first((n - 1) as nat) + match self.slots[n - 1] {
                Some(b) => b.len(),
                None => 0,
            }
        }
    }

    /// The total number of bytes held by live handles.
    pub open spec fn size(self) -> nat {
        self.size_of_first(self.slots.len())
    }
}

/// Pushing bytes yields a handle that was not live and now resolves to exactly
/// those bytes; every other handle resolves as before.
pub proof fn lemma_push_then_get(v: BinaryDataView, bytes: Seq<u8>)
    requires
        v.wf(),
    ensures
        v.push(bytes).0.wf(),
        v.get(v.push(bytes).1) is None,
        v.push(bytes).0.get(v.push(bytes).1) == Some(bytes),
        forall|j: int| j != v.push(bytes).1 ==> #[trigger] v.push(bytes).0.get(j) == v.get(j),
{
    let (w, h) = v.push(bytes);
    if v.free.len() > 0 {
        let last = v.free.len() - 1;
        assert(v.free[last] == v.free.last());
        assert forall|i: int| 0 <= i < w.free.len() implies (#[trigger] w.free[i]) < w.slots.len()
            && w.slots[w.free[i] as int] is None by {
            assert(w.free[i] == v.free[i]);
            assert(v.free[i] != v.free[last]);
            assert(v.free[i] < v.slots.len());
            assert(v.slots[v.free[i] as int] is None);
            assert(w.slots[w.free[i] as int] == v.slots[v.free[i] as int]);
        }
        assert forall|k: usize| k < w.slots.len() && (#[trigger] w.slots[k as int]) is None
            implies w.free.contains(k) by {
            assert(k != h);
            assert(v.slots[k as int] is None);
            let i = choose|i: int| 0 <= i < v.free.len() && v.free[i] == k;
            assert(i != last);
            assert(w.free[i] == k);
        }
    } else {
        assert forall|k: usize| k < w.slots.len() && (#[trigger] w.slots[k as int]) is None
            implies w.free.contains(k) by {
            assert(k < v.slots.len());
            assert(v.slots[k as int] is None);
            assert(v.free.contains(k));
        }
    }
}

/// Removing a handle makes it resolve to nothing and hands back what it held;
/// every other handle resolves as before.
pub proof fn lemma_remove_then_get(v: BinaryDataView, handle: usize)
    requires
        v.wf(),
    ensures
        v.remove(handle).0.wf(),
        v.remove(handle).1 == v.get(handle as int),
        v.remove(handle).0.get(handle as int) is None,
        forall|j: int| j != handle ==> #[trigger] v.remove(handle).0.get(j) == v.get(j),
{
    let (w, r) = v.remove(handle);
    if v.get(handle as int) is Some {
        let n = v.free.len() as int;
        assert(!v.free.contains(handle as usize)) by {
            if v.free.contains(handle as usize) {
                let i = choose|i: int| 0 <= i < v.free.len() && v.free[i] == handle as usize;
                assert(v.slots[v.free[i] as int] is None);
            }
        }
        assert forall|i: int| 0 <= i < w.free.len() implies (#[trigger] w.free[i]) < w.slots.len()
            && w.slots[w.free[i] as int] is None by {
            if i < n {
                assert(w.free[i] == v.free[i]);
                assert(v.slots[v.free[i] as int] is None);
                assert(v.free[i] != handle);
            }
        }
        assert forall|i: int, j: int|
            0 <= i < w.free.len() && 0 <= j < w.free.len() && i != j
                implies w.free[i] != w.free[j] by {
            if i < n && j < n {
            } else if i < n {
                assert(v.free.contains(v.free[i]));
            } else if j < n {
                assert(v.free.contains(v.free[j]));
            }
        }
        assert forall|k: usize| k < w.slots.len() && (#[trigger] w.slots[k as int]) is None
            implies w.free.contains(k) by {
            if k == handle {
                assert(w.free[n] == handle);
            } else {
                assert(v.slots[k as int] is None);
                let i = choose|i: int| 0 <= i < v.free.len() && v.free[i] == k;
                assert(w.free[i] == k);
            }
        }
    }
}

/// After one or more removals, the next push reuses the handle removed last.
pub proof fn lemma_push_reuses_last_removed(v: BinaryDataView, handle: usize, bytes: Seq<u8>)
    requires
        v.wf(),
        v.get(handle as int) is Some,
    ensures
        v.remove(handle).0.push(bytes).1 == handle,
{
    let w = v.remove(handle).0;
    assert(w.free.last() == handle);
}

/// A live handle keeps resolving to the bytes it holds through any sequence of
/// pushes and removals that does not remove it.
pub proof fn lemma_live_handle_stable(v: BinaryDataView, ops: Seq<TableOp>, handle: usize)
    requires
        v.wf(),
        v.get(handle as int) is Some,
        forall|i: int| 0 <= i < ops.len() ==> ops[i] != TableOp::Remove(handle),
    ensures
        v.apply_all(ops).wf(),
        v.apply_all(ops).get(handle as int) == v.get(handle as int),
    decreases ops.len(),
{
    if ops.len() > 0 {
        let w = v.apply(ops[0]);
        match ops[0] {
            TableOp::Push(bytes) => {
                lemma_push_then_get(v, bytes);
            },
            TableOp::Remove(h) => {
                lemma_remove_then_get(v, h);
            },
        }
        assert forall|i: int| 0 <= i < ops.drop_first().len() implies ops.drop_first()[i]
            != TableOp::Remove(handle) by {
            assert(ops.drop_first()[i] == ops[i + 1]);
        }
        lemma_live_handle_stable(w, ops.drop_first(), handle);
    }
}

/// A table of byte buffers indexed by handle.
pub struct BinaryData {
    free_indices: Vec<usize>,
    data: Vec<Option<Vec<u8>>>,
}

pub open spec fn slot_view(slot: Option<Vec<u8>>) -> Option<Seq<u8>> {
    match slot {
        Some(v) => Some(v@),
        None => None,
    }
}

pub open spec fn slots_view(d: Seq<Option<Vec<u8>>>) -> Seq<Option<Seq<u8>>> {
    Seq::new(d.len(), |i: int| slot_view(d[i]))
}

impl View for BinaryData {
    type V = BinaryDataView;

    closed spec fn view(&self) -> BinaryDataView {
        BinaryDataView {
            slots: slots_view(self.data@),
            free: self.free_indices@,
        }
    }
}

impl BinaryData {
    /// The table's invariant.
    pub open spec fn wf(&self) -> bool {
        self@.wf()
    }

    /// An empty table.
    pub fn new() -> (r: Self)
        ensures
            r.wf(),
            r@.slots.len() == 0,
            r@.free.len() == 0,
    {
        let r = BinaryData { free_indices: Vec::new(), data: Vec::new() };
        assert(r@.slots =~= Seq::empty());
        r
    }

    /// The number of handles ever handed out, live or freed.
    pub fn len(&self) -> (r: usize)
        ensures
            r == self@.slots.len(),
    {
        self.data.len()
    }

    /// The total number of bytes held by live handles.
    pub fn size(&self) -> (r: usize)
        requires
            self@.size() <= usize::MAX,
        ensures
            r == self@.size(),
    {
        let mut total: usize = 0;
        let mut i: usize = 0;
        while i < self.data.len()
            invariant
                i <= self.data.len(),
                self@.slots.len() == self.data.len(),
                total == self@.size_of_first(i as nat),
                self@.size() <= usize::MAX,
            decreases self.data.len() - i,
        {
            proof {
                self.lemma_size_monotonic((i + 1) as nat, self@.slots.len());
            }
            match &self.data[i] {
                Some(bytes) => {
                    assert(self@.slots[i as int] == Some(bytes@));
                    total = total + bytes.len();
                },
                None => {
                    assert(self@.slots[i as int] is None);
                },
            }
            i = i + 1;
        }
        total
    }

    proof fn lemma_size_monotonic(&self, a: nat, b: nat)
        requires
            a <= b <= self@.slots.len(),
        ensures
            self@.size_of_first(a) <= self@.size_of_first(b),
        decreases b - a,
    {
        if a < b {
            self.lemma_size_monotonic(a, (b - 1) as nat);
        }
    }

    /// The bytes that `index` resolves to, if it is live.
    pub fn get(&self, index: usize) -> (r: Option<&[u8]>)
        ensures
            match r {
                Some(s) => self@.get(index as int) == Some(s@),
                None => self@.get(index as int) is None,
            },
    {
        if index < self.data.len() {
            match &self.data[index] {
                Some(bytes) => Some(bytes.as_slice()),
                None => None,
            }
        } else {
            None
        }
    }

    /// Puts `bytes` in the place of the buffer that a live `index` holds and
    /// hands back the old buffer; a free or unknown index gives back `bytes`
    /// as `Err` and changes nothing.
    pub fn replace(&mut self, index: usize, bytes: Vec<u8>) -> (r: Result<Vec<u8>, Vec<u8>>)
        requires
            old(self).wf(),
        ensures
            final(self).wf(),
            match r {
                Ok(prev) => {
                    &&& old(self)@.get(index as int) == Some(prev@)
                    &&& final(self)@ == BinaryDataView {
                        slots: old(self)@.slots.update(index as int, Some(bytes@)),
                        free: old(self)@.free,
                    }
                },
                Err(back) => {
                    &&& old(self)@.get(index as int) is None
                    &&& back == bytes
                    &&& final(self)@ == old(self)@
                },
            },
    {
        if index < self.data.len() && self.data[index].is_some() {
            let mut slot = Some(bytes);
            std::mem::swap(&mut slot, &mut self.data[index]);
            proof {
                assert(self@.slots =~= old(self)@.slots.update(index as int, Some(bytes@)));
            }
            match slot {
                Some(prev) => Ok(prev),
                None => Err(Vec::new()),
            }
        } else {
            Err(bytes)
        }
    }

    /// Stores a copy of `bytes` and returns its handle.
    pub fn push(&mut self, bytes: &[u8]) -> (r: usize)
        requires
            old(self).wf(),
        ensures
            final(self).wf(),
            (final(self)@, r as int) == old(self)@.push(bytes@),
    {
        self.push_internal(bytes)
    }

    /// Removes `index`, handing back what it held; a free or unknown index
    /// gives `None` and changes nothing.
    pub fn remove(&mut self, index: usize) -> (r: Option<Vec<u8>>)
        requires
            old(self).wf(),
        ensures
            final(self).wf(),
            final(self)@ == old(self)@.remove(index).0,
            slot_view(r) == old(self)@.remove(index).1,
    {
        proof {
            lemma_remove_then_get(self@, index);
        }
        if index < self.data.len() {
            let mut taken: Option<Vec<u8>> = None;
            std::mem::swap(&mut taken, &mut self.data[index]);
            if taken.is_some() {
                self.free_indices.push(index);
            }
            proof {
                assert(self@.slots =~= old(self)@.remove(index).0.slots);
                assert(self@.free =~= old(self)@.remove(index).0.free);
            }
            taken
        } else {
            None
        }
    }

    fn push_internal(&mut self, bytes: &[u8]) -> (r: usize)
        requires
            old(self).wf(),
        ensures
            final(self).wf(),
            (final(self)@, r as int) == old(self)@.push(bytes@),
    {
        proof {
            lemma_push_then_get(self@, bytes@);
        }
        let owned = vstd::slice::slice_to_vec(bytes);
        match self.free_indices.pop() {
            Some(index) => {
                proof {
                    assert(old(self)@.free[old(self)@.free.len() - 1] == index);
                }
                self.data.set(index, Some(owned));
                proof {
                    assert(self@.slots =~= old(self)@.push(bytes@).0.slots);
                    assert(self@.free =~= old(self)@.push(bytes@).0.free);
                }
                index
            },
            None => {
                let index = self.data.len();
                self.data.push(Some(owned));
                proof {
                    assert(self@.slots =~= old(self)@.push(bytes@).0.slots);
                }
                index
            },
        }
    }
}

} // verus!
