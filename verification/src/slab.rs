//! The slot table: a dense, reusable allocator mapping generated tokens to
//! stored values.
//!
//! `insert` places a value in the first free slot, reusing previously
//! removed slots before growing, and returns a token distinct from every
//! token currently live. `remove` and the indexed accessors fail with
//! `NoSuchSlot` on a stale or never-issued token instead of aliasing an
//! unrelated occupant. The table is modelled as a map from token to stored
//! value.

use crate::error::MioError;
use crate::error::MioResult;
use vstd::prelude::*;

verus! {

/// A token-indexed store with a free list of reusable slots.
pub struct Slab<T> {
    entries: Vec<Option<T>>,
    free: Vec<usize>,
}

impl<T> View for Slab<T> {
    type V = Map<int, T>;

    /// The live contents: each occupied slot index, mapped to its value.
    closed spec fn view(&self) -> Map<int, T> {
        Map::new(
            |t: int| 0 <= t < self.entries@.len() && self.entries@[t] is Some,
            |t: int| self.entries@[t]->0,
        )
    }
}

impl<T> Slab<T> {
    /// The table's high-water mark: how many slots it has ever allocated.
    pub closed spec fn slot_count(self) -> nat {
        self.entries@.len()
    }

    /// How many vacated slots are waiting to be reused.
    pub closed spec fn free_count(self) -> nat {
        self.free@.len()
    }

    /// The free list holds distinct indices of vacant slots only.
    pub closed spec fn wf(self) -> bool {
        &&& forall|i: int|
            0 <= i < self.free@.len() ==> self.free@[i] < self.entries@.len()
                && self.entries@[self.free@[i] as int] is None
        &&& forall|i: int, j: int|
            0 <= i < j < self.free@.len() ==> self.free@[i] != self.free@[j]
    }

    /// An empty table.
    pub fn new() -> (s: Slab<T>)
        ensures
            s.wf(),
            s@ == Map::<int, T>::empty(),
            s.slot_count() == 0,
            s.free_count() == 0,
    {
        let s = Slab { entries: Vec::new(), free: Vec::new() };
        proof {
            assert(s@ =~= Map::<int, T>::empty());
        }
        s
    }

    /// Places `value` in the first free slot, reusing a vacated slot when
    /// one exists and growing by one slot only when none does, so memory
    /// growth is bounded by the number of simultaneously live entries. The
    /// returned token was not live before the call, and afterwards maps to
    /// exactly `value`.
    pub fn insert(&mut self, value: T) -> (tok: u64)
        requires
            old(self).wf(),
        ensures
            final(self).wf(),
            !old(self)@.contains_key(tok as int),
            final(self)@ == old(self)@.insert(tok as int, value),
            old(self).free_count() > 0 ==> final(self).slot_count() == old(self).slot_count()
                && final(self).free_count() == (old(self).free_count() - 1) as nat && tok
                < old(self).slot_count(),
            old(self).free_count() == 0 ==> final(self).slot_count() == old(self).slot_count()
                + 1 && final(self).free_count() == 0 && tok == old(self).slot_count(),
    {
        let idx: usize = match self.free.pop() {
            Some(i) => {
                self.entries[i] = Some(value);
                i
            },
            None => {
                let i = self.entries.len();
                self.entries.push(Some(value));
                i
            },
        };
        proof {
            assert(self@ =~= old(self)@.insert(idx as int, value));
        }
        idx as u64
    }

    /// Whether `tok` is live.
    pub fn contains(&self, tok: u64) -> (r: bool)
        ensures
            r == self@.contains_key(tok as int),
    {
        tok < self.entries.len() as u64 && self.entries[tok as usize].is_some()
    }

    /// Evicts and returns the value stored at `tok`; a stale or never-issued
    /// token fails with `NoSuchSlot` and changes nothing.
    pub fn remove(&mut self, tok: u64) -> (r: MioResult<T>)
        requires
            old(self).wf(),
        ensures
            final(self).wf(),
            old(self)@.contains_key(tok as int) ==> (r matches Ok(v) && v == old(self)@[tok
                as int] && final(self)@ == old(self)@.remove(tok as int)
                && final(self).slot_count() == old(self).slot_count()
                && final(self).free_count() == old(self).free_count() + 1),
            !old(self)@.contains_key(tok as int) ==> r == MioResult::<T>::Err(
                MioError::NoSuchSlot,
            ) && *final(self) == *old(self),
    {
        if tok >= self.entries.len() as u64 {
            return Err(MioError::NoSuchSlot);
        }
        let idx = tok as usize;
        if self.entries[idx].is_none() {
            return Err(MioError::NoSuchSlot);
        }
        let taken = self.entries[idx].take();
        match taken {
            Some(v) => {
                self.free.push(idx);
                proof {
                    assert(self@ =~= old(self)@.remove(tok as int));
                }
                Ok(v)
            },
            None => Err(MioError::NoSuchSlot),
        }
    }

    /// Read access by token: exactly the value most recently inserted at
    /// `tok`, or `NoSuchSlot` if the token is not live.
    pub fn get(&self, tok: u64) -> (r: MioResult<&T>)
        ensures
            self@.contains_key(tok as int) ==> (r matches Ok(v) && *v == self@[tok as int]),
            !self@.contains_key(tok as int) ==> (r matches Err(e) && e == MioError::NoSuchSlot),
    {
        if tok >= self.entries.len() as u64 {
            return Err(MioError::NoSuchSlot);
        }
        match &self.entries[tok as usize] {
            Some(v) => Ok(v),
            None => Err(MioError::NoSuchSlot),
        }
    }

    /// Write access by token: a mutable borrow of the value stored at `tok`,
    /// or `NoSuchSlot` if the token is not live. Whatever the caller writes
    /// through the borrow replaces the stored value; nothing else changes.
    pub fn get_mut(&mut self, tok: u64) -> (r: Result<&mut T, MioError>)
        requires
            old(self).wf(),
        ensures
            old(self)@.contains_key(tok as int) ==> (r matches Ok(v) && *v == old(self)@[tok
                as int] && final(self).wf() && final(self)@ == old(self)@.insert(
                tok as int,
                *final(v),
            )),
            !old(self)@.contains_key(tok as int) ==> (r matches Err(e) && e
                == MioError::NoSuchSlot && final(self).wf() && final(self)@ == old(self)@),
    {
        if tok >= self.entries.len() as u64 {
            return Err(MioError::NoSuchSlot);
        }
        let idx = tok as usize;
        let slot = &mut self.entries[idx];
        match slot {
            Some(v) => {
                proof {
                    assert(old(self)@.contains_key(tok as int));
                }
                Ok(v)
            },
            None => Err(MioError::NoSuchSlot),
        }
    }
}

/// One bookkeeping step of a slot table, at the level of its map model:
/// what `insert` and `remove` do to the live contents, as their contracts
/// state.
pub ghost enum SlotOp<T> {
    Insert { token: int, value: T },
    Remove { token: int },
}

/// The live contents after a sequence of `insert`/`remove` steps applied to
/// an empty table.
pub open spec fn apply_slot_ops<T>(ops: Seq<SlotOp<T>>) -> Map<int, T>
    decreases ops.len(),
{
    if ops.len() == 0 {
        Map::empty()
    } else {
        let m = apply_slot_ops(ops.drop_last());
        match ops.last() {
            SlotOp::Insert { token, value } => m.insert(token, value),
            SlotOp::Remove { token } => m.remove(token),
        }
    }
}

/// The value most recently inserted at `t` and not removed since: `None`
/// when `t` was never issued, or was removed and not reissued.
pub open spec fn last_insert_at<T>(ops: Seq<SlotOp<T>>, t: int) -> Option<T>
    decreases ops.len(),
{
    if ops.len() == 0 {
        None
    } else {
        match ops.last() {
            SlotOp::Insert { token, value } => if token == t {
                Some(value)
            } else {
                last_insert_at(ops.drop_last(), t)
            },
            SlotOp::Remove { token } => if token == t {
                None
            } else {
                last_insert_at(ops.drop_last(), t)
            },
        }
    }
}

/// Law: over every sequence of `insert`/`remove` steps, a token is live
/// exactly when an insert at it has not been followed by its removal, and a
/// live token maps back to exactly the value most recently inserted at it.
/// A removed token therefore fails lookups until a later insert reissues it.
pub proof fn lemma_token_tracks_last_insert<T>(ops: Seq<SlotOp<T>>, t: int)
    ensures
        apply_slot_ops(ops).contains_key(t) <==> last_insert_at(ops, t) is Some,
        last_insert_at(ops, t) matches Some(v) ==> apply_slot_ops(ops)[t] == v,
    decreases ops.len(),
{
    if ops.len() > 0 {
        lemma_token_tracks_last_insert(ops.drop_last(), t);
    }
}

} // verus!
