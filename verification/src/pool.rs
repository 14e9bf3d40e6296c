//! A pool of values with handles that cannot dangle.
//!
//! A value lives in a numbered slot. Its handle names the slot and the
//! slot's generation at the time the value was put there. Each new value in
//! a slot raises the generation, so the handle of a value that was taken out
//! fits nothing any more and stays that way.

use vstd::prelude::*;

verus! {

/// What names a value in a pool.
#[derive(Copy, Clone, Debug, PartialEq, Eq, Structural)]
pub struct Handle {
    /// The number of the slot.
    pub index: u32,
    /// The generation of the slot when the value was put there; 0 for the
    /// handle that names nothing.
    pub generation: u32,
}

impl Handle {
    /// The handle that names nothing.
    pub open spec fn spec_none() -> Handle {
        Handle { index: 0, generation: 0 }
    }

    /// Whether this is the handle that names nothing.
    pub open spec fn spec_is_none(self) -> bool {
        self.generation == 0
    }

    /// The handle that names nothing.
    pub fn none() -> (h: Handle)
        ensures
            h == Handle::spec_none(),
            h.spec_is_none(),
    {
        Handle { index: 0, generation: 0 }
    }

    /// A handle from its parts.
    pub fn new(index: u32, generation: u32) -> (h: Handle)
        ensures
            h == (Handle { index, generation }),
    {
        Handle { index, generation }
    }

    /// Tells whether this handle names nothing.
    pub fn is_none(&self) -> (none: bool)
        ensures
            none == self.spec_is_none(),
    {
        self.generation == 0
    }

    /// Tells whether this handle may name something.
    pub fn is_some(&self) -> (some: bool)
        ensures
            some == !self.spec_is_none(),
    {
        self.generation != 0
    }

    /// The number of the slot.
    pub fn index(&self) -> (index: u32)
        ensures
            index == self.index,
    {
        self.index
    }

    /// The generation.
    pub fn generation(&self) -> (generation: u32)
        ensures
            generation == self.generation,
    {
        self.generation
    }
}

impl Default for Handle {
    fn default() -> (h: Handle)
        ensures
            h == Handle::spec_none(),
    {
        Handle { index: 0, generation: 0 }
    }
}

/// A slot of a pool.
pub struct Record<T> {
    /// How many values the slot has held.
    pub generation: u32,
    /// The value in the slot, if there is one.
    pub payload: Option<T>,
}

/// The pool.
pub struct Pool<T> {
    /// The slots.
    pub records: Vec<Record<T>>,
    /// The numbers of empty slots that can take a value, the next to be
    /// filled last.
    pub free: Vec<u32>,
}

impl<T> Pool<T> {
    /// Whether the pool is sound: slots are numbered within 32 bits, a slot
    /// that holds a value has held at least one, and the slots listed as
    /// free are empty, can still be filled, and are listed once.
    pub open spec fn wf(&self) -> bool {
        &&& self.records@.len() <= u32::MAX
        &&& forall|i: int|
            0 <= i < self.records@.len() && (#[trigger] self.records@[i]).payload.is_some()
                ==> self.records@[i].generation >= 1
        &&& forall|j: int|
            0 <= j < self.free@.len() ==> (#[trigger] self.free@[j]) < self.records@.len()
                && self.records@[self.free@[j] as int].payload.is_none()
                && self.records@[self.free@[j] as int].generation < u32::MAX
        &&& forall|j: int, k: int|
            0 <= j < k < self.free@.len() ==> #[trigger] self.free@[j] != #[trigger] self.free@[k]
    }

    /// Whether `handle` names a value in the pool.
    pub open spec fn contains(&self, handle: Handle) -> bool {
        &&& handle.index < self.records@.len()
        &&& self.records@[handle.index as int].generation == handle.generation
        &&& self.records@[handle.index as int].payload.is_some()
    }

    /// The value that `handle` names.
    pub open spec fn value(&self, handle: Handle) -> T {
        self.records@[handle.index as int].payload.unwrap()
    }

    /// Whether `handle` may have been given out by the pool: its slot
    /// exists and has reached its generation.
    pub open spec fn issued(&self, handle: Handle) -> bool {
        handle.index < self.records@.len() && handle.generation
            <= self.records@[handle.index as int].generation
    }

    /// Whether `handle` is stale: it may have been given out, and names
    /// nothing now.
    pub open spec fn stale(&self, handle: Handle) -> bool {
        self.issued(handle) && !self.contains(handle)
    }

    /// Whether `after` is this pool with nothing changed but the value that
    /// `handle` names.
    pub open spec fn same_but_value(&self, after: &Pool<T>, handle: Handle) -> bool {
        &&& after.free == self.free
        &&& after.records@.len() == self.records@.len()
        &&& after.records@[handle.index as int].generation
            == self.records@[handle.index as int].generation
        &&& after.records@[handle.index as int].payload.is_some()
        &&& forall|i: int|
            0 <= i < self.records@.len() && i != handle.index ==> #[trigger] after.records@[i]
                == self.records@[i]
    }

    /// The handle of the value in slot `i`, if the slot holds one.
    pub open spec fn spec_handle_at(&self, i: int) -> Option<Handle> {
        if 0 <= i < self.records@.len() && self.records@[i].payload.is_some() {
            Some(Handle { index: i as u32, generation: self.records@[i].generation })
        } else {
            None
        }
    }

    /// The handle that the next value put into the pool gets; the handle
    /// that names nothing if the pool is full.
    pub open spec fn next_handle(&self) -> Handle {
        if self.free@.len() > 0 {
            Handle {
                index: self.free@.last(),
                generation: (self.records@[self.free@.last() as int].generation + 1) as u32,
            }
        } else if self.records@.len() < u32::MAX {
            Handle { index: self.records@.len() as u32, generation: 1 }
        } else {
            Handle::spec_none()
        }
    }

    /// Whether `after` is this pool after `payload` was put into it.
    pub open spec fn spawned(&self, payload: T, after: &Pool<T>) -> bool {
        self.grown(after) && (!self.next_handle().spec_is_none() ==> after.value(
            self.next_handle(),
        ) == payload)
    }

    /// Whether `after` is this pool after some value was put into it: the
    /// value is there under the next handle, and everything else is as it
    /// was. A pool that was full is as it was.
    pub open spec fn grown(&self, after: &Pool<T>) -> bool {
        let handle = self.next_handle();
        if handle.spec_is_none() {
            after == self
        } else {
            &&& after.contains(handle)
            &&& after.records@.len() == (if self.free@.len() > 0 {
                self.records@.len()
            } else {
                self.records@.len() + 1
            })
            &&& forall|i: int|
                0 <= i < self.records@.len() && i != handle.index ==> #[trigger] after.records@[i]
                    == self.records@[i]
            &&& after.free@ == (if self.free@.len() > 0 {
                self.free@.drop_last()
            } else {
                self.free@
            })
        }
    }

    /// Whether `after` is this pool after the value that `handle` names
    /// was taken out of it.
    pub open spec fn freed(&self, handle: Handle, after: &Pool<T>) -> bool {
        if self.contains(handle) {
            &&& after.records@.len() == self.records@.len()
            &&& after.records@[handle.index as int] == (Record {
                generation: handle.generation,
                payload: None::<T>,
            })
            &&& forall|i: int|
                0 <= i < self.records@.len() && i != handle.index ==> #[trigger] after.records@[i]
                    == self.records@[i]
            &&& after.free@ == (if handle.generation < u32::MAX {
                self.free@.push(handle.index)
            } else {
                self.free@
            })
        } else {
            after == self
        }
    }

    /// An empty pool.
    pub fn new() -> (pool: Pool<T>)
        ensures
            pool.wf(),
            pool.records@.len() == 0,
            pool.free@.len() == 0,
            forall|h: Handle| !pool.contains(h),
    {
        Pool { records: Vec::new(), free: Vec::new() }
    }

    /// The number of slots, full and empty.
    pub fn capacity(&self) -> (count: usize)
        ensures
            count == self.records@.len(),
    {
        self.records.len()
    }

    /// Tells whether `handle` names a value in the pool.
    pub fn is_valid_handle(&self, handle: Handle) -> (valid: bool)
        ensures
            valid == self.contains(handle),
    {
        let i = handle.index as usize;
        i < self.records.len() && self.records[i].generation == handle.generation
            && self.records[i].payload.is_some()
    }

    /// Puts a value into the pool and gives its handle. The value goes into
    /// the free slot listed last, or into a new slot. A pool whose slots are
    /// all full and cannot be more takes nothing and gives the handle that
    /// names nothing.
    pub fn spawn(&mut self, payload: T) -> (handle: Handle)
        requires
            old(self).wf(),
        ensures
            final(self).wf(),
            handle == old(self).next_handle(),
            old(self).spawned(payload, final(self)),
            handle.spec_is_none() ==> *final(self) == *old(self),
            !handle.spec_is_none() ==> {
                &&& !old(self).issued(handle)
                &&& final(self).contains(handle)
                &&& final(self).value(handle) == payload
                &&& final(self).records@.len() == (if old(self).free@.len() > 0 {
                    old(self).records@.len()
                } else {
                    old(self).records@.len() + 1
                })
                &&& forall|i: int|
                    0 <= i < old(self).records@.len() && i != handle.index
                        ==> #[trigger] final(self).records@[i] == old(self).records@[i]
                &&& final(self).free@ == (if old(self).free@.len() > 0 {
                    old(self).free@.drop_last()
                } else {
                    old(self).free@
                })
            },
            forall|h: Handle| h != handle ==> final(self).contains(h) == old(self).contains(h),
            forall|h: Handle|
                old(self).contains(h) ==> final(self).value(h) == old(self).value(h),
            forall|h: Handle| old(self).stale(h) ==> final(self).stale(h),
    {
        if self.free.len() > 0 {
            let index = self.free.pop().unwrap();
            let i = index as usize;
            assert(old(self).free@[old(self).free@.len() - 1] == index);
            let generation = self.records[i].generation + 1;
            self.records[i].generation = generation;
            self.records[i].payload = Some(payload);
            proof {
                assert forall|j: int| 0 <= j < self.free@.len() implies (#[trigger] self.free@[j])
                    < self.records@.len() && self.records@[self.free@[j] as int].payload.is_none()
                    && self.records@[self.free@[j] as int].generation < u32::MAX by {
                    assert(self.free@[j] == old(self).free@[j]);
                    assert(old(self).free@[j] != old(self).free@[old(self).free@.len() - 1]);
                }
                assert forall|j: int, k: int| 0 <= j < k < self.free@.len() implies #[trigger] self.free@[j]
                    != #[trigger] self.free@[k] by {
                    assert(self.free@[j] == old(self).free@[j]);
                    assert(self.free@[k] == old(self).free@[k]);
                }
                assert(self.free@ =~= old(self).free@.drop_last());
            }
            Handle { index, generation }
        } else if self.records.len() < u32::MAX as usize {
            let index = self.records.len() as u32;
            self.records.push(Record { generation: 1, payload: Some(payload) });
            Handle { index, generation: 1 }
        } else {
            Handle { index: 0, generation: 0 }
        }
    }

    /// Takes the value that `handle` names out of the pool. A handle that
    /// names nothing in the pool takes nothing out.
    pub fn free(&mut self, handle: Handle) -> (payload: Option<T>)
        requires
            old(self).wf(),
        ensures
            final(self).wf(),
            old(self).freed(handle, final(self)),
            match payload {
                Some(value) => old(self).contains(handle) && value == old(self).value(handle),
                None => !old(self).contains(handle) && *final(self) == *old(self),
            },
            !final(self).contains(handle),
            final(self).records@.len() == old(self).records@.len(),
            final(self).free@ == (if old(self).contains(handle) && handle.generation < u32::MAX {
                old(self).free@.push(handle.index)
            } else {
                old(self).free@
            }),
            old(self).contains(handle) ==> final(self).records@[handle.index as int] == (Record {
                generation: handle.generation,
                payload: None::<T>,
            }),
            forall|i: int|
                0 <= i < old(self).records@.len() && i != handle.index
                    ==> #[trigger] final(self).records@[i] == old(self).records@[i],
            forall|h: Handle| h != handle ==> final(self).contains(h) == old(self).contains(h),
            forall|h: Handle|
                final(self).contains(h) ==> final(self).value(h) == old(self).value(h),
            forall|h: Handle| old(self).stale(h) ==> final(self).stale(h),
            old(self).contains(handle) ==> final(self).stale(handle),
    {
        let i = handle.index as usize;
        if i < self.records.len() && self.records[i].generation == handle.generation
            && self.records[i].payload.is_some() {
            let payload = self.records[i].payload.take();
            if handle.generation < u32::MAX {
                self.free.push(handle.index);
                proof {
                    assert forall|j: int, k: int| 0 <= j < k < self.free@.len() implies #[trigger] self.free@[j]
                        != #[trigger] self.free@[k] by {
                        if k == self.free@.len() - 1 {
                            assert(self.free@[j] == old(self).free@[j]);
                            assert(old(self).records@[old(self).free@[j] as int].payload.is_none());
                        } else {
                            assert(self.free@[j] == old(self).free@[j]);
                            assert(self.free@[k] == old(self).free@[k]);
                        }
                    }
                    assert forall|j: int| 0 <= j < self.free@.len() implies (
                    #[trigger] self.free@[j]) < self.records@.len()
                        && self.records@[self.free@[j] as int].payload.is_none()
                        && self.records@[self.free@[j] as int].generation < u32::MAX by {
                        if j < self.free@.len() - 1 {
                            assert(self.free@[j] == old(self).free@[j]);
                        }
                    }
                }
            } else {
                proof {
                    assert forall|j: int| 0 <= j < self.free@.len() implies (
                    #[trigger] self.free@[j]) < self.records@.len()
                        && self.records@[self.free@[j] as int].payload.is_none()
                        && self.records@[self.free@[j] as int].generation < u32::MAX by {
                        assert(self.free@[j] == old(self).free@[j]);
                    }
                }
            }
            payload
        } else {
            None
        }
    }

    /// The value that `handle` names, if it names one.
    pub fn try_borrow(&self, handle: Handle) -> (value: Option<&T>)
        ensures
            match value {
                Some(v) => self.contains(handle) && *v == self.value(handle),
                None => !self.contains(handle),
            },
    {
        let i = handle.index as usize;
        if i < self.records.len() && self.records[i].generation == handle.generation {
            self.records[i].payload.as_ref()
        } else {
            None
        }
    }

    /// The value that `handle` names, to be changed in its place.
    pub fn try_borrow_mut(&mut self, handle: Handle) -> (value: Option<&mut T>)
        requires
            old(self).wf(),
        ensures
            match value {
                Some(v) => {
                    &&& old(self).contains(handle)
                    &&& *v == old(self).value(handle)
                    &&& final(self).free == old(self).free
                    &&& final(self).records@ == old(self).records@.update(
                        handle.index as int,
                        Record { generation: handle.generation, payload: Some(*final(v)) },
                    )
                },
                None => !old(self).contains(handle) && *final(self) == *old(self),
            },
    {
        let i = handle.index as usize;
        if i < self.records.len() && self.records[i].generation == handle.generation
            && self.records[i].payload.is_some() {
            match &mut self.records[i].payload {
                Some(v) => Some(v),
                None => None,
            }
        } else {
            None
        }
    }

    /// The handle of the value in slot `i`, if the slot holds one.
    pub fn handle_at(&self, i: usize) -> (handle: Option<Handle>)
        requires
            self.wf(),
        ensures
            handle == self.spec_handle_at(i as int),
            handle matches Some(h) ==> self.contains(h) && h.index == i,
    {
        if i < self.records.len() && self.records[i].payload.is_some() {
            Some(Handle { index: i as u32, generation: self.records[i].generation })
        } else {
            None
        }
    }

    /// The value in slot `i`, if the slot holds one.
    pub fn at(&self, i: usize) -> (value: Option<&T>)
        ensures
            match value {
                Some(v) => i < self.records@.len() && self.records@[i as int].payload == Some(*v),
                None => i >= self.records@.len() || self.records@[i as int].payload.is_none(),
            },
    {
        if i < self.records.len() {
            self.records[i].payload.as_ref()
        } else {
            None
        }
    }

    /// A pool in which one value was changed in its place is sound, holds
    /// what it held, and holds the changed value under the same handle.
    pub proof fn lemma_changed_in_place(&self, after: &Pool<T>, handle: Handle, value: T)
        requires
            self.wf(),
            self.contains(handle),
            after.free == self.free,
            after.records@ == self.records@.update(
                handle.index as int,
                Record { generation: handle.generation, payload: Some(value) },
            ),
        ensures
            after.wf(),
            self.same_but_value(after, handle),
            after.value(handle) == value,
            forall|h: Handle| after.contains(h) == self.contains(h),
            forall|h: Handle| h != handle && self.contains(h) ==> after.value(h) == self.value(h),
            forall|h: Handle| self.stale(h) ==> after.stale(h),
            forall|i: int| after.spec_handle_at(i) == self.spec_handle_at(i),
    {
        assert forall|j: int| 0 <= j < after.free@.len() implies (#[trigger] after.free@[j])
            < after.records@.len() && after.records@[after.free@[j] as int].payload.is_none()
            && after.records@[after.free@[j] as int].generation < u32::MAX by {
            assert(self.free@[j] < self.records@.len());
        }
        assert forall|h: Handle| h != handle && self.contains(h) implies after.value(h)
            == self.value(h) by {
            assert(h.index != handle.index);
        }
    }

    /// Tells whether the pool is sound.
    pub fn check(&self) -> (sound: bool)
        ensures
            sound == self.wf(),
    {
        let count = self.records.len();
        if count > u32::MAX as usize {
            return false;
        }
        let mut i: usize = 0;
        while i < count
            invariant
                i <= count,
                count == self.records@.len(),
                forall|k: int|
                    0 <= k < i && (#[trigger] self.records@[k]).payload.is_some()
                        ==> self.records@[k].generation >= 1,
            decreases count - i,
        {
            if self.records[i].payload.is_some() && self.records[i].generation == 0 {
                return false;
            }
            i += 1;
        }
        let mut listed: Vec<bool> = Vec::new();
        let mut i: usize = 0;
        while i < count
            invariant
                i <= count,
                listed@.len() == i,
                forall|k: int| 0 <= k < i ==> !listed@[k],
            decreases count - i,
        {
            listed.push(false);
            i += 1;
        }
        let mut j: usize = 0;
        while j < self.free.len()
            invariant
                j <= self.free@.len(),
                count == self.records@.len(),
                listed@.len() == count,
                forall|k: int|
                    0 <= k < j ==> (#[trigger] self.free@[k]) < count
                        && self.records@[self.free@[k] as int].payload.is_none()
                        && self.records@[self.free@[k] as int].generation < u32::MAX,
                forall|a: int, b: int|
                    0 <= a < b < j ==> #[trigger] self.free@[a] != #[trigger] self.free@[b],
                forall|slot: int|
                    0 <= slot < count ==> (#[trigger] listed@[slot] <==> exists|k: int|
                        0 <= k < j && self.free@[k] == slot),
            decreases self.free@.len() - j,
        {
            let slot = self.free[j] as usize;
            if slot >= count {
                return false;
            }
            if self.records[slot].payload.is_some() || self.records[slot].generation == u32::MAX {
                return false;
            }
            if listed[slot] {
                proof {
                    let k = choose|k: int| 0 <= k < j && self.free@[k] == slot;
                    assert(self.free@[k] == self.free@[j as int]);
                }
                return false;
            }
            let ghost before = listed@;
            listed.set(slot, true);
            proof {
                assert forall|other: int| 0 <= other < count implies (#[trigger] listed@[other]
                    <==> exists|k: int| 0 <= k < j + 1 && self.free@[k] == other) by {
                    if other == slot {
                        assert(self.free@[j as int] == other);
                    } else {
                        if before[other] {
                            let k = choose|k: int| 0 <= k < j && self.free@[k] == other;
                            assert(0 <= k < j + 1 && self.free@[k] == other);
                        }
                        if exists|k: int| 0 <= k < j + 1 && self.free@[k] == other {
                            let k = choose|k: int| 0 <= k < j + 1 && self.free@[k] == other;
                            assert(k < j);
                            assert(before[other]);
                        }
                    }
                }
                assert forall|a: int, b: int| 0 <= a < b < j + 1 implies #[trigger] self.free@[a]
                    != #[trigger] self.free@[b] by {
                    if b == j {
                        if self.free@[a] == self.free@[b] {
                            assert(0 <= a < j && self.free@[a] == slot);
                            assert(before[slot as int]);
                        }
                    }
                }
            }
            j += 1;
        }
        true
    }

    /// The handle that names nothing is in no pool.
    pub proof fn lemma_none_is_nowhere(&self)
        requires
            self.wf(),
        ensures
            !self.contains(Handle::spec_none()),
    {
    }
}

/// Something that ages from frame to frame and may be spent.
pub trait Timed: Sized {
    /// This thing after a frame of `dt` milliseconds.
    spec fn aged(&self, dt: u32) -> Self;

    /// Whether this thing is spent and leaves its pool.
    spec fn spent(&self) -> bool;

    /// Computes this thing after a frame of `dt` milliseconds.
    fn age(&self, dt: u32) -> (after: Self)
        ensures
            after == self.aged(dt),
    ;

    /// Tells whether this thing is spent.
    fn is_spent(&self) -> (spent: bool)
        ensures
            spent == self.spent(),
    ;
}

/// What a slot holds after a frame: the value it held, aged, unless that is
/// spent.
pub open spec fn aged_payload<T: Timed>(payload: Option<T>, dt: u32) -> Option<T> {
    match payload {
        Some(value) => if value.aged(dt).spent() {
            None
        } else {
            Some(value.aged(dt))
        },
        None => None,
    }
}

/// The numbers of the slots before `upto` that a frame empties and that
/// can be filled again, in rising order.
pub open spec fn spent_slots<T: Timed>(records: Seq<Record<T>>, dt: u32, upto: int) -> Seq<u32>
    decreases upto,
{
    if upto <= 0 {
        Seq::empty()
    } else {
        let before = spent_slots(records, dt, upto - 1);
        let record = records[upto - 1];
        if record.payload.is_some() && record.payload.unwrap().aged(dt).spent() && record.generation
            < u32::MAX {
            before.push((upto - 1) as u32)
        } else {
            before
        }
    }
}

/// Whether `after` is the pool `before` after a frame of `dt`: every value
/// has aged, the spent ones have left, and their slots are free again.
pub open spec fn pool_aged<T: Timed>(before: Pool<T>, dt: u32, after: Pool<T>) -> bool {
    &&& after.records@.len() == before.records@.len()
    &&& forall|i: int|
        0 <= i < before.records@.len() ==> (#[trigger] after.records@[i]).generation
            == before.records@[i].generation && after.records@[i].payload == aged_payload(
            before.records@[i].payload,
            dt,
        )
    &&& after.free@ == before.free@ + spent_slots(
        before.records@,
        dt,
        before.records@.len() as int,
    )
}

impl<T: Timed> Pool<T> {
    /// Takes every value of the pool through a frame of `dt` milliseconds
    /// and takes out those that are spent.
    pub fn age(&mut self, dt: u32)
        requires
            old(self).wf(),
        ensures
            final(self).wf(),
            pool_aged(*old(self), dt, *final(self)),
    {
        let count = self.records.len();
        let mut i: usize = 0;
        while i < count
            invariant
                i <= count,
                count == old(self).records@.len(),
                self.wf(),
                self.records@.len() == count,
                forall|k: int|
                    0 <= k < i ==> (#[trigger] self.records@[k]).generation == old(
                        self,
                    ).records@[k].generation && self.records@[k].payload == aged_payload(
                        old(self).records@[k].payload,
                        dt,
                    ),
                forall|k: int| i <= k < count ==> #[trigger] self.records@[k] == old(self).records@[k],
                self.free@ == old(self).free@ + spent_slots(old(self).records@, dt, i as int),
            decreases count - i,
        {
            let ghost before = *self;
            let generation = self.records[i].generation;
            let aged: Option<T> = match &self.records[i].payload {
                Some(value) => Some(value.age(dt)),
                None => None,
            };
            match aged {
                Some(value) => {
                    if value.is_spent() {
                        let handle = Handle { index: i as u32, generation };
                        let gone = self.free(handle);
                        proof {
                            assert(self.free@ =~= old(self).free@ + spent_slots(
                                old(self).records@,
                                dt,
                                i + 1,
                            ));
                        }
                    } else {
                        self.records[i].payload = Some(value);
                        proof {
                            assert forall|j: int| 0 <= j < self.free@.len() implies (
                            #[trigger] self.free@[j]) < self.records@.len()
                                && self.records@[self.free@[j] as int].payload.is_none()
                                && self.records@[self.free@[j] as int].generation < u32::MAX by {
                                assert(before.free@[j] < before.records@.len());
                            }
                        }
                    }
                },
                None => {},
            }
            i += 1;
        }
    }
}

} // verus!
