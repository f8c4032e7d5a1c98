//! The hybrid container: a tagged union over an inline fixed-capacity buffer
//! and a heap-backed growable buffer.
//!
//! A `LocalStorageVec<T, N>` starts in the `Stack` state, where a buffer of
//! exactly `N` slots holds the first `len` logical elements and every unused
//! slot still holds a valid placeholder value of `T`. The moment an operation
//! needs more than `N` elements the container spills into the `Heap` state and
//! never returns to `Stack`.

use vstd::prelude::*;

verus! {

use vstd::slice::slice_index_get;
use vstd::slice::slice_subrange;
use vstd::std_specs::vec::vec_index_mut;

/// Relies on std's `From<[T; M]> for Vec<T>`: the array's elements move into
/// the vector, in order.
#[verifier::external_body]
fn array_into_vec<T, const M: usize>(array: [T; M]) -> (v: Vec<T>)
    ensures
        v@ == array@,
{
    Vec::from(array)
}

/// The container. `view()` gives the logical contents as a sequence,
/// regardless of which representation is active.
pub enum LocalStorageVec<T, const N: usize> {
    /// Heap-backed growable storage; the whole buffer is logically present.
    Heap(Vec<T>),
    /// Inline storage: a buffer of exactly `N` slots of which only the first
    /// `len` are logically present. The buffer is a vector whose length
    /// `wf()` pins to `N`, not a `[T; N]`: an array of placeholder-padded
    /// slots cannot be built from a moved fixed-size sequence for the
    /// non-`Copy` element types the conversions and iterators support, so
    /// fixed capacity is an invariant here rather than a type.
    Stack { buf: Vec<T>, len: usize },
}

impl<T, const N: usize> View for LocalStorageVec<T, N> {
    type V = Seq<T>;

    open spec fn view(&self) -> Seq<T> {
        match self {
            LocalStorageVec::Heap(items) => items@,
            LocalStorageVec::Stack { buf, len } => buf@.take(*len as int),
        }
    }
}

impl<T, const N: usize> LocalStorageVec<T, N> {
    /// Well-formedness: the inline buffer always holds exactly `N` slots and
    /// the logical length never exceeds the capacity.
    pub open spec fn wf(&self) -> bool {
        match self {
            LocalStorageVec::Heap(_) => true,
            LocalStorageVec::Stack { buf, len } => buf@.len() == N && *len <= N,
        }
    }

    /// True in the heap-backed state.
    pub open spec fn is_heap(&self) -> bool {
        self is Heap
    }
}

impl<T: Copy + core::default::Default, const N: usize> LocalStorageVec<T, N> {
    /// An empty inline container: every slot holds the placeholder value.
    pub fn new() -> (r: Self)
        ensures
            r.wf(),
            !r.is_heap(),
            r@ == Seq::<T>::empty(),
    {
        let mut buf: Vec<T> = Vec::new();
        while buf.len() < N
            invariant
                buf@.len() <= N,
            decreases N - buf@.len(),
        {
            buf.push(T::default());
        }
        LocalStorageVec::Stack { buf, len: 0 }
    }

    /// The current logical element count.
    pub fn len(&self) -> (r: usize)
        requires
            self.wf(),
        ensures
            r == self@.len(),
    {
        match self {
            LocalStorageVec::Heap(items) => items.len(),
            LocalStorageVec::Stack { len, .. } => *len,
        }
    }

    /// Appends at the logical end. An inline container with room keeps its
    /// representation; a full inline container spills to the heap, exactly
    /// once, preserving order; a heap container just grows.
    pub fn push(&mut self, item: T)
        requires
            old(self).wf(),
        ensures
            final(self).wf(),
            final(self)@ == old(self)@.push(item),
            final(self).is_heap() <==> (old(self).is_heap() || old(self)@.len() == N as int),
    {
        match self {
            LocalStorageVec::Heap(items) => items.push(item),
            LocalStorageVec::Stack { buf, len } => {
                if *len >= N {
                    let mut items: Vec<T> = Vec::new();
                    core::mem::swap(buf, &mut items);
                    items.push(item);
                    proof {
                        assert(items@.take(items@.len() - 1) =~= items@.drop_last());
                    }
                    *self = LocalStorageVec::Heap(items);
                } else {
                    buf[*len] = item;
                    *len += 1;
                    proof {
                        assert(buf@.take(*len as int) =~= buf@.take(*len - 1).push(item));
                    }
                }
            },
        }
    }

    /// Removes and returns the logical last element; `None` on an empty
    /// container. An inline container resets the vacated slot to the
    /// placeholder value.
    pub fn pop(&mut self) -> (r: Option<T>)
        requires
            old(self).wf(),
        ensures
            final(self).wf(),
            final(self).is_heap() <==> old(self).is_heap(),
            old(self)@.len() == 0 ==> r is None && final(self)@ == old(self)@,
            old(self)@.len() > 0 ==> r == Some(old(self)@.last()) && final(self)@ == old(
                self,
            )@.drop_last(),
    {
        match self {
            LocalStorageVec::Heap(items) => items.pop(),
            LocalStorageVec::Stack { buf, len } => {
                if *len == 0 {
                    return None;
                }
                *len -= 1;
                let p = buf.remove(*len);
                buf.push(T::default());
                proof {
                    assert(buf@.take(*len as int) =~= old(self)@.drop_last());
                    assert(p == old(self)@.last());
                }
                Some(p)
            },
        }
    }

    /// Inserts `item` at `index`, shifting the elements at or after `index`
    /// one position later. A full inline container spills to the heap first;
    /// an inline index at or beyond the fixed capacity is ruled out.
    pub fn insert(&mut self, index: usize, item: T)
        requires
            old(self).wf(),
            index <= old(self)@.len(),
            !old(self).is_heap() ==> index < N,
        ensures
            final(self).wf(),
            final(self)@ == old(self)@.insert(index as int, item),
            final(self).is_heap() <==> (old(self).is_heap() || old(self)@.len() == N as int),
    {
        match self {
            LocalStorageVec::Heap(items) => items.insert(index, item),
            LocalStorageVec::Stack { buf, len } => {
                if *len >= N {
                    let mut items: Vec<T> = Vec::new();
                    core::mem::swap(buf, &mut items);
                    items.insert(index, item);
                    proof {
                        assert(old(self)@ =~= old(self)->Stack_buf@);
                    }
                    *self = LocalStorageVec::Heap(items);
                } else {
                    buf.insert(index, item);
                    let _ = buf.pop();
                    *len += 1;
                    proof {
                        assert(buf@.take(*len as int) =~= old(self)@.insert(index as int, item));
                    }
                }
            },
        }
    }

    /// Removes and returns the element at `index`, shifting later elements
    /// one position earlier. An index equal to the logical length removes the
    /// last element, as `pop` would; that leniency is inline-only, so a
    /// heap-backed container demands `index` strictly below the length.
    pub fn remove(&mut self, index: usize) -> (r: T)
        requires
            old(self).wf(),
            old(self)@.len() > 0,
            index <= old(self)@.len(),
            old(self).is_heap() ==> index < old(self)@.len(),
        ensures
            final(self).wf(),
            final(self).is_heap() <==> old(self).is_heap(),
            index < old(self)@.len() ==> r == old(self)@[index as int] && final(self)@ == old(
                self,
            )@.remove(index as int),
            index == old(self)@.len() ==> r == old(self)@.last() && final(self)@ == old(
                self,
            )@.drop_last(),
    {
        match self {
            LocalStorageVec::Heap(items) => items.remove(index),
            LocalStorageVec::Stack { buf, len } => {
                if index == *len {
                    *len -= 1;
                    let p = buf.remove(*len);
                    buf.push(T::default());
                    proof {
                        assert(buf@.take(*len as int) =~= old(self)@.drop_last());
                    }
                    p
                } else {
                    let removed = buf.remove(index);
                    buf.push(T::default());
                    *len -= 1;
                    proof {
                        assert(buf@.take(*len as int) =~= old(self)@.remove(index as int));
                    }
                    removed
                }
            },
        }
    }

    /// Resets the logical length to zero. The representation is kept: a heap
    /// container stays heap-backed, an inline container refills every slot
    /// with the placeholder value.
    pub fn clear(&mut self)
        requires
            old(self).wf(),
        ensures
            final(self).wf(),
            final(self).is_heap() <==> old(self).is_heap(),
            final(self)@ == Seq::<T>::empty(),
    {
        match self {
            LocalStorageVec::Heap(items) => items.clear(),
            LocalStorageVec::Stack { buf, len } => {
                buf.clear();
                while buf.len() < N
                    invariant
                        buf@.len() <= N,
                    decreases N - buf@.len(),
                {
                    buf.push(T::default());
                }
                *len = 0;
            },
        }
    }
}

impl<T: core::default::Default, const N: usize> LocalStorageVec<T, N> {
    /// Builds a container from a fixed-size sequence: inline when the `M`
    /// elements fit the capacity (the remaining slots are filled with the
    /// placeholder value), heap-backed otherwise. Order is preserved either
    /// way.
    pub fn from_array<const M: usize>(array: [T; M]) -> (r: Self)
        ensures
            r.wf(),
            r@ == array@,
            r.is_heap() <==> M as int > N as int,
    {
        let ghost contents = array@;
        let mut v = array_into_vec(array);
        if v.len() <= N {
            let m = v.len();
            while v.len() < N
                invariant
                    m <= v@.len() <= N,
                    v@.take(m as int) == contents,
                decreases N - v@.len(),
            {
                v.push(T::default());
                proof {
                    assert(v@.take(m as int) =~= v@.drop_last().take(m as int));
                }
            }
            LocalStorageVec::Stack { buf: v, len: m }
        } else {
            LocalStorageVec::Heap(v)
        }
    }
}

impl<T, const N: usize> LocalStorageVec<T, N> {
    /// Wraps an existing growable sequence: always heap-backed, whatever its
    /// length, preserving order and length.
    pub fn from_vec(items: Vec<T>) -> (r: Self)
        ensures
            r.wf(),
            r.is_heap(),
            r@ == items@,
    {
        LocalStorageVec::Heap(items)
    }

    /// Read-only access to the element at `index`; the same logical sequence
    /// is addressed in both representations.
    pub fn index(&self, index: usize) -> (r: &T)
        requires
            self.wf(),
            index < self@.len(),
        ensures
            *r == self@[index as int],
    {
        match self {
            LocalStorageVec::Heap(items) => &items[index],
            LocalStorageVec::Stack { buf, .. } => &buf[index],
        }
    }

    /// The end actually used by `slice_to`: a requested end past the logical
    /// length of an inline container is clamped to that length.
    pub open spec fn clamped_end(&self, end: int) -> int {
        if end <= self@.len() {
            end
        } else {
            self@.len() as int
        }
    }

    /// The slice form "from the start to an exclusive end". On an inline
    /// container an end beyond the logical length is clamped to it, a
    /// deliberate leniency of this one form; a heap-backed container demands
    /// an end within bounds.
    pub fn slice_to(&self, end: usize) -> (r: &[T])
        requires
            self.wf(),
            self.is_heap() ==> end <= self@.len(),
        ensures
            r@ == self@.take(self.clamped_end(end as int)),
    {
        match self {
            LocalStorageVec::Heap(items) => slice_subrange(items.as_slice(), 0, end),
            LocalStorageVec::Stack { buf, len } => {
                let e = if end > *len {
                    *len
                } else {
                    end
                };
                let r = slice_subrange(buf.as_slice(), 0, e);
                proof {
                    assert(r@ =~= self@.take(self.clamped_end(end as int)));
                }
                r
            },
        }
    }

    /// The slice form "from a start to the logical end".
    pub fn slice_from(&self, start: usize) -> (r: &[T])
        requires
            self.wf(),
            start <= self@.len(),
        ensures
            r@ == self@.skip(start as int),
    {
        match self {
            LocalStorageVec::Heap(items) => slice_subrange(items.as_slice(), start, items.len()),
            LocalStorageVec::Stack { buf, len } => {
                let r = slice_subrange(buf.as_slice(), start, *len);
                proof {
                    assert(r@ =~= self@.skip(start as int));
                }
                r
            },
        }
    }

    /// The slice form "from a start to an exclusive end".
    pub fn slice_range(&self, start: usize, end: usize) -> (r: &[T])
        requires
            self.wf(),
            start <= end,
            end <= self@.len(),
        ensures
            r@ == self@.subrange(start as int, end as int),
    {
        match self {
            LocalStorageVec::Heap(items) => slice_subrange(items.as_slice(), start, end),
            LocalStorageVec::Stack { buf, .. } => {
                let r = slice_subrange(buf.as_slice(), start, end);
                proof {
                    assert(r@ =~= self@.subrange(start as int, end as int));
                }
                r
            },
        }
    }

    /// The logical contents as a flat read-only view.
    pub fn as_ref(&self) -> (r: &[T])
        requires
            self.wf(),
        ensures
            r@ == self@,
    {
        match self {
            LocalStorageVec::Heap(items) => items.as_slice(),
            LocalStorageVec::Stack { buf, len } => {
                let r = slice_subrange(buf.as_slice(), 0, *len);
                proof {
                    assert(r@ =~= self@);
                }
                r
            },
        }
    }

    /// The logical contents as a flat mutable view: writes through the
    /// returned slice land in the container. A mutable slice cannot change
    /// its length, so the stated consequences are phrased under that fact.
    pub fn as_mut(&mut self) -> (r: &mut [T])
        requires
            old(self).wf(),
        ensures
            r@ == old(self)@,
            final(self).is_heap() <==> old(self).is_heap(),
            old(self).is_heap() ==> final(self)@ == final(r)@,
            final(r)@.len() == old(self)@.len() ==> final(self)@ == final(r)@ && final(self).wf(),
    {
        match self {
            LocalStorageVec::Heap(items) => items.as_mut_slice(),
            LocalStorageVec::Stack { buf, len } => {
                let (front, _) = buf.as_mut_slice().split_at_mut(*len);
                proof {
                    assert(front@ =~= old(self)@);
                }
                front
            },
        }
    }

    /// A borrowing iterator over the logical contents at the time of the
    /// call; the container is only read and outlives the iterator.
    pub fn iter<'a>(&'a self) -> (it: LocalStorageVecBorrowIter<'a, T, N>)
        requires
            self.wf(),
        ensures
            it.slice@ == self@,
            it.counter == 0,
    {
        match self {
            LocalStorageVec::Heap(items) => LocalStorageVecBorrowIter {
                slice: items.as_slice(),
                counter: 0,
            },
            LocalStorageVec::Stack { buf, len } => {
                let slice = slice_subrange(buf.as_slice(), 0, *len);
                proof {
                    assert(slice@ =~= self@);
                }
                LocalStorageVecBorrowIter { slice, counter: 0 }
            },
        }
    }
}

/// A lazy, finite, single-pass iterator of read-only references into the
/// representation that was active when it was created.
pub struct LocalStorageVecBorrowIter<'a, T, const N: usize> {
    pub slice: &'a [T],
    pub counter: usize,
}

impl<'a, T, const N: usize> LocalStorageVecBorrowIter<'a, T, N> {
    /// Yields a reference to the element at the cursor and advances; reports
    /// exhaustion forever once the cursor has reached the view's length.
    pub fn next(&mut self) -> (r: Option<&'a T>)
        ensures
            final(self).slice == old(self).slice,
            old(self).counter < old(self).slice@.len() ==> {
                &&& final(self).counter == old(self).counter + 1
                &&& r matches Some(item) && *item == old(self).slice@[old(self).counter as int]
            },
            old(self).counter >= old(self).slice@.len() ==> r is None && *final(self) == *old(self),
    {
        if self.counter < self.slice.len() {
            let item = slice_index_get(self.slice, self.counter);
            self.counter += 1;
            Some(item)
        } else {
            None
        }
    }
}

/// A lazy, finite, single-pass iterator that owns the container and moves
/// elements out of it, leaving the placeholder value in each vacated slot.
pub struct LocalStorageVecIter<T, const N: usize> {
    pub vec: LocalStorageVec<T, N>,
    pub counter: usize,
}

impl<T: core::default::Default, const N: usize> LocalStorageVec<T, N> {
    /// Hands the container to a consuming iterator with its cursor at zero.
    pub fn into_iter(self) -> (it: LocalStorageVecIter<T, N>)
        ensures
            it.vec == self,
            it.counter == 0,
    {
        LocalStorageVecIter { vec: self, counter: 0 }
    }
}

impl<T: core::default::Default, const N: usize> LocalStorageVecIter<T, N> {
    /// Moves the element at the cursor out, leaving the placeholder value in
    /// its slot, and advances the cursor: by one on a heap-backed container,
    /// twice on an inline one (clamped to the logical length). The double
    /// advance is an intentional quirk of the inline path: it produces only
    /// every other inline element. Exhaustion is permanent.
    pub fn next(&mut self) -> (r: Option<T>)
        requires
            old(self).vec.wf(),
        ensures
            final(self).vec.wf(),
            final(self).vec.is_heap() <==> old(self).vec.is_heap(),
            old(self).counter >= old(self).vec@.len() ==> r is None && *final(self) == *old(self),
            old(self).counter < old(self).vec@.len() ==> {
                &&& r == Some(old(self).vec@[old(self).counter as int])
                &&& final(self).vec@.len() == old(self).vec@.len()
                &&& forall|j: int|
                    0 <= j < old(self).vec@.len() && j != old(self).counter as int
                        ==> final(self).vec@[j] == old(self).vec@[j]
                &&& old(self).vec.is_heap() ==> final(self).counter == old(self).counter + 1
                &&& !old(self).vec.is_heap() && old(self).counter + 2 <= old(self).vec@.len()
                    ==> final(self).counter == old(self).counter + 2
                &&& !old(self).vec.is_heap() && old(self).counter + 2 > old(self).vec@.len()
                    ==> final(self).counter as int == old(self).vec@.len()
            },
    {
        match &mut self.vec {
            LocalStorageVec::Heap(items) => {
                if self.counter < items.len() {
                    let mut tmp = T::default();
                    core::mem::swap(vec_index_mut(items, self.counter), &mut tmp);
                    self.counter += 1;
                    Some(tmp)
                } else {
                    None
                }
            },
            LocalStorageVec::Stack { buf, len } => {
                if self.counter < *len {
                    let mut tmp = T::default();
                    core::mem::swap(vec_index_mut(buf, self.counter), &mut tmp);
                    self.counter += 1;
                    if self.counter < *len {
                        self.counter += 1;
                    }
                    Some(tmp)
                } else {
                    None
                }
            },
        }
    }
}

/// Law: a push followed by a pop is a net identity. Over the contents
/// sequence that `push` and `pop` promise, popping after pushing `x` returns
/// exactly `x` and restores the sequence, so the length change over the pair
/// is zero.
pub proof fn lemma_push_then_pop<T>(s: Seq<T>, x: T)
    ensures
        s.push(x).len() == s.len() + 1,
        s.push(x).last() == x,
        s.push(x).drop_last() == s,
{
    assert(s.push(x).drop_last() =~= s);
}

/// Law: inserting `x` at position `i` and then removing at `i` returns `x`
/// and restores the original sequence, for any `i` up to the length. This is
/// the composition of the contents sequences that `insert` and `remove`
/// promise.
pub proof fn lemma_insert_then_remove<T>(s: Seq<T>, i: int, x: T)
    requires
        0 <= i <= s.len(),
    ensures
        s.insert(i, x)[i] == x,
        s.insert(i, x).remove(i) == s,
{
    assert(s.insert(i, x).remove(i) =~= s);
}

} // verus!
