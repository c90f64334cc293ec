use vstd::prelude::*;
use vstd::std_specs::iter::IteratorSpec;

verus! {

/// A growable list that keeps up to `N` items in an inline buffer and moves
/// them to a heap vector once it outgrows that buffer.
pub enum LocalStorageVec<T, const N: usize> {
    Stack { buf: [T; N], len: usize },
    Heap(Vec<T>),
}

impl<T, const N: usize> View for LocalStorageVec<T, N> {
    type V = Seq<T>;

    /// The live items, in order: the first `len` slots of the inline buffer,
    /// or the whole heap vector.
    open spec fn view(&self) -> Seq<T> {
        match self {
            LocalStorageVec::Stack { buf, len } => buf@.subrange(0, *len as int),
            LocalStorageVec::Heap(v) => v@,
        }
    }
}

/// Moves the item at `i` out of `buf`, leaving `filler` in its place.
fn take_slot<T, const N: usize>(buf: &mut [T; N], i: usize, filler: T) -> (r: T)
    requires
        i < N,
    ensures
        r == old(buf)@[i as int],
        final(buf)@ == old(buf)@.update(i as int, filler),
{
    let mut tmp = filler;
    core::mem::swap(&mut buf[i], &mut tmp);
    tmp
}

/// Relies on core::array::from_fn: an array whose every slot holds
/// `T::default()`. Nothing is known of the default value itself.
#[verifier::external_body]
fn default_array<T: Default, const N: usize>() -> (r: [T; N]) {
    core::array::from_fn(|_| T::default())
}

/// Moves the first `len` items of `buf` into a new vector, in order.
fn drain_prefix<T: Default, const N: usize>(buf: &mut [T; N], len: usize) -> (r: Vec<T>)
    requires
        len <= N,
    ensures
        r@ == old(buf)@.subrange(0, len as int),
{
    let mut v: Vec<T> = Vec::new();
    let mut i: usize = 0;
    while i < len
        invariant
            i <= len <= N,
            v@ == old(buf)@.subrange(0, i as int),
            forall|k: int| i <= k < N ==> buf@[k] == old(buf)@[k],
        decreases len - i,
    {
        let x = take_slot(buf, i, T::default());
        v.push(x);
        i = i + 1;
        assert(v@ =~= old(buf)@.subrange(0, i as int));
    }
    v
}

/// `s` cut into consecutive pieces of `k` items, the last possibly shorter.
pub open spec fn chunks_of<T>(s: Seq<T>, k: nat) -> Seq<Seq<T>>
    decreases s.len(),
{
    if s.len() == 0 || k == 0 {
        Seq::empty()
    } else if s.len() <= k {
        seq![s]
    } else {
        seq![s.take(k as int)] + chunks_of(s.skip(k as int), k)
    }
}

impl<T, const N: usize> LocalStorageVec<T, N> {
    /// An inline list never holds more live items than its buffer has slots.
    pub open spec fn wf(&self) -> bool {
        match self {
            LocalStorageVec::Stack { buf: _, len } => *len <= N,
            LocalStorageVec::Heap(_) => true,
        }
    }

    /// Whether the items live in the heap vector.
    pub open spec fn spilled(&self) -> bool {
        self is Heap
    }

    /// An empty list that keeps its items inline.
    pub fn new() -> (r: Self)
        where
            T: Default + Copy,
        ensures
            r.wf(),
            r@ == Seq::<T>::empty(),
            r matches LocalStorageVec::Stack { len, .. } && len == 0,
    {
        let r = LocalStorageVec::Stack { buf: [T::default(); N], len: 0 };
        assert(r@ =~= Seq::<T>::empty());
        r
    }

    /// The number of live items.
    pub fn len(&self) -> (r: usize)
        requires
            self.wf(),
        ensures
            r == self@.len(),
    {
        match self {
            LocalStorageVec::Stack { buf: _, len } => *len,
            LocalStorageVec::Heap(v) => v.len(),
        }
    }

    /// Moves the items of a full inline list to the heap; a heap list is
    /// left as it is.
    fn spill(&mut self)
        where
            T: Default,
        requires
            old(self).wf(),
        ensures
            final(self).wf(),
            final(self).spilled(),
            final(self)@ == old(self)@,
    {
        let mut tmp: LocalStorageVec<T, N> = LocalStorageVec::Heap(Vec::new());
        core::mem::swap(self, &mut tmp);
        match tmp {
            LocalStorageVec::Stack { mut buf, len } => {
                let v = drain_prefix(&mut buf, len);
                *self = LocalStorageVec::Heap(v);
            },
            LocalStorageVec::Heap(v) => {
                *self = LocalStorageVec::Heap(v);
            },
        }
    }

    /// Appends `value`; a full inline list moves to the heap first.
    pub fn push(&mut self, value: T)
        where
            T: Default,
        requires
            old(self).wf(),
        ensures
            final(self).wf(),
            final(self)@ == old(self)@.push(value),
            final(self).spilled() <==> (old(self).spilled() || old(self)@.len() == N),
    {
        let full = match self {
            LocalStorageVec::Stack { buf: _, len } => *len == N,
            LocalStorageVec::Heap(_) => false,
        };
        if full {
            self.spill();
        }
        match self {
            LocalStorageVec::Stack { buf, len } => {
                let ghost before = buf@;
                buf[*len] = value;
                *len = *len + 1;
                assert(buf@.subrange(0, *len as int) =~= before.subrange(0, *len - 1).push(value));
            },
            LocalStorageVec::Heap(v) => v.push(value),
        }
    }

    /// Removes and returns the last item, or `None` when the list is empty.
    /// The list never moves back inline.
    pub fn pop(&mut self) -> (r: Option<T>)
        where
            T: Default,
        requires
            old(self).wf(),
        ensures
            final(self).wf(),
            final(self).spilled() == old(self).spilled(),
            old(self)@.len() == 0 ==> r is None && final(self)@ == old(self)@,
            old(self)@.len() > 0 ==> r == Some(old(self)@.last())
                && final(self)@ == old(self)@.drop_last(),
    {
        match self {
            LocalStorageVec::Stack { buf, len } => {
                if *len == 0 {
                    return None;
                }
                let ghost before = buf@;
                *len = *len - 1;
                let x = take_slot(buf, *len, T::default());
                assert(buf@.subrange(0, *len as int) =~= before.subrange(0, *len as int));
                Some(x)
            },
            LocalStorageVec::Heap(v) => v.pop(),
        }
    }

    /// Inserts `value` at `index`, shifting the later items right; a full
    /// inline list moves to the heap first. An `index` past the end leaves
    /// the list as it is.
    pub fn insert(&mut self, index: usize, value: T)
        where
            T: Default,
        requires
            old(self).wf(),
        ensures
            final(self).wf(),
            index > old(self)@.len() ==> *final(self) == *old(self),
            index <= old(self)@.len() ==> final(self)@ == old(self)@.insert(index as int, value)
                && (final(self).spilled() <==> (old(self).spilled() || old(self)@.len() == N)),
    {
        if index > self.len() {
            return;
        }
        let full = match self {
            LocalStorageVec::Stack { buf: _, len } => *len == N,
            LocalStorageVec::Heap(_) => false,
        };
        if full {
            self.spill();
        }
        match self {
            LocalStorageVec::Stack { buf, len } => {
                let ghost before = buf@;
                let ghost n = *len as int;
                let mut j: usize = *len;
                while j > index
                    invariant
                        index <= j <= n < N,
                        buf@.len() == N,
                        forall|k: int| 0 <= k < j ==> buf@[k] == before[k],
                        forall|k: int| j < k <= n ==> buf@[k] == before[k - 1],
                    decreases j,
                {
                    let x = take_slot(buf, j - 1, T::default());
                    buf[j] = x;
                    j = j - 1;
                }
                buf[index] = value;
                *len = *len + 1;
                assert(buf@.subrange(0, *len as int) =~= before.subrange(0, n).insert(
                    index as int,
                    value,
                ));
            },
            LocalStorageVec::Heap(v) => v.insert(index, value),
        }
    }

    /// Removes and returns the item at `index`, shifting the later items left.
    /// The list never moves back inline.
    pub fn remove(&mut self, index: usize) -> (r: T)
        where
            T: Default,
        requires
            old(self).wf(),
            index < old(self)@.len(),
        ensures
            final(self).wf(),
            final(self).spilled() == old(self).spilled(),
            r == old(self)@[index as int],
            final(self)@ == old(self)@.remove(index as int),
    {
        match self {
            LocalStorageVec::Stack { buf, len } => {
                let ghost before = buf@;
                let ghost n = *len as int;
                let r = take_slot(buf, index, T::default());
                let mut j: usize = index;
                while j + 1 < *len
                    invariant
                        index <= j < n <= N,
                        *len == n,
                        buf@.len() == N,
                        forall|k: int| 0 <= k < index ==> buf@[k] == before[k],
                        forall|k: int| index <= k < j ==> buf@[k] == before[k + 1],
                        forall|k: int| j < k < n ==> buf@[k] == before[k],
                    decreases n - j,
                {
                    let x = take_slot(buf, j + 1, T::default());
                    buf[j] = x;
                    j = j + 1;
                }
                *len = *len - 1;
                assert(buf@.subrange(0, *len as int) =~= before.subrange(0, n).remove(
                    index as int,
                ));
                r
            },
            LocalStorageVec::Heap(v) => v.remove(index),
        }
    }

    /// Drops every item. A heap list stays on the heap.
    pub fn clear(&mut self)
        requires
            old(self).wf(),
        ensures
            final(self).wf(),
            final(self).spilled() == old(self).spilled(),
            final(self)@ == Seq::<T>::empty(),
    {
        match self {
            LocalStorageVec::Stack { buf: _, len } => {
                *len = 0;
            },
            LocalStorageVec::Heap(v) => v.clear(),
        }
        assert(self@ =~= Seq::<T>::empty());
    }

    /// A list that holds the items of `v`, on the heap.
    pub fn from_vec(v: Vec<T>) -> (r: Self)
        ensures
            r.wf(),
            r.spilled(),
            r@ == v@,
    {
        LocalStorageVec::Heap(v)
    }

    /// A list that holds the items of `array`, in order: inline when they fit
    /// in `N` slots, the unused slots holding default values; on the heap
    /// otherwise.
    pub fn from_array<const M: usize>(array: [T; M]) -> (r: Self)
        where
            T: Default,
        ensures
            r.wf(),
            r@ == array@,
            r.spilled() <==> M > N,
            r matches LocalStorageVec::Stack { len, .. } ==> len == M,
    {
        let ghost array_at_start = array;
        let mut array = array;
        if M <= N {
            let mut buf: [T; N] = default_array();
            let mut i: usize = 0;
            while i < M
                invariant
                    i <= M <= N,
                    buf@.len() == N,
                    forall|k: int| 0 <= k < i ==> buf@[k] == array_at_start@[k],
                    forall|k: int| i <= k < M ==> array@[k] == array_at_start@[k],
                decreases M - i,
            {
                let x = take_slot(&mut array, i, T::default());
                buf[i] = x;
                i = i + 1;
            }
            let r = LocalStorageVec::Stack { buf, len: M };
            assert(r@ =~= array_at_start@);
            r
        } else {
            let v = drain_prefix(&mut array, M);
            assert(v@ =~= array_at_start@);
            LocalStorageVec::Heap(v)
        }
    }

    /// The live items as a slice.
    pub fn as_ref(&self) -> (r: &[T])
        requires
            self.wf(),
        ensures
            r@ == self@,
    {
        match self {
            LocalStorageVec::Stack { buf, len } => &buf[0..*len],
            LocalStorageVec::Heap(v) => v.as_slice(),
        }
    }

    /// The live items as a mutable slice; what is written through it is what
    /// the list then holds.
    pub fn as_mut(&mut self) -> (r: &mut [T])
        requires
            old(self).wf(),
        ensures
            r@ == old(self)@,
            final(self).wf(),
            final(self).spilled() == old(self).spilled(),
            final(self)@ == final(r)@,
    {
        let n = self.len();
        match self {
            LocalStorageVec::Stack { buf, .. } => {
                let s: &mut [T] = buf;
                let (live, rest) = s.split_at_mut(n);
                proof {
                    assert((final(live)@ + final(rest)@).subrange(0, n as int) =~= final(live)@);
                }
                live
            },
            LocalStorageVec::Heap(v) => v.as_mut_slice(),
        }
    }

    /// An iterator over references to the live items, in order.
    pub fn iter(&self) -> (r: core::slice::Iter<'_, T>)
        requires
            self.wf(),
        ensures
            r.remaining() == self@.as_ref(),
    {
        self.as_ref().iter()
    }

    /// Consumes the list, handing out its live items in order. An inline
    /// length past the buffer, which a well-formed list never has, hands out
    /// the whole buffer.
    pub fn into_vec(self) -> (r: Vec<T>)
        where
            T: Default,
        ensures
            self.wf() ==> r@ == self@,
    {
        match self {
            LocalStorageVec::Stack { mut buf, len } => {
                let live = if len <= N {
                    len
                } else {
                    N
                };
                drain_prefix(&mut buf, live)
            },
            LocalStorageVec::Heap(v) => v,
        }
    }

    /// The live items cut into consecutive pieces of `chunk_size` items, the
    /// last piece possibly shorter.
    pub fn chunks(&self, chunk_size: usize) -> (r: Vec<&[T]>)
        requires
            self.wf(),
            chunk_size > 0,
        ensures
            r@.map_values(|c: &[T]| c@) == chunks_of(self@, chunk_size as nat),
    {
        let mut r: Vec<&[T]> = Vec::new();
        let mut rest: &[T] = self.as_ref();
        while rest.len() > 0
            invariant
                chunk_size > 0,
                r@.map_values(|c: &[T]| c@) + chunks_of(rest@, chunk_size as nat) == chunks_of(
                    self@,
                    chunk_size as nat,
                ),
            decreases rest@.len(),
        {
            let n: usize = if rest.len() < chunk_size {
                rest.len()
            } else {
                chunk_size
            };
            let (head, tail) = rest.split_at(n);
            proof {
                if rest@.len() <= chunk_size {
                    assert(head@ =~= rest@);
                    assert(tail@.len() == 0);
                } else {
                    assert(head@ =~= rest@.take(chunk_size as int));
                    assert(tail@ =~= rest@.skip(chunk_size as int));
                }
                assert(chunks_of(rest@, chunk_size as nat) =~= seq![head@] + chunks_of(
                    tail@,
                    chunk_size as nat,
                ));
                assert(r@.push(head).map_values(|c: &[T]| c@) =~= r@.map_values(|c: &[T]| c@).push(
                    head@,
                ));
            }
            r.push(head);
            rest = tail;
        }
        proof {
            assert(r@.map_values(|c: &[T]| c@) + chunks_of(rest@, chunk_size as nat) =~= r@.map_values(
                |c: &[T]| c@,
            ));
        }
        r
    }

    /// The live items cut into consecutive mutable pieces of `chunk_size`
    /// items, the last piece possibly shorter. What the pieces hold when they
    /// are given up, one after another, is what the list then holds.
    pub fn chunks_mut(&mut self, chunk_size: usize) -> (r: Vec<&mut [T]>)
        requires
            old(self).wf(),
            chunk_size > 0,
        ensures
            r@.map_values(|c: &mut [T]| c@) == chunks_of(old(self)@, chunk_size as nat),
            final(self).wf(),
            final(self).spilled() == old(self).spilled(),
            final(self)@ == r@.map_values(|c: &mut [T]| final(c)@).flatten(),
    {
        let mut r: Vec<&mut [T]> = Vec::new();
        let mut rest: &mut [T] = self.as_mut();
        let ghost written = final(rest)@;
        proof {
            assert(r@.map_values(|c: &mut [T]| final(c)@) =~= Seq::<Seq<T>>::empty());
            assert(r@.map_values(|c: &mut [T]| final(c)@).flatten() + final(rest)@ =~= final(rest)@);
        }
        while rest.len() > 0
            invariant
                chunk_size > 0,
                written == r@.map_values(|c: &mut [T]| final(c)@).flatten() + final(rest)@,
                r@.map_values(|c: &mut [T]| c@) + chunks_of(rest@, chunk_size as nat) == chunks_of(
                    old(self)@,
                    chunk_size as nat,
                ),
            decreases rest@.len(),
        {
            let n: usize = if rest.len() < chunk_size {
                rest.len()
            } else {
                chunk_size
            };
            let ghost whole = rest@;
            let cur = rest;
            let (head, tail) = cur.split_at_mut(n);
            proof {
                if whole.len() <= chunk_size {
                    assert(head@ =~= whole);
                    assert(tail@.len() == 0);
                } else {
                    assert(head@ =~= whole.take(chunk_size as int));
                    assert(tail@ =~= whole.skip(chunk_size as int));
                }
                assert(chunks_of(whole, chunk_size as nat) =~= seq![head@] + chunks_of(
                    tail@,
                    chunk_size as nat,
                ));
            }
            let ghost before = r@;
            let ghost head_items = head@;
            let ghost head_final = final(head)@;
            let ghost tail_final = final(tail)@;
            r.push(head);
            proof {
                assert(r@.map_values(|c: &mut [T]| final(c)@) =~= before.map_values(
                    |c: &mut [T]| final(c)@,
                ).push(head_final));
                before.map_values(|c: &mut [T]| final(c)@).lemma_flatten_push(head_final);
                assert(written =~= r@.map_values(|c: &mut [T]| final(c)@).flatten()
                    + tail_final);
                assert(r@.map_values(|c: &mut [T]| c@) =~= before.map_values(|c: &mut [T]| c@).push(
                    head_items,
                ));
            }
            rest = tail;
        }
        proof {
            assert(r@.map_values(|c: &mut [T]| c@) + chunks_of(rest@, chunk_size as nat) =~= r@.map_values(
                |c: &mut [T]| c@,
            ));
        }
        r
    }
}

impl<T, const N: usize> core::ops::Deref for LocalStorageVec<T, N> {
    type Target = [T];

    /// The live items as a slice, so that every slice method applies.
    fn deref(&self) -> (r: &[T])
        ensures
            self.wf() ==> r@ == self@,
    {
        match self {
            LocalStorageVec::Stack { buf, len } => {
                if *len <= N {
                    &buf[0..*len]
                } else {
                    buf.as_slice()
                }
            },
            LocalStorageVec::Heap(v) => v.as_slice(),
        }
    }
}

impl<T, const N: usize> core::ops::DerefMut for LocalStorageVec<T, N> {
    /// The live items as a mutable slice.
    fn deref_mut(&mut self) -> (r: &mut [T])
        ensures
            old(self).wf() ==> r@ == old(self)@ && final(self).wf() && final(self)@ == final(r)@,
    {
        let inline_fits = match self {
            LocalStorageVec::Stack { buf: _, len } => *len <= N,
            LocalStorageVec::Heap(_) => true,
        };
        if inline_fits {
            self.as_mut()
        } else {
            match self {
                LocalStorageVec::Stack { buf, len: _ } => buf,
                LocalStorageVec::Heap(v) => v.as_mut_slice(),
            }
        }
    }
}

impl<T: Default, const N: usize, const M: usize> From<[T; M]> for LocalStorageVec<T, N> {
    fn from(array: [T; M]) -> (r: Self)
        ensures
            r.wf(),
            r@ == array@,
            r.spilled() <==> M > N,
    {
        LocalStorageVec::from_array(array)
    }
}

impl<T: Default, const N: usize, const M: usize> vstd::std_specs::convert::FromSpecImpl<[T; M]> for LocalStorageVec<T, N> {
    /// The unused inline slots hold default values, which are not known, so
    /// the result is described by the `ensures` of `from` alone.
    open spec fn obeys_from_spec() -> bool {
        false
    }

    open spec fn from_spec(array: [T; M]) -> Self {
        vstd::pervasive::arbitrary()
    }
}

impl<T: Default, const N: usize> From<Vec<T>> for LocalStorageVec<T, N> {
    fn from(v: Vec<T>) -> (r: Self)
        ensures
            r.wf(),
            r.spilled(),
            r@ == v@,
    {
        LocalStorageVec::Heap(v)
    }
}

impl<T: Default, const N: usize> vstd::std_specs::convert::FromSpecImpl<Vec<T>> for LocalStorageVec<T, N> {
    open spec fn obeys_from_spec() -> bool {
        true
    }

    open spec fn from_spec(v: Vec<T>) -> Self {
        LocalStorageVec::Heap(v)
    }
}

impl<T, const N: usize> core::ops::Index<usize> for LocalStorageVec<T, N> {
    type Output = T;

    /// The item at `index`, which must be below the length.
    fn index(&self, index: usize) -> (r: &T)
        ensures
            *r == self@[index as int],
    {
        &self.as_ref()[index]
    }
}

impl<T, const N: usize> vstd::std_specs::core::IndexSpecImpl<usize> for LocalStorageVec<T, N> {
    open spec fn index_req(&self, index: &usize) -> bool {
        self.wf() && *index < self@.len()
    }
}

impl<T, const N: usize> core::ops::Index<core::ops::Range<usize>> for LocalStorageVec<T, N> {
    type Output = [T];

    /// The items at `range.start .. range.end`; the end may equal the length.
    fn index(&self, range: core::ops::Range<usize>) -> (r: &[T])
        ensures
            r@ == self@.subrange(range.start as int, range.end as int),
    {
        &self.as_ref()[range]
    }
}

impl<T, const N: usize> vstd::std_specs::core::IndexSpecImpl<core::ops::Range<usize>> for LocalStorageVec<T, N> {
    open spec fn index_req(&self, range: &core::ops::Range<usize>) -> bool {
        self.wf() && range.start <= range.end <= self@.len()
    }
}

impl<T: Default, const N: usize> IntoIterator for LocalStorageVec<T, N> {
    type Item = T;

    type IntoIter = std::vec::IntoIter<T>;

    /// Consumes the list into an iterator over its live items, in order.
    fn into_iter(self) -> (r: std::vec::IntoIter<T>)
        ensures
            self.wf() ==> r.remaining() == self@,
    {
        self.into_vec().into_iter()
    }
}

/// std's `..end` range; its one field is read.
#[verifier::external_type_specification]
#[verifier::reject_recursive_types(Idx)]
pub struct ExRangeTo<Idx>(core::ops::RangeTo<Idx>);

/// std's `start..` range; its one field is read.
#[verifier::external_type_specification]
#[verifier::reject_recursive_types(Idx)]
pub struct ExRangeFrom<Idx>(core::ops::RangeFrom<Idx>);

impl<T, const N: usize> core::ops::Index<core::ops::RangeTo<usize>> for LocalStorageVec<T, N> {
    type Output = [T];

    /// The first `range_to.end` items; the end may equal the length.
    fn index(&self, range_to: core::ops::RangeTo<usize>) -> (r: &[T])
        ensures
            r@ == self@.subrange(0, range_to.end as int),
    {
        &self.as_ref()[0..range_to.end]
    }
}

impl<T, const N: usize> vstd::std_specs::core::IndexSpecImpl<core::ops::RangeTo<usize>> for LocalStorageVec<T, N> {
    open spec fn index_req(&self, range_to: &core::ops::RangeTo<usize>) -> bool {
        self.wf() && range_to.end <= self@.len()
    }
}

impl<T, const N: usize> core::ops::Index<core::ops::RangeFrom<usize>> for LocalStorageVec<T, N> {
    type Output = [T];

    /// The items from `range_from.start` on; the start may equal the length.
    fn index(&self, range_from: core::ops::RangeFrom<usize>) -> (r: &[T])
        ensures
            r@ == self@.subrange(range_from.start as int, self@.len() as int),
    {
        let live = self.as_ref();
        &live[range_from.start..live.len()]
    }
}

impl<T, const N: usize> vstd::std_specs::core::IndexSpecImpl<core::ops::RangeFrom<usize>> for LocalStorageVec<T, N> {
    open spec fn index_req(&self, range_from: &core::ops::RangeFrom<usize>) -> bool {
        self.wf() && range_from.start <= self@.len()
    }
}

/// Pushing `v` and then popping hands back `v` and leaves the items as they
/// were: the sequences that `push` and `pop` promise compose to the identity.
pub proof fn lemma_push_then_pop<T>(items: Seq<T>, v: T)
    ensures
        items.push(v).len() == items.len() + 1,
        items.push(v).last() == v,
        items.push(v).drop_last() == items,
{
    assert(items.push(v).drop_last() =~= items);
}

} // verus!
