//! Sparse accessor data: a base view overlaid with replacement elements.
use super::accessible::Accessible;
use super::dense::{opt_bytes, DenseData};
use super::meta::{IndexType, Meta};
use super::Untyped;
use crate::error::{Error, Result};
use crate::shape::{Dimensions, ElementShape, ElementType};
use vstd::prelude::*;
use vstd::slice::slice_subrange;

verus! {

/// A structure containing index information for elements that are modified in
/// a sparse accessor
#[derive(Clone, Copy)]
pub enum IndexData<'a> {
    /// [u8] sized indices
    U8(DenseData<'a, u8>),
    /// [u16] sized indices
    U16(DenseData<'a, u16>),
    /// [u32] sized indices
    U32(DenseData<'a, u32>),
}

impl<'a> IndexData<'a> {
    /// The index data can be read at the width it declares.
    pub open spec fn wf(&self) -> bool {
        match self {
            IndexData::U8(d) => d.readable(),
            IndexData::U16(d) => d.readable(),
            IndexData::U32(d) => d.readable(),
        }
    }

    /// The number of indices.
    pub open spec fn spec_count(&self) -> nat {
        match self {
            IndexData::U8(d) => d.spec_meta().count as nat,
            IndexData::U16(d) => d.spec_meta().count as nat,
            IndexData::U32(d) => d.spec_meta().count as nat,
        }
    }

    /// The `n`-th index, if it lies inside the view.
    pub open spec fn spec_entry(&self, n: int) -> Option<nat> {
        match self {
            IndexData::U8(d) => match d.spec_get(n) {
                Some(v) => Some(v as nat),
                None => None,
            },
            IndexData::U16(d) => match d.spec_get(n) {
                Some(v) => Some(v as nat),
                None => None,
            },
            IndexData::U32(d) => match d.spec_get(n) {
                Some(v) => Some(v as nat),
                None => None,
            },
        }
    }

    /// Every index can be read and the indices are strictly ascending.
    pub open spec fn ascending(&self) -> bool {
        &&& forall|n: int| 0 <= n < self.spec_count() ==> (#[trigger] self.spec_entry(n)) is Some
        &&& forall|m: int, n: int|
            0 <= m < n < self.spec_count() ==> (#[trigger] self.spec_entry(m)).unwrap()
                < (#[trigger] self.spec_entry(n)).unwrap()
    }

    /// Some position holds `index`.
    pub open spec fn contains(&self, index: int) -> bool {
        exists|n: int| 0 <= n < self.spec_count() && #[trigger] self.spec_entry(n) == Some(index as nat)
    }

    /// The position that holds `index`, if any.
    pub open spec fn spec_position(&self, index: int) -> Option<int> {
        if self.contains(index) {
            Some(choose|n: int| 0 <= n < self.spec_count() && #[trigger] self.spec_entry(n) == Some(index as nat))
        } else {
            None
        }
    }

    /// With strictly ascending indices, at most one position holds a value.
    pub proof fn lemma_entry_unique(&self, m: int, n: int)
        requires
            self.ascending(),
            0 <= m < self.spec_count(),
            0 <= n < self.spec_count(),
            self.spec_entry(m) == self.spec_entry(n),
        ensures
            m == n,
    {
        if m < n {
            assert(self.spec_entry(m).unwrap() < self.spec_entry(n).unwrap());
        } else if n < m {
            assert(self.spec_entry(n).unwrap() < self.spec_entry(m).unwrap());
        }
    }

    /// With strictly ascending indices, the position found for `index` is the
    /// one that holds it.
    pub proof fn lemma_position_of(&self, index: int, n: int)
        requires
            self.ascending(),
            0 <= n < self.spec_count(),
            self.spec_entry(n) == Some(index as nat),
        ensures
            self.spec_position(index) == Some(n),
    {
        assert(self.contains(index));
        let p = choose|p: int| 0 <= p < self.spec_count() && #[trigger] self.spec_entry(p) == Some(index as nat);
        self.lemma_entry_unique(p, n);
    }

    /// The width that the index data holds.
    pub open spec fn spec_index_type(&self) -> IndexType {
        match self {
            IndexData::U8(_) => IndexType::U8,
            IndexData::U16(_) => IndexType::U16,
            IndexData::U32(_) => IndexType::U32,
        }
    }

    /// The layout and bytes of the index data.
    pub open spec fn same_as(&self, d: DenseData<'a, Untyped>) -> bool {
        match self {
            IndexData::U8(x) => x.same_as(d),
            IndexData::U16(x) => x.same_as(d),
            IndexData::U32(x) => x.same_as(d),
        }
    }

    /// Read untyped index data as indices of `index_type`.
    ///
    /// This fails unless the elements of `data` are scalars of that width.
    pub fn from_untyped(index_type: IndexType, data: DenseData<'a, Untyped>) -> (r: Result<
        IndexData<'a>,
    >)
        ensures
            r is Ok <==> data.spec_meta().shape == ElementShape::Scalar(
                index_type.spec_element_type(),
            ),
            match r {
                Ok(ix) => ix.spec_index_type() == index_type && ix.same_as(data),
                Err(e) => e.is_type_mismatch(data.spec_meta().shape),
            },
    {
        match index_type {
            IndexType::U8 => match data.try_with_type::<u8>() {
                Ok(d) => Ok(IndexData::U8(d)),
                Err(e) => Err(e),
            },
            IndexType::U16 => match data.try_with_type::<u16>() {
                Ok(d) => Ok(IndexData::U16(d)),
                Err(e) => Err(e),
            },
            IndexType::U32 => match data.try_with_type::<u32>() {
                Ok(d) => Ok(IndexData::U32(d)),
                Err(e) => Err(e),
            },
        }
    }

    /// The number of element indices
    pub fn count(&self) -> (r: usize)
        ensures
            r == self.spec_count(),
    {
        match self {
            IndexData::U8(d) => d.count(),
            IndexData::U16(d) => d.count(),
            IndexData::U32(d) => d.count(),
        }
    }

    /// Returns the position in the sparse `values` array which corresponds to
    /// the accessor `index` if it exists, by binary search over the indices.
    ///
    /// A position found always holds `index`; with strictly ascending indices
    /// the position is found exactly when one holds `index`.
    pub fn find_replacement(&self, index: usize) -> (r: Option<usize>)
        requires
            self.wf(),
        ensures
            match r {
                Some(p) => p < self.spec_count() && self.spec_entry(p as int) == Some(index as nat),
                None => true,
            },
            self.ascending() ==> match r {
                Some(p) => self.spec_position(index as int) == Some(p as int),
                None => self.spec_position(index as int) is None,
            },
    {
        let count = self.count();
        let mut left: usize = 0;
        let mut right: usize = count;
        while left < right
            invariant
                self.wf(),
                count == self.spec_count(),
                left <= right <= count,
                self.ascending() ==> forall|n: int|
                    0 <= n < left ==> (#[trigger] self.spec_entry(n)).unwrap() < index,
                self.ascending() ==> forall|n: int|
                    right <= n < count ==> (#[trigger] self.spec_entry(n)).unwrap() > index,
            decreases right - left,
        {
            let mid = left + (right - left) / 2;
            let v = match self.get(mid) {
                Some(v) => v,
                None => return None,
            };
            if v < index {
                proof {
                    if self.ascending() {
                        assert forall|n: int| 0 <= n < mid + 1 implies (#[trigger] self.spec_entry(
                            n,
                        )).unwrap() < index by {
                            if n < mid {
                                assert(self.spec_entry(n).unwrap() < self.spec_entry(mid as int).unwrap());
                            }
                        }
                    }
                }
                left = mid + 1;
            } else if v > index {
                proof {
                    if self.ascending() {
                        assert forall|n: int| mid <= n < count implies (#[trigger] self.spec_entry(
                            n,
                        )).unwrap() > index by {
                            if n > mid {
                                assert(self.spec_entry(mid as int).unwrap() < self.spec_entry(n).unwrap());
                            }
                        }
                    }
                }
                right = mid;
            } else {
                proof {
                    if self.ascending() {
                        self.lemma_position_of(index as int, mid as int);
                    }
                }
                return Some(mid);
            }
        }
        proof {
            if self.ascending() && self.contains(index as int) {
                let n = choose|n: int| 0 <= n < self.spec_count() && #[trigger] self.spec_entry(n) == Some(index as nat);
                assert(self.spec_entry(n).unwrap() == index);
            }
        }
        None
    }

    /// Check that every index can be read and the indices are strictly
    /// ascending, which lookups and iteration over sparse data rely on.
    pub fn is_ascending(&self) -> (r: bool)
        requires
            self.wf(),
        ensures
            r == self.ascending(),
    {
        let count = self.count();
        let mut k: usize = 0;
        let mut last: usize = 0;
        while k < count
            invariant
                self.wf(),
                count == self.spec_count(),
                k <= count,
                forall|m: int| 0 <= m < k ==> (#[trigger] self.spec_entry(m)) is Some,
                forall|m: int, n: int|
                    0 <= m < n < k ==> (#[trigger] self.spec_entry(m)).unwrap()
                        < (#[trigger] self.spec_entry(n)).unwrap(),
                k > 0 ==> self.spec_entry(k - 1) == Some(last as nat),
            decreases count - k,
        {
            let v = match self.get(k) {
                Some(v) => v,
                None => return false,
            };
            if k > 0 && v <= last {
                return false;
            }
            proof {
                assert forall|m: int, n: int|
                    0 <= m < n < k + 1 implies (#[trigger] self.spec_entry(m)).unwrap()
                        < (#[trigger] self.spec_entry(n)).unwrap() by {
                    if n == k && m < k - 1 {
                        assert(self.spec_entry(m).unwrap() < self.spec_entry(k - 1).unwrap());
                    }
                }
            }
            last = v;
            k = k + 1;
        }
        true
    }

    /// Get the index of the n-th element to be replaced
    pub fn get(&self, n: usize) -> (r: Option<usize>)
        requires
            self.wf(),
        ensures
            match r {
                Some(v) => self.spec_entry(n as int) == Some(v as nat),
                None => self.spec_entry(n as int) is None,
            },
    {
        match self {
            IndexData::U8(d) => match d.get(n) {
                Some(v) => Some(v as usize),
                None => None,
            },
            IndexData::U16(d) => match d.get(n) {
                Some(v) => Some(v as usize),
                None => None,
            },
            IndexData::U32(d) => match d.get(n) {
                Some(v) => Some(v as usize),
                None => None,
            },
        }
    }
}

/// The optional base view of a sparse accessor read as another type.
pub open spec fn same_base<'a, T, U>(a: Option<DenseData<'a, T>>, b: Option<DenseData<'a, U>>) -> bool {
    match (a, b) {
        (Some(x), Some(y)) => x.same_as(y),
        (None, None) => true,
        _ => false,
    }
}

/// A structure to access sparse accessor data
pub struct SparseData<'a, T> {
    meta: Meta,
    base: Option<DenseData<'a, T>>,
    indices: IndexData<'a>,
    values: DenseData<'a, T>,
}

impl<'a, T> SparseData<'a, T> {
    /// The layout of the whole accessor.
    pub closed spec fn spec_meta(&self) -> Meta {
        self.meta
    }

    /// The base view, if any.
    pub closed spec fn spec_base(&self) -> Option<DenseData<'a, T>> {
        self.base
    }

    /// The positions of the replaced elements.
    pub closed spec fn spec_indices(&self) -> IndexData<'a> {
        self.indices
    }

    /// The replacement elements.
    pub closed spec fn spec_values(&self) -> DenseData<'a, T> {
        self.values
    }

    /// The parts agree on the element shape and can be read.
    pub open spec fn wf(&self) -> bool {
        &&& self.spec_meta().wf()
        &&& self.spec_indices().wf()
        &&& self.spec_values().wf()
        &&& self.spec_values().spec_meta().shape == self.spec_meta().shape
        &&& match self.spec_base() {
            Some(b) => b.wf() && b.spec_meta().shape == self.spec_meta().shape,
            None => true,
        }
    }

    /// `other` has the same parts, whatever its type.
    pub open spec fn same_as<U>(&self, other: SparseData<'a, U>) -> bool {
        &&& self.spec_meta() == other.spec_meta()
        &&& self.spec_indices() == other.spec_indices()
        &&& self.spec_values().same_as(other.spec_values())
        &&& same_base(self.spec_base(), other.spec_base())
    }

    /// The bytes of the element at `index`: its replacement where one is
    /// given, else the base element, else zero bytes.
    pub open spec fn spec_raw(&self, index: int) -> Option<Seq<u8>> {
        if !(0 <= index < self.spec_meta().count) {
            None
        } else {
            match self.spec_indices().spec_position(index) {
                Some(p) => self.spec_values().spec_raw(p),
                None => match self.spec_base() {
                    Some(b) => b.spec_raw(index),
                    None => Some(zero_bytes(self.spec_meta().elem_size as nat)),
                },
            }
        }
    }

    /// Create sparse data from its layout, optional base view, replaced
    /// positions and replacement values.
    pub fn new(
        meta: Meta,
        base: Option<DenseData<'a, T>>,
        indices: IndexData<'a>,
        values: DenseData<'a, T>,
    ) -> (r: Self)
        ensures
            r.spec_meta() == meta,
            r.spec_base() == base,
            r.spec_indices() == indices,
            r.spec_values() == values,
    {
        SparseData { meta, base, indices, values }
    }

    /// Get the raw bytes of an element from the accessor
    ///
    /// Elements that are not replaced and have no base view read as zero
    /// bytes.
    pub fn get_raw(&self, index: usize) -> (r: Option<&'a [u8]>)
        requires
            self.wf(),
        ensures
            index >= self.spec_meta().count ==> r is None,
            self.spec_indices().ascending() ==> opt_bytes(r) == self.spec_raw(index as int),
    {
        if index >= self.meta.count {
            return None;
        }
        match self.indices.find_replacement(index) {
            Some(replace_idx) => self.values.get_raw(replace_idx),
            None => match &self.base {
                Some(d) => d.get_raw(index),
                None => Some(zeros(self.meta.elem_size)),
            },
        }
    }

    /// Get the [Dimensions] of the data viewed by this accessor
    pub fn dimensions(&self) -> (r: Dimensions)
        ensures
            r == self.spec_meta().shape.spec_dimensions(),
    {
        self.meta.shape.dimensions()
    }

    /// Get the expected component type of the elements in this accessor
    pub fn data_type(&self) -> (r: ElementType)
        ensures
            r == self.spec_meta().shape.spec_data_type(),
    {
        self.meta.shape.data_type()
    }

    /// The size in bytes of each element in this accessor
    pub fn element_size(&self) -> (r: usize)
        ensures
            r == self.spec_meta().elem_size,
    {
        self.meta.elem_size
    }

    /// The number of elements in this accessor
    pub fn count(&self) -> (r: usize)
        ensures
            r == self.spec_meta().count,
    {
        self.meta.count
    }

    /// Specifies if the integer data values should be normalized
    pub fn normalized(&self) -> (r: bool)
        ensures
            r == self.spec_meta().normalized,
    {
        self.meta.normalized
    }

    /// Reinterpret the parts as `U` without validating the element shape.
    pub(crate) fn with_type<U>(&self) -> (r: SparseData<'a, U>)
        ensures
            self.same_as(r),
    {
        SparseData {
            meta: self.meta,
            base: match &self.base {
                Some(b) => Some(b.with_type()),
                None => None,
            },
            indices: self.indices,
            values: self.values.with_type(),
        }
    }

    /// Attempt to convert this data into data typed as `U`.
    ///
    /// This will fail if the component type and dimensions that `U` reads do
    /// not match those of this accessor.
    pub fn try_with_type<U: Accessible>(&self) -> (r: Result<SparseData<'a, U>>)
        ensures
            r is Ok <==> U::spec_validate(self.spec_meta().shape),
            match r {
                Ok(d) => self.same_as(d),
                Err(e) => e.is_type_mismatch(self.spec_meta().shape),
            },
    {
        if U::validate_accessor(self.meta.shape) {
            Ok(self.with_type())
        } else {
            Err(Error::accessor_type(self.meta.shape))
        }
    }
}

impl<'a, T: Accessible> SparseData<'a, T> {
    /// Elements of this data can be read as `T`.
    pub open spec fn readable(&self) -> bool {
        self.wf() && T::spec_validate(self.spec_meta().shape)
    }

    /// The element at `index` read as `T`: its replacement where one is given,
    /// else the base element, else the zero of `T`.
    pub open spec fn spec_get(&self, index: int) -> Option<T::Item> {
        if !(0 <= index < self.spec_meta().count) {
            None
        } else {
            match self.spec_indices().spec_position(index) {
                Some(p) => self.spec_values().spec_get(p),
                None => match self.spec_base() {
                    Some(b) => b.spec_get(index),
                    None => Some(T::spec_zero(self.spec_meta().shape)),
                },
            }
        }
    }

    /// Get an element from this accessor interpreted as rust data
    pub fn get(&self, index: usize) -> (r: Option<T::Item>)
        requires
            self.readable(),
        ensures
            index >= self.spec_meta().count ==> r is None,
            self.spec_indices().ascending() ==> r == self.spec_get(index as int),
    {
        if index >= self.meta.count {
            return None;
        }
        match self.indices.find_replacement(index) {
            Some(replace_idx) => self.values.get(replace_idx),
            None => match &self.base {
                Some(d) => d.get(index),
                None => Some(T::zero(self.meta.shape)),
            },
        }
    }

    /// Get an iterator over the elements of a [SparseData] structure
    pub fn iter(&self) -> (r: SparseDataIter<'a, T>)
        requires
            self.wf(),
        ensures
            r.inv(),
            r.spec_counter() == 0,
            self.same_as(r.spec_data()),
    {
        SparseDataIter { counter: 0, pending: 0, data: self.with_type() }
    }
}

/// With strictly ascending indices, an element that has a replacement reads
/// as that replacement; any other element reads as the base element, or as
/// the zero of `T` without a base view.
pub proof fn lemma_sparse_precedence<'a, T: Accessible>(s: SparseData<'a, T>, index: int)
    requires
        s.spec_indices().ascending(),
        0 <= index < s.spec_meta().count,
    ensures
        forall|p: int|
            0 <= p < s.spec_indices().spec_count() && #[trigger] s.spec_indices().spec_entry(p)
                == Some(index as nat) ==> s.spec_get(index) == s.spec_values().spec_get(p),
        !s.spec_indices().contains(index) ==> s.spec_get(index) == match s.spec_base() {
            Some(b) => b.spec_get(index),
            None => Some(T::spec_zero(s.spec_meta().shape)),
        },
{
    assert forall|p: int|
        0 <= p < s.spec_indices().spec_count() && #[trigger] s.spec_indices().spec_entry(p) == Some(
            index as nat,
        ) implies s.spec_get(index) == s.spec_values().spec_get(p) by {
        s.spec_indices().lemma_position_of(index, p);
    }
}

/// Without a base view, every element that has no replacement reads as the
/// zero of `T`, and its bytes are all zero.
pub proof fn lemma_sparse_without_base<'a, T: Accessible>(s: SparseData<'a, T>, index: int)
    requires
        s.spec_base() is None,
        0 <= index < s.spec_meta().count,
        !s.spec_indices().contains(index),
    ensures
        s.spec_get(index) == Some(T::spec_zero(s.spec_meta().shape)),
        s.spec_raw(index) == Some(zero_bytes(s.spec_meta().elem_size as nat)),
{
}

/// An iterator over sparse accessor data: a single forward walk that merges
/// the ascending replacements into the base elements.
pub struct SparseDataIter<'a, T> {
    counter: usize,
    pending: usize,
    data: SparseData<'a, T>,
}

impl<'a, T> SparseDataIter<'a, T> {
    /// The position of the next element.
    pub closed spec fn spec_counter(&self) -> nat {
        self.counter as nat
    }

    /// The data iterated over.
    pub closed spec fn spec_data(&self) -> SparseData<'a, T> {
        self.data
    }

    /// The walk is consistent: replacements before the next element have
    /// been passed, the others lie ahead.
    pub closed spec fn inv(&self) -> bool {
        let idx = self.data.spec_indices();
        &&& self.data.wf()
        &&& self.counter <= self.data.spec_meta().count
        &&& self.pending <= idx.spec_count()
        &&& idx.ascending() ==> forall|n: int|
            0 <= n < self.pending ==> (#[trigger] idx.spec_entry(n)).unwrap() < self.counter
        &&& idx.ascending() ==> forall|n: int|
            self.pending <= n < idx.spec_count() ==> (#[trigger] idx.spec_entry(n)).unwrap()
                >= self.counter
    }

    /// The number of elements left to produce
    pub fn len(&self) -> (r: usize)
        requires
            self.inv(),
        ensures
            r == self.spec_data().spec_meta().count - self.spec_counter(),
    {
        self.data.meta.count - self.counter
    }
}

impl<'a, T: Accessible> SparseDataIter<'a, T> {
    /// Produce the next element, or `None` once all elements were produced or
    /// the next one lies outside its view.
    pub fn next(&mut self) -> (r: Option<T::Item>)
        requires
            old(self).inv(),
            old(self).spec_data().readable(),
        ensures
            final(self).inv(),
            final(self).spec_data() == old(self).spec_data(),
            old(self).spec_counter() >= old(self).spec_data().spec_meta().count ==> r is None,
            old(self).spec_data().spec_indices().ascending() ==> r == old(self).spec_data().spec_get(
                old(self).spec_counter() as int,
            ),
            final(self).spec_counter() == (if r is Some {
                old(self).spec_counter() + 1
            } else {
                old(self).spec_counter()
            }),
    {
        if self.counter >= self.data.meta.count {
            return None;
        }
        let counter = self.counter;
        let pending = self.pending;
        let hit = pending < self.data.indices.count() && match self.data.indices.get(pending) {
            Some(i) => i == counter,
            None => false,
        };
        let ghost idx = self.data.spec_indices();
        if hit {
            proof {
                if idx.ascending() {
                    idx.lemma_position_of(counter as int, pending as int);
                    assert forall|n: int|
                        pending + 1 <= n < idx.spec_count() implies (#[trigger] idx.spec_entry(
                            n,
                        )).unwrap() >= counter + 1 by {
                        assert(idx.spec_entry(pending as int).unwrap() < idx.spec_entry(n).unwrap());
                    }
                }
            }
            match self.data.values.get(pending) {
                Some(v) => {
                    self.pending = pending + 1;
                    self.counter = counter + 1;
                    Some(v)
                },
                None => None,
            }
        } else {
            proof {
                if idx.ascending() {
                    assert forall|n: int| 0 <= n < idx.spec_count() implies #[trigger] idx.spec_entry(n)
                        != Some(counter as nat) by {
                        if n > pending {
                            assert(idx.spec_entry(pending as int).unwrap() < idx.spec_entry(n).unwrap());
                        }
                    }
                    assert(!idx.contains(counter as int));
                }
            }
            let v = match &self.data.base {
                Some(b) => b.get(counter),
                None => Some(T::zero(self.data.meta.shape)),
            };
            if v.is_some() {
                self.counter = counter + 1;
            }
            v
        }
    }

    /// Skip `n` elements and produce the one after them, as [Self::next]
    /// would on its `n + 1`-th call.
    ///
    /// With strictly ascending indices, when the elements skipped can all be
    /// read, this is the element at `n` past the current position.
    pub fn nth(&mut self, n: usize) -> (r: Option<T::Item>)
        requires
            old(self).inv(),
            old(self).spec_data().readable(),
        ensures
            final(self).inv(),
            final(self).spec_data() == old(self).spec_data(),
            old(self).spec_data().spec_indices().ascending() && (forall|k: int|
                old(self).spec_counter() <= k < old(self).spec_counter() + n && k
                    < old(self).spec_data().spec_meta().count ==> (
                #[trigger] old(self).spec_data().spec_get(k)) is Some) ==> r == old(
                self,
            ).spec_data().spec_get(old(self).spec_counter() + n),
    {
        let ghost start = self.spec_counter() as int;
        let ghost d = self.spec_data();
        let ghost hyp = d.spec_indices().ascending() && forall|k: int|
            start <= k < start + n && k < d.spec_meta().count ==> (#[trigger] d.spec_get(k)) is Some;
        let mut i: usize = 0;
        while i < n
            invariant
                i <= n,
                d == old(self).spec_data(),
                start == old(self).spec_counter(),
                self.spec_data() == d,
                self.inv(),
                d.readable(),
                hyp == (d.spec_indices().ascending() && forall|k: int|
                    start <= k < start + n && k < d.spec_meta().count ==> (#[trigger] d.spec_get(
                        k,
                    )) is Some),
                hyp ==> self.spec_counter() == start + i,
            decreases n - i,
        {
            match self.next() {
                Some(_) => {},
                None => {
                    proof {
                        if hyp {
                            assert(start + i >= d.spec_meta().count);
                        }
                    }
                    return None;
                },
            }
            i = i + 1;
        }
        self.next()
    }
}

/// The bytes of an element whose every byte is zero.
pub open spec fn zero_bytes(n: nat) -> Seq<u8> {
    Seq::new(n, |i: int| 0u8)
}

/// `n` zero bytes that live as long as the program.
fn zeros(n: usize) -> (r: &'static [u8])
    requires
        n <= 64,
    ensures
        r@ == zero_bytes(n as nat),
{
    let text: &'static str = "\0\0\0\0\0\0\0\0\0\0\0\0\0\0\0\0\0\0\0\0\0\0\0\0\0\0\0\0\0\0\0\0\0\0\0\0\0\0\0\0\0\0\0\0\0\0\0\0\0\0\0\0\0\0\0\0\0\0\0\0\0\0\0\0";
    proof {
        reveal_strlit("\0\0\0\0\0\0\0\0\0\0\0\0\0\0\0\0\0\0\0\0\0\0\0\0\0\0\0\0\0\0\0\0\0\0\0\0\0\0\0\0\0\0\0\0\0\0\0\0\0\0\0\0\0\0\0\0\0\0\0\0\0\0\0\0");
        vstd::string::is_ascii_spec_bytes(text);
    }
    let all = text.as_bytes();
    assert(all@.len() == 64);
    let r = slice_subrange(all, 0, n);
    assert(r@ =~= zero_bytes(n as nat));
    r
}

} // verus!
