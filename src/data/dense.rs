//! Strided, bounds-checked views over element bytes.
use super::accessible::{encode_shape, Accessible, AccessorShape, Element};
use super::meta::Meta;
use super::Untyped;
use crate::error::{Error, Result};
use crate::shape::{Dimensions, ElementType};
use core::marker::PhantomData;
use vstd::prelude::*;
use vstd::slice::slice_subrange;

verus! {

/// The bytes held by an optional slice.
pub open spec fn opt_bytes(r: Option<&[u8]>) -> Option<Seq<u8>> {
    match r {
        Some(b) => Some(b@),
        None => None,
    }
}

/// The bytes of element `index` in a view of bytes `view` laid out as `m`
/// says, where they lie inside the view.
pub open spec fn element_bytes(m: Meta, view: Seq<u8>, index: int) -> Option<Seq<u8>> {
    let start = index * m.stride;
    let end = start + m.elem_size;
    if 0 <= index < m.count && end <= view.len() {
        Some(view.subrange(start, end))
    } else {
        None
    }
}

/// Elements past the count are never read, and the last element is read
/// exactly when the view holds all of its bytes.
pub proof fn lemma_dense_bounds<'a, T>(d: DenseData<'a, T>, index: int)
    requires
        index >= d.spec_meta().count,
    ensures
        d.spec_raw(index) is None,
        d.spec_meta().count > 0 ==> (d.spec_raw(d.spec_meta().count - 1) is Some <==> (
        d.spec_meta().count - 1) * d.spec_meta().stride + d.spec_meta().elem_size
            <= d.spec_view().len()),
{
}

/// A view that holds the bytes of `values`, one element every stride, reads
/// back exactly those values in order.
pub proof fn lemma_dense_round_trip<'a, T: AccessorShape>(d: DenseData<'a, T>, values: Seq<T>)
    requires
        d.readable(),
        values.len() == d.spec_meta().count,
        forall|i: int|
            0 <= i < values.len() ==> {
                let start = i * d.spec_meta().stride;
                &&& start + d.spec_meta().elem_size <= d.spec_view().len()
                &&& d.spec_view().subrange(start, start + d.spec_meta().elem_size) == encode_shape(
                    #[trigger] values[i],
                )
            },
    ensures
        forall|i: int| 0 <= i < values.len() ==> #[trigger] d.spec_get(i) == Some(values[i]),
{
    assert forall|i: int| 0 <= i < values.len() implies #[trigger] d.spec_get(i) == Some(values[i]) by {
        let x = values[i];
        T::lemma_decode_encode(x, Seq::empty());
        assert(encode_shape(x) + Seq::empty() =~= encode_shape(x));
    }
}

/// Dense accessor data
pub struct DenseData<'a, T> {
    /// Accessor meta-data
    meta: Meta,
    /// Buffer data-view
    view: &'a [u8],
    /// Type info
    _element: PhantomData<T>,
}

impl<'a, T> Clone for DenseData<'a, T> {
    fn clone(&self) -> (r: Self)
        ensures
            r == *self,
    {
        DenseData { meta: self.meta, view: self.view, _element: PhantomData }
    }
}

impl<'a, T> Copy for DenseData<'a, T> {

}

impl<'a, T> DenseData<'a, T> {
    /// The layout of the elements.
    pub closed spec fn spec_meta(&self) -> Meta {
        self.meta
    }

    /// The bytes of the viewed buffer.
    pub closed spec fn spec_view(&self) -> Seq<u8> {
        self.view@
    }

    /// The layout is consistent with its shape.
    pub open spec fn wf(&self) -> bool {
        self.spec_meta().wf()
    }

    /// `other` has the same layout over the same bytes, whatever its type.
    pub open spec fn same_as<U>(&self, other: DenseData<'a, U>) -> bool {
        self.spec_meta() == other.spec_meta() && self.spec_view() == other.spec_view()
    }

    /// The bytes of the element at `index`, if it lies inside the view.
    pub open spec fn spec_raw(&self, index: int) -> Option<Seq<u8>> {
        element_bytes(self.spec_meta(), self.spec_view(), index)
    }

    /// Create a new [DenseData] from a view and provided meta-data
    ///
    /// Elements are read as `T` without checking that `T` matches the layout:
    /// create untyped data and convert it with [DenseData::try_with_type].
    pub fn new(meta: Meta, view: &'a [u8]) -> (r: Self)
        ensures
            r.spec_meta() == meta,
            r.spec_view() == view@,
    {
        DenseData { meta, view, _element: PhantomData }
    }

    /// Access the raw data for the element at the specified index
    pub fn get_raw(&self, index: usize) -> (r: Option<&'a [u8]>)
        ensures
            opt_bytes(r) == self.spec_raw(index as int),
    {
        let stride = self.meta.stride;
        let view_len = self.view.len();
        let raw_index = match index.checked_mul(stride) {
            Some(v) => v,
            None => return None,
        };
        let raw_end_index = match raw_index.checked_add(self.meta.elem_size) {
            Some(v) => v,
            None => return None,
        };
        if index < self.meta.count && raw_end_index <= view_len {
            Some(slice_subrange(self.view, raw_index, raw_end_index))
        } else {
            None
        }
    }

    /// Get the [Dimensions] of the data viewed by this accessor
    pub fn dimensions(&self) -> (r: Dimensions)
        ensures
            r == self.spec_meta().shape.spec_dimensions(),
    {
        self.meta.shape.dimensions()
    }

    /// Get the expected component type of the elements in this accessor
    pub fn data_type(&self) -> (r: ElementType)
        ensures
            r == self.spec_meta().shape.spec_data_type(),
    {
        self.meta.shape.data_type()
    }

    /// The size in bytes of each element in this accessor
    pub fn element_size(&self) -> (r: usize)
        ensures
            r == self.spec_meta().elem_size,
    {
        self.meta.elem_size
    }

    /// The number of elements in this accessor
    pub fn count(&self) -> (r: usize)
        ensures
            r == self.spec_meta().count,
    {
        self.meta.count
    }

    /// Specifies if the integer data values should be normalized
    pub fn normalized(&self) -> (r: bool)
        ensures
            r == self.spec_meta().normalized,
    {
        self.meta.normalized
    }

    /// Attempt to convert this data into data typed as `U`.
    ///
    /// This will fail if the component type and dimensions that `U` reads do
    /// not match those of this accessor.
    pub fn try_with_type<U: Accessible>(&self) -> (r: Result<DenseData<'a, U>>)
        ensures
            r is Ok <==> U::spec_validate(self.spec_meta().shape),
            match r {
                Ok(d) => d.spec_meta() == self.spec_meta() && d.spec_view() == self.spec_view(),
                Err(e) => e.is_type_mismatch(self.spec_meta().shape),
            },
    {
        if U::validate_accessor(self.meta.shape) {
            Ok(DenseData { meta: self.meta, view: self.view, _element: PhantomData })
        } else {
            Err(Error::accessor_type(self.meta.shape))
        }
    }

    /// Reinterpret this data as `U` without validating that the accessor's
    /// component type or dimensions match.
    pub(crate) fn with_type<U>(&self) -> (r: DenseData<'a, U>)
        ensures
            r.spec_meta() == self.spec_meta(),
            r.spec_view() == self.spec_view(),
    {
        DenseData { meta: self.meta, view: self.view, _element: PhantomData }
    }

    /// Get an untyped view of this data
    pub fn as_untyped(&self) -> (r: DenseData<'a, Untyped>)
        ensures
            r.spec_meta() == self.spec_meta(),
            r.spec_view() == self.spec_view(),
    {
        self.with_type()
    }

    /// Iterate over all the elements in this accessor
    pub fn iter(&self) -> (r: DenseDataIter<'a, T>)
        ensures
            r.spec_counter() == 0,
            r.spec_accessor() == *self,
    {
        DenseDataIter::new(self)
    }
}

impl<'a, T: Accessible> DenseData<'a, T> {
    /// Elements of this data can be read as `T`.
    pub open spec fn readable(&self) -> bool {
        self.wf() && T::spec_validate(self.spec_meta().shape)
    }

    /// The element at `index` read as `T`, if it lies inside the view.
    pub open spec fn spec_get(&self, index: int) -> Option<T::Item> {
        match self.spec_raw(index) {
            Some(b) => Some(T::spec_decode(self.spec_meta().shape, b)),
            None => None,
        }
    }

    /// Get an element from this accessor and interpret as rust data
    pub fn get(&self, index: usize) -> (r: Option<T::Item>)
        requires
            self.readable(),
        ensures
            r == self.spec_get(index as int),
    {
        match self.get_raw(index) {
            Some(data) => Some(T::from_element(Element { data, shape: self.meta.shape })),
            None => None,
        }
    }
}

/// Iterator over densly packed accessor data
pub struct DenseDataIter<'a, T> {
    counter: usize,
    pub(crate) accessor: DenseData<'a, T>,
}

impl<'a, T> DenseDataIter<'a, T> {
    /// The position of the next element.
    pub closed spec fn spec_counter(&self) -> nat {
        self.counter as nat
    }

    /// The data iterated over.
    pub closed spec fn spec_accessor(&self) -> DenseData<'a, T> {
        self.accessor
    }

    /// Create a new iterator from [DenseData]
    pub fn new(accessor: &DenseData<'a, T>) -> (r: Self)
        ensures
            r.spec_counter() == 0,
            r.spec_accessor() == *accessor,
    {
        DenseDataIter {
            counter: 0,
            accessor: DenseData { meta: accessor.meta, view: accessor.view, _element: PhantomData },
        }
    }

    /// The number of elements left to produce
    pub fn len(&self) -> (r: usize)
        requires
            self.spec_counter() <= self.spec_accessor().spec_meta().count,
        ensures
            r == self.spec_accessor().spec_meta().count - self.spec_counter(),
    {
        self.accessor.meta.count - self.counter
    }
}

impl<'a, T: Accessible> DenseDataIter<'a, T> {
    /// Produce the next element, or `None` once all elements were produced or
    /// the next one lies outside the view.
    pub fn next(&mut self) -> (r: Option<T::Item>)
        requires
            old(self).spec_accessor().readable(),
        ensures
            final(self).spec_accessor() == old(self).spec_accessor(),
            r == (if old(self).spec_counter() < old(self).spec_accessor().spec_meta().count {
                old(self).spec_accessor().spec_get(old(self).spec_counter() as int)
            } else {
                None
            }),
            final(self).spec_counter() == (if r is Some {
                old(self).spec_counter() + 1
            } else {
                old(self).spec_counter()
            }),
    {
        if self.counter < self.accessor.meta.count {
            let out = match self.accessor.get(self.counter) {
                Some(v) => v,
                None => return None,
            };
            self.counter = self.counter + 1;
            Some(out)
        } else {
            None
        }
    }

    /// Skip `n` elements and produce the one after them, as [Self::next]
    /// would on its `n + 1`-th call.
    ///
    /// When the elements skipped all lie inside the view, this is the element
    /// at `n` past the current position.
    pub fn nth(&mut self, n: usize) -> (r: Option<T::Item>)
        requires
            old(self).spec_accessor().readable(),
            old(self).spec_counter() <= old(self).spec_accessor().spec_meta().count,
        ensures
            final(self).spec_accessor() == old(self).spec_accessor(),
            final(self).spec_counter() <= final(self).spec_accessor().spec_meta().count,
            (forall|k: int|
                old(self).spec_counter() <= k < old(self).spec_counter() + n && k
                    < old(self).spec_accessor().spec_meta().count ==> (
                #[trigger] old(self).spec_accessor().spec_get(k)) is Some) ==> r == old(
                self,
            ).spec_accessor().spec_get(old(self).spec_counter() + n),
    {
        let ghost start = self.spec_counter() as int;
        let ghost d = self.spec_accessor();
        let ghost hyp = forall|k: int|
            start <= k < start + n && k < d.spec_meta().count ==> (#[trigger] d.spec_get(k)) is Some;
        let mut i: usize = 0;
        while i < n
            invariant
                i <= n,
                d == old(self).spec_accessor(),
                start == old(self).spec_counter(),
                self.spec_accessor() == d,
                d.readable(),
                self.spec_counter() <= d.spec_meta().count,
                hyp == (forall|k: int|
                    start <= k < start + n && k < d.spec_meta().count ==> (#[trigger] d.spec_get(
                        k,
                    )) is Some),
                hyp ==> self.spec_counter() == start + i,
            decreases n - i,
        {
            match self.next() {
                Some(_) => {},
                None => {
                    proof {
                        if hyp {
                            assert(start + i >= d.spec_meta().count);
                        }
                    }
                    return None;
                },
            }
            i = i + 1;
        }
        self.next()
    }
}

} // verus!
