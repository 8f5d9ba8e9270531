//! Data streams from glTF accessors.
pub mod accessible;
pub mod dense;
pub mod meta;
pub mod sparse;

use crate::error::Result;
use crate::shape::{Dimensions, ElementType};
pub use accessible::{Accessible, AccessorData, AccessorShape, Element, Float32};
use dense::opt_bytes;
pub use dense::{DenseData, DenseDataIter};
pub use meta::{IndexType, Meta};
pub use sparse::{IndexData, SparseData, SparseDataIter};
use vstd::prelude::*;

verus! {

/// Marker type indicating no transformation is specified for the accessor
/// elements
#[derive(Debug, Clone, Copy)]
pub struct Untyped;

/// A Data stream for elements from an accessor converted into an appropriate
/// Rust type
pub enum Data<'a, T> {
    /// Densly packed Data
    Dense(DenseData<'a, T>),
    /// Sparse data relative to some base view, or zero
    Sparse(SparseData<'a, T>),
}

impl<'a, T> Data<'a, T> {
    /// The layout of the elements.
    pub open spec fn spec_meta(&self) -> Meta {
        match self {
            Data::Dense(d) => d.spec_meta(),
            Data::Sparse(s) => s.spec_meta(),
        }
    }

    /// The parts of the data are consistent.
    pub open spec fn wf(&self) -> bool {
        match self {
            Data::Dense(d) => d.wf(),
            Data::Sparse(s) => s.wf(),
        }
    }

    /// The contracts of element access are exact: always for dense data, and
    /// for sparse data whose indices are strictly ascending.
    pub open spec fn exact(&self) -> bool {
        match self {
            Data::Dense(d) => true,
            Data::Sparse(s) => s.spec_indices().ascending(),
        }
    }

    /// The bytes of the element at `index`.
    pub open spec fn spec_raw(&self, index: int) -> Option<Seq<u8>> {
        match self {
            Data::Dense(d) => d.spec_raw(index),
            Data::Sparse(s) => s.spec_raw(index),
        }
    }

    /// `other` has the same parts, whatever its type.
    pub open spec fn same_as<U>(&self, other: Data<'a, U>) -> bool {
        match (self, other) {
            (Data::Dense(a), Data::Dense(b)) => a.same_as(b),
            (Data::Sparse(a), Data::Sparse(b)) => a.same_as(b),
            _ => false,
        }
    }

    /// Get the raw bytes of an element from the accessor
    pub fn get_raw(&self, index: usize) -> (r: Option<&'a [u8]>)
        requires
            self.wf(),
        ensures
            index >= self.spec_meta().count ==> r is None,
            self.exact() ==> opt_bytes(r) == self.spec_raw(index as int),
    {
        match self {
            Data::Dense(a) => a.get_raw(index),
            Data::Sparse(a) => a.get_raw(index),
        }
    }

    /// Try to convert the data stream to the provided type
    pub fn try_with_type<U: Accessible>(&self) -> (r: Result<Data<'a, U>>)
        ensures
            r is Ok <==> U::spec_validate(self.spec_meta().shape),
            match r {
                Ok(d) => self.same_as(d),
                Err(e) => e.is_type_mismatch(self.spec_meta().shape),
            },
    {
        match self {
            Data::Dense(d) => match d.try_with_type() {
                Ok(t) => Ok(Data::Dense(t)),
                Err(e) => Err(e),
            },
            Data::Sparse(s) => match s.try_with_type() {
                Ok(t) => Ok(Data::Sparse(t)),
                Err(e) => Err(e),
            },
        }
    }

    /// Get the [Dimensions] of the data viewed by this accessor
    pub fn dimensions(&self) -> (r: Dimensions)
        ensures
            r == self.spec_meta().shape.spec_dimensions(),
    {
        match self {
            Data::Dense(a) => a.dimensions(),
            Data::Sparse(a) => a.dimensions(),
        }
    }

    /// Get the expected component type of the elements in this accessor
    pub fn data_type(&self) -> (r: ElementType)
        ensures
            r == self.spec_meta().shape.spec_data_type(),
    {
        match self {
            Data::Dense(a) => a.data_type(),
            Data::Sparse(a) => a.data_type(),
        }
    }

    /// The size in bytes of each element in this accessor
    pub fn element_size(&self) -> (r: usize)
        ensures
            r == self.spec_meta().elem_size,
    {
        match self {
            Data::Dense(a) => a.element_size(),
            Data::Sparse(a) => a.element_size(),
        }
    }

    /// The number of elements in this accessor
    ///
    /// *Note:* This is called `count` to mirror the name of the field in the
    /// glTF metadata for the accessor.
    pub fn count(&self) -> (r: usize)
        ensures
            r == self.spec_meta().count,
    {
        match self {
            Data::Dense(a) => a.count(),
            Data::Sparse(a) => a.count(),
        }
    }

    /// Specifies if the integer data values should be normalized
    pub fn normalized(&self) -> (r: bool)
        ensures
            r == self.spec_meta().normalized,
    {
        match self {
            Data::Dense(a) => a.normalized(),
            Data::Sparse(a) => a.normalized(),
        }
    }
}

impl<'a, T: Accessible> Data<'a, T> {
    /// Elements of this data can be read as `T`.
    pub open spec fn readable(&self) -> bool {
        match self {
            Data::Dense(d) => d.readable(),
            Data::Sparse(s) => s.readable(),
        }
    }

    /// The element at `index` read as `T`.
    pub open spec fn spec_get(&self, index: int) -> Option<T::Item> {
        match self {
            Data::Dense(d) => d.spec_get(index),
            Data::Sparse(s) => s.spec_get(index),
        }
    }

    /// Try to get data from the accessor at the given index
    pub fn get(&self, index: usize) -> (r: Option<T::Item>)
        requires
            self.readable(),
        ensures
            index >= self.spec_meta().count ==> r is None,
            self.exact() ==> r == self.spec_get(index as int),
    {
        match self {
            Data::Dense(d) => d.get(index),
            Data::Sparse(s) => s.get(index),
        }
    }

    /// Get an iterator over all the elements in the data stream
    pub fn iter(&self) -> (r: DataIter<'a, T>)
        requires
            self.wf(),
        ensures
            r.inv(),
            r.spec_counter() == 0,
            self.same_as(r.spec_data()),
    {
        match self {
            Data::Dense(d) => DataIter::Dense(d.iter()),
            Data::Sparse(s) => DataIter::Sparse(s.iter()),
        }
    }
}

/// Reading the same parts as another type keeps the layout, and with it the
/// normalization flag.
pub proof fn lemma_retyped_layout<'a, T, U>(d: Data<'a, T>, e: Data<'a, U>)
    requires
        d.same_as(e),
    ensures
        e.spec_meta() == d.spec_meta(),
        e.spec_meta().normalized == d.spec_meta().normalized,
        e.wf() == d.wf(),
{
}

/// An iterator over elements in an accessor
pub enum DataIter<'a, T> {
    /// Iterator over densly packed data
    Dense(DenseDataIter<'a, T>),
    /// Iterator over sparse data
    Sparse(SparseDataIter<'a, T>),
}

impl<'a, T> DataIter<'a, T> {
    /// The data iterated over.
    pub open spec fn spec_data(&self) -> Data<'a, T> {
        match self {
            DataIter::Dense(i) => Data::Dense(i.spec_accessor()),
            DataIter::Sparse(i) => Data::Sparse(i.spec_data()),
        }
    }

    /// The position of the next element.
    pub open spec fn spec_counter(&self) -> nat {
        match self {
            DataIter::Dense(i) => i.spec_counter(),
            DataIter::Sparse(i) => i.spec_counter(),
        }
    }

    /// The iterator state is consistent.
    pub open spec fn inv(&self) -> bool {
        match self {
            DataIter::Dense(i) => i.spec_counter() <= i.spec_accessor().spec_meta().count
                && i.spec_accessor().wf(),
            DataIter::Sparse(i) => i.inv(),
        }
    }

    /// The number of elements left to produce
    pub fn len(&self) -> (r: usize)
        requires
            self.inv(),
        ensures
            r == self.spec_data().spec_meta().count - self.spec_counter(),
    {
        match self {
            DataIter::Dense(i) => i.len(),
            DataIter::Sparse(i) => i.len(),
        }
    }
}

impl<'a, T: Accessible> DataIter<'a, T> {
    /// Produce the next element, or `None` once all elements were produced or
    /// the next one lies outside its view.
    pub fn next(&mut self) -> (r: Option<T::Item>)
        requires
            old(self).inv(),
            old(self).spec_data().readable(),
        ensures
            final(self).inv(),
            final(self).spec_data() == old(self).spec_data(),
            old(self).spec_counter() >= old(self).spec_data().spec_meta().count ==> r is None,
            old(self).spec_data().exact() ==> r == old(self).spec_data().spec_get(
                old(self).spec_counter() as int,
            ),
            final(self).spec_counter() == (if r is Some {
                old(self).spec_counter() + 1
            } else {
                old(self).spec_counter()
            }),
    {
        match self {
            DataIter::Dense(i) => i.next(),
            DataIter::Sparse(i) => i.next(),
        }
    }

    /// Skip `n` elements and produce the one after them, as [Self::next]
    /// would on its `n + 1`-th call.
    ///
    /// When element access is exact and the elements skipped can all be read,
    /// this is the element at `n` past the current position.
    pub fn nth(&mut self, n: usize) -> (r: Option<T::Item>)
        requires
            old(self).inv(),
            old(self).spec_data().readable(),
        ensures
            final(self).inv(),
            final(self).spec_data() == old(self).spec_data(),
            old(self).spec_data().exact() && (forall|k: int|
                old(self).spec_counter() <= k < old(self).spec_counter() + n && k
                    < old(self).spec_data().spec_meta().count ==> (
                #[trigger] old(self).spec_data().spec_get(k)) is Some) ==> r == old(
                self,
            ).spec_data().spec_get(old(self).spec_counter() + n),
    {
        let ghost data = self.spec_data();
        let ghost start = self.spec_counter() as int;
        match self {
            DataIter::Dense(i) => {
                let ghost acc = i.spec_accessor();
                proof {
                    assert forall|k: int|
                        start <= k < start + n && k < acc.spec_meta().count && (forall|j: int|
                            start <= j < start + n && j < data.spec_meta().count ==> (
                            #[trigger] data.spec_get(j)) is Some) implies (
                    #[trigger] acc.spec_get(k)) is Some by {
                        assert(data.spec_get(k) == acc.spec_get(k));
                    }
                }
                i.nth(n)
            },
            DataIter::Sparse(i) => {
                let ghost sd = i.spec_data();
                proof {
                    assert forall|k: int|
                        start <= k < start + n && k < sd.spec_meta().count && (forall|j: int|
                            start <= j < start + n && j < data.spec_meta().count ==> (
                            #[trigger] data.spec_get(j)) is Some) implies (
                    #[trigger] sd.spec_get(k)) is Some by {
                        assert(data.spec_get(k) == sd.spec_get(k));
                    }
                }
                i.nth(n)
            },
        }
    }
}

} // verus!
