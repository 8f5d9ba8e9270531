//! Per-accessor layout of element data.
use crate::shape::{ElementShape, ElementType};
use vstd::prelude::*;

verus! {

/// The integer width of the indices of a sparse accessor.
#[derive(Debug, Clone, Copy, PartialEq, Eq, Structural, Hash)]
pub enum IndexType {
    /// [u8] indices
    U8,
    /// [u16] indices
    U16,
    /// [u32] indices
    U32,
}

impl IndexType {
    /// The component type of an index of this width.
    pub open spec fn spec_element_type(self) -> ElementType {
        match self {
            IndexType::U8 => ElementType::U8,
            IndexType::U16 => ElementType::U16,
            IndexType::U32 => ElementType::U32,
        }
    }

    /// The component type of an index of this width.
    pub fn element_type(&self) -> (r: ElementType)
        ensures
            r == self.spec_element_type(),
    {
        match self {
            IndexType::U8 => ElementType::U8,
            IndexType::U16 => ElementType::U16,
            IndexType::U32 => ElementType::U32,
        }
    }
}

/// Decoded layout of the elements of one accessor over one buffer view.
#[derive(Clone, Copy, Debug)]
pub struct Meta {
    /// Component type and dimensionality of each element
    pub shape: ElementShape,
    /// Size in bytes of one element
    pub elem_size: usize,
    /// Distance in bytes between the starts of consecutive elements
    pub stride: usize,
    /// Number of elements
    pub count: usize,
    /// Whether integer components stand for normalized fixed-point values
    pub normalized: bool,
}

impl Meta {
    /// The element size agrees with the shape.
    pub open spec fn wf(self) -> bool {
        self.elem_size == self.shape.spec_size()
    }

    /// Layout of a plain accessor: elements of `shape`, `count` of them, laid
    /// out `view_stride` bytes apart, or tightly packed without a stride.
    pub fn from_accessor(
        shape: ElementShape,
        count: usize,
        view_stride: Option<usize>,
        normalized: bool,
    ) -> (r: Meta)
        ensures
            r.wf(),
            r.shape == shape,
            r.count == count,
            r.stride == match view_stride {
                Some(s) => s,
                None => r.elem_size,
            },
            r.normalized == normalized,
    {
        let elem_size = shape.size();
        Meta {
            shape,
            elem_size,
            count,
            stride: match view_stride {
                Some(s) => s,
                None => elem_size,
            },
            normalized,
        }
    }

    /// Layout of the index array of a sparse accessor with `count` overridden
    /// elements; indices are tightly packed without a stride.
    pub fn from_sparse_index(index_type: IndexType, count: usize, view_stride: Option<usize>) -> (r:
        Meta)
        ensures
            r.wf(),
            r.shape == ElementShape::Scalar(index_type.spec_element_type()),
            r.count == count,
            r.stride == match view_stride {
                Some(s) => s,
                None => r.elem_size,
            },
            !r.normalized,
    {
        let shape = ElementShape::Scalar(index_type.element_type());
        let elem_size = shape.size();
        Meta {
            shape,
            elem_size,
            count,
            stride: match view_stride {
                Some(s) => s,
                None => elem_size,
            },
            normalized: false,
        }
    }

    /// Layout of the replacement values of a sparse accessor whose elements
    /// have `shape`, with `count` overridden elements.
    pub fn from_sparse_values(
        shape: ElementShape,
        count: usize,
        view_stride: Option<usize>,
        normalized: bool,
    ) -> (r: Meta)
        ensures
            r.wf(),
            r.shape == shape,
            r.count == count,
            r.stride == match view_stride {
                Some(s) => s,
                None => r.elem_size,
            },
            r.normalized == normalized,
    {
        Meta::from_accessor(shape, count, view_stride, normalized)
    }
}

} // verus!
