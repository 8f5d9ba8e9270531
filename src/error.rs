//! Errors raised while reading accessor data.
use crate::shape::{Dimensions, ElementShape, ElementType};
use vstd::prelude::*;

verus! {

/// Error type for accessor data operations
#[derive(Debug, Clone, Copy)]
pub enum Error {
    /// Requested an invalid type for an accessor
    AccessorType {
        /// The actual accessor component type
        dt: ElementType,
        /// The actual accessor dimensions
        dim: Dimensions,
    },
}

/// Result type for accessor data operations
pub type Result<T> = core::result::Result<T, Error>;

impl Error {
    /// The error holds a type mismatch against elements of `shape`.
    pub open spec fn is_type_mismatch(self, shape: ElementShape) -> bool {
        match self {
            Error::AccessorType { dt, dim } => dt == shape.spec_data_type() && dim
                == shape.spec_dimensions(),
        }
    }

    /// The error raised when elements of `shape` cannot be read as the requested type.
    pub fn accessor_type(shape: ElementShape) -> (r: Error)
        ensures
            r.is_type_mismatch(shape),
    {
        Error::AccessorType { dt: shape.data_type(), dim: shape.dimensions() }
    }
}

} // verus!
