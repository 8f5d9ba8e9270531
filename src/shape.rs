//! Element layout descriptions: component types and dimensionalities.
use vstd::prelude::*;

verus! {

/// The primitive numeric type of one component of an element.
#[derive(Debug, Clone, Copy, PartialEq, Eq, Structural, PartialOrd, Ord, Hash)]
pub enum ElementType {
    /// Unsigned 8 bit integer
    U8,
    /// Signed 8 bit integer
    I8,
    /// Unsigned 16 bit integer
    U16,
    /// Signed 16 bit integer
    I16,
    /// Unsigned 32 bit integer
    U32,
    /// IEEE-754 single precision float
    F32,
}

impl ElementType {
    /// Width in bytes of one component of this type.
    pub open spec fn spec_size(self) -> nat {
        match self {
            ElementType::U8 | ElementType::I8 => 1,
            ElementType::U16 | ElementType::I16 => 2,
            ElementType::U32 | ElementType::F32 => 4,
        }
    }

    /// Size of a single component in bytes
    pub fn size(&self) -> (r: usize)
        ensures
            r == self.spec_size(),
    {
        match self {
            ElementType::U8 => 1,
            ElementType::I8 => 1,
            ElementType::U16 => 2,
            ElementType::I16 => 2,
            ElementType::U32 => 4,
            ElementType::F32 => 4,
        }
    }
}

/// The dimensionality of an element.
#[derive(Debug, Clone, Copy, PartialEq, Eq, Structural, PartialOrd, Ord, Hash)]
pub enum Dimensions {
    /// One component
    Scalar,
    /// Two component vector
    Vec2,
    /// Three component vector
    Vec3,
    /// Four component vector
    Vec4,
    /// 2x2 column major matrix
    Mat2,
    /// 3x3 column major matrix
    Mat3,
    /// 4x4 column major matrix
    Mat4,
}

impl Dimensions {
    /// Number of components in an element of these dimensions.
    pub open spec fn multiplicity(self) -> nat {
        match self {
            Dimensions::Scalar => 1,
            Dimensions::Vec2 => 2,
            Dimensions::Vec3 => 3,
            Dimensions::Vec4 => 4,
            Dimensions::Mat2 => 4,
            Dimensions::Mat3 => 9,
            Dimensions::Mat4 => 16,
        }
    }
}

/// The dimensions and component type of the elements of an accessor.
#[derive(Debug, Clone, Copy, PartialEq, Eq, Structural, PartialOrd, Ord, Hash)]
pub enum ElementShape {
    /// Individual element types
    Scalar(ElementType),
    /// A 2d vector of the specified element type
    Vec2(ElementType),
    /// A 3d vector of the specified element type
    Vec3(ElementType),
    /// A 4d vector of the specified element type
    Vec4(ElementType),
    /// A 2x2 column major matrix of the specified element type
    Mat2(ElementType),
    /// A 3x3 column major matrix of the specified element type
    Mat3(ElementType),
    /// A 4x4 column major matrix of the specified element type
    Mat4(ElementType),
}

impl ElementShape {
    /// The component type of this shape.
    pub open spec fn spec_data_type(self) -> ElementType {
        match self {
            ElementShape::Scalar(t) => t,
            ElementShape::Vec2(t) => t,
            ElementShape::Vec3(t) => t,
            ElementShape::Vec4(t) => t,
            ElementShape::Mat2(t) => t,
            ElementShape::Mat3(t) => t,
            ElementShape::Mat4(t) => t,
        }
    }

    /// The dimensionality of this shape.
    pub open spec fn spec_dimensions(self) -> Dimensions {
        match self {
            ElementShape::Scalar(_) => Dimensions::Scalar,
            ElementShape::Vec2(_) => Dimensions::Vec2,
            ElementShape::Vec3(_) => Dimensions::Vec3,
            ElementShape::Vec4(_) => Dimensions::Vec4,
            ElementShape::Mat2(_) => Dimensions::Mat2,
            ElementShape::Mat3(_) => Dimensions::Mat3,
            ElementShape::Mat4(_) => Dimensions::Mat4,
        }
    }

    /// Size in bytes of one element of this shape.
    pub open spec fn spec_size(self) -> nat {
        self.spec_dimensions().multiplicity() * self.spec_data_type().spec_size()
    }

    /// The expected size of this shape in bytes
    pub fn size(&self) -> (r: usize)
        ensures
            r == self.spec_size(),
    {
        match self {
            ElementShape::Scalar(t) => t.size(),
            ElementShape::Vec2(t) => 2 * t.size(),
            ElementShape::Vec3(t) => 3 * t.size(),
            ElementShape::Vec4(t) => 4 * t.size(),
            ElementShape::Mat2(t) => 4 * t.size(),
            ElementShape::Mat3(t) => 9 * t.size(),
            ElementShape::Mat4(t) => 16 * t.size(),
        }
    }

    /// Get the component type of this shape
    pub fn data_type(&self) -> (r: ElementType)
        ensures
            r == self.spec_data_type(),
    {
        match self {
            ElementShape::Mat2(t)
            | ElementShape::Scalar(t)
            | ElementShape::Vec2(t)
            | ElementShape::Vec3(t)
            | ElementShape::Vec4(t)
            | ElementShape::Mat3(t)
            | ElementShape::Mat4(t) => *t,
        }
    }

    /// Get the dimensionality of this shape
    pub fn dimensions(&self) -> (r: Dimensions)
        ensures
            r == self.spec_dimensions(),
    {
        match self {
            ElementShape::Scalar(_) => Dimensions::Scalar,
            ElementShape::Vec2(_) => Dimensions::Vec2,
            ElementShape::Vec3(_) => Dimensions::Vec3,
            ElementShape::Vec4(_) => Dimensions::Vec4,
            ElementShape::Mat2(_) => Dimensions::Mat2,
            ElementShape::Mat3(_) => Dimensions::Mat3,
            ElementShape::Mat4(_) => Dimensions::Mat4,
        }
    }
}

} // verus!
