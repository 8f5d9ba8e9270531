//! Accessors for reading mesh vertex attributes.
use crate::data::accessible::{component, lemma_skip_skip, Accessible, Element, Float32};
use crate::shape::{ElementShape, ElementType};
use vstd::prelude::*;

verus! {

/// Reads accessor values appropriate for vertex positions
///
/// ## Conversions
///
/// * `data: [f32; 3] => data`
/// * `data: [f32; 2] => [data[0], 0.0, data[1]]`
#[derive(Debug, Clone, Copy)]
pub struct AttrPosition;

impl Accessible for AttrPosition {
    type Item = [Float32; 3];

    open spec fn spec_validate(shape: ElementShape) -> bool {
        shape == ElementShape::Vec2(ElementType::F32) || shape == ElementShape::Vec3(ElementType::F32)
    }

    open spec fn spec_zero(shape: ElementShape) -> [Float32; 3] {
        [Float32(0), Float32(0), Float32(0)]
    }

    open spec fn spec_decode(shape: ElementShape, bytes: Seq<u8>) -> [Float32; 3] {
        match shape {
            ElementShape::Vec2(_) => [
                component::<Float32>(bytes, 0),
                Float32(0),
                component::<Float32>(bytes, 1),
            ],
            _ => [
                component::<Float32>(bytes, 0),
                component::<Float32>(bytes, 1),
                component::<Float32>(bytes, 2),
            ],
        }
    }

    fn zero(shape: ElementShape) -> (r: [Float32; 3]) {
        [Float32(0), Float32(0), Float32(0)]
    }

    fn from_element(elem: Element) -> (r: [Float32; 3]) {
        let mut elem = elem;
        let ghost bytes = elem.data@;
        assert(bytes.skip(0) =~= bytes);
        proof {
            lemma_skip_skip(bytes, 4, 4);
        }
        match elem.shape {
            ElementShape::Vec2(_) => {
                let x = elem.read_f32();
                let y = elem.read_f32();
                [x, Float32(0), y]
            },
            _ => {
                proof {
                    lemma_skip_skip(bytes, 8, 4);
                }
                let x = elem.read_f32();
                let y = elem.read_f32();
                let z = elem.read_f32();
                [x, y, z]
            },
        }
    }

    fn validate_accessor(shape: ElementShape) -> (r: bool) {
        match shape {
            ElementShape::Vec2(ElementType::F32) | ElementShape::Vec3(ElementType::F32) => true,
            _ => false,
        }
    }
}

/// The bit pattern of the single precision float `1.0`.
pub const ONE_F32_BITS: u32 = 0x3f80_0000;

/// Reads four float components as a rotation quaternion `[x, y, z, w]`
///
/// Elements with no data read as the identity rotation `[0.0, 0.0, 0.0, 1.0]`.
#[derive(Debug, Clone, Copy)]
pub struct RotationQuat;

impl Accessible for RotationQuat {
    type Item = [Float32; 4];

    open spec fn spec_validate(shape: ElementShape) -> bool {
        shape == ElementShape::Vec4(ElementType::F32)
    }

    open spec fn spec_zero(shape: ElementShape) -> [Float32; 4] {
        [Float32(0), Float32(0), Float32(0), Float32(ONE_F32_BITS)]
    }

    open spec fn spec_decode(shape: ElementShape, bytes: Seq<u8>) -> [Float32; 4] {
        [
            component::<Float32>(bytes, 0),
            component::<Float32>(bytes, 1),
            component::<Float32>(bytes, 2),
            component::<Float32>(bytes, 3),
        ]
    }

    fn zero(shape: ElementShape) -> (r: [Float32; 4]) {
        [Float32(0), Float32(0), Float32(0), Float32(ONE_F32_BITS)]
    }

    fn from_element(elem: Element) -> (r: [Float32; 4]) {
        <[Float32; 4] as Accessible>::from_element(elem)
    }

    fn validate_accessor(shape: ElementShape) -> (r: bool) {
        match shape {
            ElementShape::Vec4(ElementType::F32) => true,
            _ => false,
        }
    }
}

/// Reads accessor values appropriate for vertex joint indices
///
/// ## Conversions
///
/// * `data: [u16; 4] => data`
/// * `data: [u8; 4] => data as [u16; 4]`
#[derive(Debug, Clone, Copy)]
pub struct AttrJointIndex;

impl Accessible for AttrJointIndex {
    type Item = [u16; 4];

    open spec fn spec_validate(shape: ElementShape) -> bool {
        shape == ElementShape::Vec4(ElementType::U16) || shape == ElementShape::Vec4(ElementType::U8)
    }

    open spec fn spec_zero(shape: ElementShape) -> [u16; 4] {
        [0, 0, 0, 0]
    }

    open spec fn spec_decode(shape: ElementShape, bytes: Seq<u8>) -> [u16; 4] {
        match shape {
            ElementShape::Vec4(ElementType::U16) => [
                component::<u16>(bytes, 0),
                component::<u16>(bytes, 1),
                component::<u16>(bytes, 2),
                component::<u16>(bytes, 3),
            ],
            _ => [bytes[0] as u16, bytes[1] as u16, bytes[2] as u16, bytes[3] as u16],
        }
    }

    fn zero(shape: ElementShape) -> (r: [u16; 4]) {
        [0, 0, 0, 0]
    }

    fn from_element(elem: Element) -> (r: [u16; 4]) {
        let mut elem = elem;
        let ghost bytes = elem.data@;
        assert(bytes.skip(0) =~= bytes);
        match elem.shape {
            ElementShape::Vec4(ElementType::U16) => {
                proof {
                    lemma_skip_skip(bytes, 2, 2);
                    lemma_skip_skip(bytes, 4, 2);
                    lemma_skip_skip(bytes, 6, 2);
                }
                let a = elem.read_u16();
                let b = elem.read_u16();
                let c = elem.read_u16();
                let d = elem.read_u16();
                [a, b, c, d]
            },
            _ => {
                let a = elem.read_u8();
                let b = elem.read_u8();
                let c = elem.read_u8();
                let d = elem.read_u8();
                [a as u16, b as u16, c as u16, d as u16]
            },
        }
    }

    fn validate_accessor(shape: ElementShape) -> (r: bool) {
        match shape {
            ElementShape::Vec4(ElementType::U16) | ElementShape::Vec4(ElementType::U8) => true,
            _ => false,
        }
    }
}

} // verus!
