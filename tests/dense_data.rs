use gltf_accessors::attributes::{AttrJointIndex, AttrPosition};
use gltf_accessors::data::{Accessible, Data, DenseData, Element, Float32, Meta, Untyped};
use gltf_accessors::error::Error;
use gltf_accessors::shape::{Dimensions, ElementShape, ElementType};

fn f32_bytes(values: &[f32]) -> Vec<u8> {
    let mut out = Vec::new();
    for v in values {
        out.extend_from_slice(&v.to_le_bytes());
    }
    out
}

fn floats<const N: usize>(v: [Float32; N]) -> [f32; N] {
    v.map(|x| f32::from_bits(x.0))
}

#[test]
fn dense_vec3_f32_end_to_end() {
    let buf = f32_bytes(&[1.0, 2.0, 3.0, 4.0, 5.0, 6.0, 7.0, 8.0, 9.0]);
    assert_eq!(buf.len(), 36);
    let meta = Meta::from_accessor(ElementShape::Vec3(ElementType::F32), 3, None, false);
    assert_eq!(meta.stride, 12);
    let untyped = DenseData::<Untyped>::new(meta, &buf);
    let typed = untyped.try_with_type::<[Float32; 3]>().unwrap();
    assert_eq!(typed.count(), 3);

    let mut it = typed.iter();
    assert_eq!(it.len(), 3);
    let mut all = Vec::new();
    while let Some(v) = it.next() {
        all.push(floats(v));
    }
    assert_eq!(all, vec![[1.0, 2.0, 3.0], [4.0, 5.0, 6.0], [7.0, 8.0, 9.0]]);
    assert_eq!(it.len(), 0);

    assert_eq!(typed.get_raw(1).unwrap(), &f32_bytes(&[4.0, 5.0, 6.0])[..]);
}

#[test]
fn dense_round_trip_interleaved_u16() {
    let values: [u16; 5] = [0, 1, 258, 40000, 65535];
    // each u16 followed by two bytes of some other attribute
    let mut buf = Vec::new();
    for v in values {
        buf.extend_from_slice(&v.to_le_bytes());
        buf.extend_from_slice(&[0xAA, 0xBB]);
    }
    let meta = Meta::from_accessor(ElementShape::Scalar(ElementType::U16), 5, Some(4), false);
    let data = DenseData::<Untyped>::new(meta, &buf).try_with_type::<u16>().unwrap();
    let mut it = data.iter();
    let mut got = Vec::new();
    while let Some(v) = it.next() {
        got.push(v);
    }
    assert_eq!(got, values.to_vec());
    assert_eq!(data.iter().nth(5), None);
    let mut it = data.iter();
    assert_eq!(it.nth(1), Some(1));
    assert_eq!(it.nth(1), Some(40000));
    assert_eq!(it.len(), 1);
    for i in 0..values.len() {
        assert_eq!(data.get(i), data.iter().nth(i));
        assert_eq!(data.get(i), Some(values[i]));
    }
}

#[test]
fn dense_signed_and_wide_components() {
    let buf: Vec<u8> = vec![0xFF, 0x80, 0x01, 0x7F];
    let meta = Meta::from_accessor(ElementShape::Vec4(ElementType::I8), 1, None, true);
    let data = DenseData::<Untyped>::new(meta, &buf).try_with_type::<[i8; 4]>().unwrap();
    assert_eq!(data.get(0), Some([-1, -128, 1, 127]));

    let buf: Vec<u8> = vec![0xFE, 0xFF, 0x00, 0x80];
    let meta = Meta::from_accessor(ElementShape::Vec2(ElementType::I16), 1, None, false);
    let data = DenseData::<Untyped>::new(meta, &buf).try_with_type::<[i16; 2]>().unwrap();
    assert_eq!(data.get(0), Some([-2, -32768]));

    let buf: Vec<u8> = vec![0x78, 0x56, 0x34, 0x12];
    let meta = Meta::from_accessor(ElementShape::Scalar(ElementType::U32), 1, None, false);
    let data = DenseData::<Untyped>::new(meta, &buf).try_with_type::<u32>().unwrap();
    assert_eq!(data.get(0), Some(0x1234_5678));
}

#[test]
fn dense_matrix_is_column_major() {
    let buf: Vec<u8> = vec![1, 2, 3, 4, 5, 6, 7, 8, 9];
    let meta = Meta::from_accessor(ElementShape::Mat3(ElementType::U8), 1, None, false);
    let data = DenseData::<Untyped>::new(meta, &buf).try_with_type::<[[u8; 3]; 3]>().unwrap();
    assert_eq!(data.get(0), Some([[1, 2, 3], [4, 5, 6], [7, 8, 9]]));

    let values: Vec<f32> = (0..16).map(|i| i as f32 * 0.5).collect();
    let buf = f32_bytes(&values);
    let meta = Meta::from_accessor(ElementShape::Mat4(ElementType::F32), 1, None, false);
    let data = DenseData::<Untyped>::new(meta, &buf).try_with_type::<[[Float32; 4]; 4]>().unwrap();
    let m = data.get(0).unwrap();
    for c in 0..4 {
        assert_eq!(floats(m[c]), [values[4 * c], values[4 * c + 1], values[4 * c + 2], values[4 * c + 3]]);
    }
}

#[test]
fn dense_bounds() {
    let meta = Meta::from_accessor(ElementShape::Vec2(ElementType::U16), 3, Some(6), false);
    // last element starts at 12 and ends at 16
    let exact = vec![7u8; 16];
    let data = DenseData::<Untyped>::new(meta, &exact);
    assert!(data.get_raw(3).is_none());
    assert!(data.get_raw(usize::MAX).is_none());
    assert!(data.get_raw(usize::MAX / 2).is_none());
    assert_eq!(data.get_raw(2), Some(&exact[12..16]));

    let short = vec![7u8; 15];
    let data = DenseData::<Untyped>::new(meta, &short);
    assert!(data.get_raw(2).is_none());
    assert_eq!(data.get_raw(1), Some(&short[6..10]));
}

#[test]
fn dense_short_view_ends_iteration() {
    let buf = vec![1u8, 2, 3];
    let meta = Meta::from_accessor(ElementShape::Scalar(ElementType::U8), 5, None, false);
    let data = DenseData::<Untyped>::new(meta, &buf).try_with_type::<u8>().unwrap();
    let mut it = data.iter();
    assert_eq!(it.next(), Some(1));
    assert_eq!(it.next(), Some(2));
    assert_eq!(it.next(), Some(3));
    assert_eq!(it.next(), None);
    assert_eq!(data.get(4), None);
}

#[test]
fn try_with_type_mismatch() {
    let buf = vec![0u8; 12];
    let meta = Meta::from_accessor(ElementShape::Vec3(ElementType::F32), 1, None, false);
    let data = DenseData::<Untyped>::new(meta, &buf);
    match data.try_with_type::<[u8; 3]>() {
        Err(Error::AccessorType { dt, dim }) => {
            assert_eq!(dt, ElementType::F32);
            assert_eq!(dim, Dimensions::Vec3);
        }
        Ok(_) => panic!("u8 components accepted for f32 data"),
    }
    assert!(data.try_with_type::<[Float32; 4]>().is_err());
    assert!(data.try_with_type::<Float32>().is_err());
    assert!(data.try_with_type::<[[Float32; 3]; 3]>().is_err());
    assert!(data.try_with_type::<[Float32; 3]>().is_ok());
}

#[test]
fn validation_matrix() {
    let types = [
        ElementType::U8,
        ElementType::I8,
        ElementType::U16,
        ElementType::I16,
        ElementType::U32,
        ElementType::F32,
    ];
    for t in types {
        let shapes = [
            ElementShape::Scalar(t),
            ElementShape::Vec2(t),
            ElementShape::Vec3(t),
            ElementShape::Vec4(t),
            ElementShape::Mat2(t),
            ElementShape::Mat3(t),
            ElementShape::Mat4(t),
        ];
        for s in shapes {
            assert_eq!(<u16 as Accessible>::validate_accessor(s), s == ElementShape::Scalar(ElementType::U16));
            assert_eq!(<[i8; 2] as Accessible>::validate_accessor(s), s == ElementShape::Vec2(ElementType::I8));
            assert_eq!(<[u32; 4] as Accessible>::validate_accessor(s), s == ElementShape::Vec4(ElementType::U32));
            assert_eq!(
                <[[Float32; 2]; 2] as Accessible>::validate_accessor(s),
                s == ElementShape::Mat2(ElementType::F32)
            );
            assert_eq!(
                <[[i16; 4]; 4] as Accessible>::validate_accessor(s),
                s == ElementShape::Mat4(ElementType::I16)
            );
            assert_eq!(
                AttrPosition::validate_accessor(s),
                s == ElementShape::Vec2(ElementType::F32) || s == ElementShape::Vec3(ElementType::F32)
            );
            assert_eq!(
                AttrJointIndex::validate_accessor(s),
                s == ElementShape::Vec4(ElementType::U8) || s == ElementShape::Vec4(ElementType::U16)
            );
        }
    }
}

#[test]
fn normalized_flag_is_kept() {
    let buf = vec![10u8, 20, 30, 40];
    let meta = Meta::from_accessor(ElementShape::Vec4(ElementType::U8), 1, None, true);
    let untyped = DenseData::<Untyped>::new(meta, &buf);
    assert!(untyped.normalized());
    let typed = untyped.try_with_type::<[u8; 4]>().unwrap();
    assert!(typed.normalized());
    assert!(typed.as_untyped().normalized());
    let data: Data<Untyped> = Data::Dense(untyped);
    assert!(data.normalized());
    assert!(data.try_with_type::<[u8; 4]>().unwrap().normalized());

    let plain = Meta::from_accessor(ElementShape::Vec4(ElementType::U8), 1, None, false);
    assert!(!DenseData::<Untyped>::new(plain, &buf).try_with_type::<[u8; 4]>().unwrap().normalized());
}

#[test]
fn position_attribute_from_vec2() {
    let buf = f32_bytes(&[1.5, -2.0, 3.0, 4.0, 5.0, 6.0]);
    let meta = Meta::from_accessor(ElementShape::Vec2(ElementType::F32), 3, None, false);
    let data = DenseData::<Untyped>::new(meta, &buf).try_with_type::<AttrPosition>().unwrap();
    assert_eq!(floats(data.get(0).unwrap()), [1.5, 0.0, -2.0]);
    assert_eq!(floats(data.get(2).unwrap()), [5.0, 0.0, 6.0]);

    let meta = Meta::from_accessor(ElementShape::Vec3(ElementType::F32), 2, None, false);
    let data = DenseData::<Untyped>::new(meta, &buf).try_with_type::<AttrPosition>().unwrap();
    assert_eq!(floats(data.get(1).unwrap()), [4.0, 5.0, 6.0]);
}

#[test]
fn joint_index_attribute_widens_u8() {
    let buf: Vec<u8> = vec![1, 2, 3, 250];
    let meta = Meta::from_accessor(ElementShape::Vec4(ElementType::U8), 1, None, false);
    let data = DenseData::<Untyped>::new(meta, &buf).try_with_type::<AttrJointIndex>().unwrap();
    assert_eq!(data.get(0), Some([1u16, 2, 3, 250]));

    let buf: Vec<u8> = vec![1, 1, 2, 0, 0, 3, 255, 255];
    let meta = Meta::from_accessor(ElementShape::Vec4(ElementType::U16), 1, None, false);
    let data = DenseData::<Untyped>::new(meta, &buf).try_with_type::<AttrJointIndex>().unwrap();
    assert_eq!(data.get(0), Some([257u16, 2, 768, 65535]));
}

#[test]
fn shape_sizes() {
    assert_eq!(ElementType::U8.size(), 1);
    assert_eq!(ElementType::I16.size(), 2);
    assert_eq!(ElementType::F32.size(), 4);
    assert_eq!(ElementShape::Scalar(ElementType::U32).size(), 4);
    assert_eq!(ElementShape::Vec3(ElementType::F32).size(), 12);
    assert_eq!(ElementShape::Mat2(ElementType::U8).size(), 4);
    assert_eq!(ElementShape::Mat3(ElementType::I16).size(), 18);
    assert_eq!(ElementShape::Mat4(ElementType::F32).size(), 64);
    assert_eq!(ElementShape::Mat3(ElementType::I16).data_type(), ElementType::I16);
    assert_eq!(ElementShape::Mat3(ElementType::I16).dimensions(), Dimensions::Mat3);
}

#[test]
fn element_cursor_reads_little_endian() {
    let bytes: Vec<u8> = vec![0x01, 0x02, 0x03, 0x04, 0x05, 0x06, 0x07, 0x08, 0x00, 0x00, 0x80, 0x3F, 0xFF];
    let mut e = Element { data: &bytes, shape: ElementShape::Scalar(ElementType::U8) };
    assert_eq!(e.read_u8(), 1);
    assert_eq!(e.read_u16(), 0x0302);
    assert_eq!(e.read_u32(), 0x0706_0504);
    assert_eq!(e.read_i8(), 8);
    assert_eq!(f32::from_bits(e.read_f32().0), 1.0);
    assert_eq!(e.read_i8(), -1);
    assert!(e.data.is_empty());
}
