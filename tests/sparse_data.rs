use gltf_accessors::attributes::RotationQuat;
use gltf_accessors::data::{Data, DenseData, Float32, IndexData, IndexType, Meta, SparseData, Untyped};
use gltf_accessors::shape::{ElementShape, ElementType};

fn f32_bytes(values: &[f32]) -> Vec<u8> {
    let mut out = Vec::new();
    for v in values {
        out.extend_from_slice(&v.to_le_bytes());
    }
    out
}

fn u16_bytes(values: &[u16]) -> Vec<u8> {
    let mut out = Vec::new();
    for v in values {
        out.extend_from_slice(&v.to_le_bytes());
    }
    out
}

fn floats(v: [Float32; 3]) -> [f32; 3] {
    v.map(|x| f32::from_bits(x.0))
}

fn u16_indices(bytes: &[u8], count: usize) -> IndexData<'_> {
    let meta = Meta::from_sparse_index(IndexType::U16, count, None);
    IndexData::U16(DenseData::<Untyped>::new(meta, bytes).try_with_type::<u16>().unwrap())
}

fn u8_indices(bytes: &[u8]) -> IndexData<'_> {
    let meta = Meta::from_sparse_index(IndexType::U8, bytes.len(), None);
    IndexData::U8(DenseData::<Untyped>::new(meta, bytes).try_with_type::<u8>().unwrap())
}

fn u32_indices(bytes: &[u8], count: usize) -> IndexData<'_> {
    let meta = Meta::from_sparse_index(IndexType::U32, count, None);
    IndexData::U32(DenseData::<Untyped>::new(meta, bytes).try_with_type::<u32>().unwrap())
}

#[test]
fn sparse_without_base_end_to_end() {
    let shape = ElementShape::Vec3(ElementType::F32);
    let idx = u16_bytes(&[1, 3]);
    let vals = f32_bytes(&[10.0, 0.0, 0.0, 20.0, 0.0, 0.0]);
    let indices = u16_indices(&idx, 2);
    let values = DenseData::<Untyped>::new(Meta::from_sparse_values(shape, 2, None, false), &vals);
    let sparse = SparseData::new(Meta::from_accessor(shape, 4, None, false), None, indices, values);
    let typed = sparse.try_with_type::<[Float32; 3]>().unwrap();
    assert_eq!(typed.count(), 4);

    let mut it = typed.iter();
    assert_eq!(it.len(), 4);
    let mut all = Vec::new();
    while let Some(v) = it.next() {
        all.push(floats(v));
    }
    assert_eq!(all, vec![[0.0, 0.0, 0.0], [10.0, 0.0, 0.0], [0.0, 0.0, 0.0], [20.0, 0.0, 0.0]]);

    assert_eq!(floats(typed.get(0).unwrap()), [0.0, 0.0, 0.0]);
    assert_eq!(floats(typed.get(3).unwrap()), [20.0, 0.0, 0.0]);
    assert!(typed.get(4).is_none());

    assert_eq!(sparse.get_raw(2), Some(&[0u8; 12][..]));
    assert_eq!(sparse.get_raw(1), Some(&vals[0..12]));
    assert!(sparse.get_raw(4).is_none());
}

#[test]
fn sparse_override_precedence() {
    let shape = ElementShape::Vec3(ElementType::U16);
    let n = 8;
    let base_bytes = vec![0u8; 6 * n];
    let idx = vec![2u8, 5];
    let vals = u16_bytes(&[1, 2, 3, 400, 500, 600]);
    let base = DenseData::<Untyped>::new(Meta::from_accessor(shape, n, None, false), &base_bytes);
    let values = DenseData::<Untyped>::new(Meta::from_sparse_values(shape, 2, None, false), &vals);
    let sparse = SparseData::new(Meta::from_accessor(shape, n, None, false), Some(base), u8_indices(&idx), values);
    let typed = sparse.try_with_type::<[u16; 3]>().unwrap();

    let mut it = typed.iter();
    let mut all = Vec::new();
    while let Some(v) = it.next() {
        all.push(v);
    }
    assert_eq!(all.len(), n);
    for (i, v) in all.iter().enumerate() {
        match i {
            2 => assert_eq!(*v, [1, 2, 3]),
            5 => assert_eq!(*v, [400, 500, 600]),
            _ => assert_eq!(*v, [0, 0, 0]),
        }
        assert_eq!(typed.get(i), Some(*v));
        assert_eq!(typed.iter().nth(i), Some(*v));
    }
    assert_eq!(typed.iter().nth(n), None);
}

#[test]
fn sparse_base_elements_are_kept() {
    let shape = ElementShape::Scalar(ElementType::U8);
    let base_bytes: Vec<u8> = vec![10, 11, 12, 13, 14];
    let idx = vec![0u8, 4];
    let vals: Vec<u8> = vec![100, 104];
    let base = DenseData::<Untyped>::new(Meta::from_accessor(shape, 5, None, false), &base_bytes);
    let values = DenseData::<Untyped>::new(Meta::from_sparse_values(shape, 2, None, false), &vals);
    let sparse = SparseData::new(Meta::from_accessor(shape, 5, None, false), Some(base), u8_indices(&idx), values);
    let data: Data<u8> = Data::Sparse(sparse).try_with_type::<u8>().unwrap();
    let mut it = data.iter();
    let mut all = Vec::new();
    while let Some(v) = it.next() {
        all.push(v);
    }
    assert_eq!(all, vec![100, 11, 12, 13, 104]);
    assert_eq!(data.get(1), Some(11));
    assert_eq!(data.iter().nth(4), Some(104));
    assert_eq!(data.iter().nth(5), None);
    assert_eq!(data.get_raw(3), Some(&base_bytes[3..4]));
    assert_eq!(data.count(), 5);
    assert_eq!(data.element_size(), 1);
}

#[test]
fn find_replacement_empty() {
    let idx: Vec<u8> = vec![];
    let indices = u16_indices(&idx, 0);
    assert_eq!(indices.count(), 0);
    assert_eq!(indices.find_replacement(0), None);
    assert_eq!(indices.find_replacement(7), None);
    assert!(indices.is_ascending());
}

#[test]
fn find_replacement_single() {
    let idx = u16_bytes(&[9]);
    let indices = u16_indices(&idx, 1);
    assert_eq!(indices.find_replacement(9), Some(0));
    assert_eq!(indices.find_replacement(8), None);
    assert_eq!(indices.find_replacement(10), None);
}

#[test]
fn find_replacement_many() {
    let list: Vec<u32> = vec![1, 4, 9, 16, 25, 36, 49, 70000];
    let mut bytes = Vec::new();
    for v in &list {
        bytes.extend_from_slice(&v.to_le_bytes());
    }
    let indices = u32_indices(&bytes, list.len());
    assert!(indices.is_ascending());
    for (p, v) in list.iter().enumerate() {
        assert_eq!(indices.find_replacement(*v as usize), Some(p));
        assert_eq!(indices.get(p), Some(*v as usize));
    }
    assert_eq!(indices.find_replacement(0), None);
    assert_eq!(indices.find_replacement(10), None);
    assert_eq!(indices.find_replacement(26), None);
    assert_eq!(indices.find_replacement(70001), None);
    assert_eq!(indices.get(list.len()), None);
}

#[test]
fn unsorted_indices_are_detected() {
    let idx = vec![3u8, 1, 2];
    assert!(!u8_indices(&idx).is_ascending());
    let idx = vec![1u8, 1];
    assert!(!u8_indices(&idx).is_ascending());
    let idx = vec![0u8, 1, 200];
    assert!(u8_indices(&idx).is_ascending());
}

#[test]
fn sparse_type_mismatch() {
    let shape = ElementShape::Vec2(ElementType::U8);
    let idx = vec![0u8];
    let vals = vec![1u8, 2];
    let values = DenseData::<Untyped>::new(Meta::from_sparse_values(shape, 1, None, true), &vals);
    let sparse = SparseData::new(Meta::from_accessor(shape, 2, None, true), None, u8_indices(&idx), values);
    assert!(sparse.try_with_type::<[u16; 2]>().is_err());
    let typed = sparse.try_with_type::<[u8; 2]>().unwrap();
    assert!(typed.normalized());
    assert_eq!(typed.get(0), Some([1, 2]));
    assert_eq!(typed.get(1), Some([0, 0]));
}

#[test]
fn index_data_from_untyped() {
    let bytes = u16_bytes(&[2, 7]);
    let meta = Meta::from_sparse_index(IndexType::U16, 2, None);
    let untyped = DenseData::<Untyped>::new(meta, &bytes);
    let indices = IndexData::from_untyped(IndexType::U16, untyped).unwrap();
    assert!(matches!(indices, IndexData::U16(_)));
    assert_eq!(indices.find_replacement(7), Some(1));
    assert!(IndexData::from_untyped(IndexType::U8, untyped).is_err());
    assert!(IndexData::from_untyped(IndexType::U32, untyped).is_err());
}

#[test]
fn rotation_without_base_is_identity() {

    let shape = ElementShape::Vec4(ElementType::F32);
    let idx = vec![1u8];
    let vals = f32_bytes(&[0.0, 0.0, 1.0, 0.0]);
    let values = DenseData::<Untyped>::new(Meta::from_sparse_values(shape, 1, None, false), &vals);
    let sparse = SparseData::new(Meta::from_accessor(shape, 3, None, false), None, u8_indices(&idx), values);
    let rot = sparse.try_with_type::<RotationQuat>().unwrap();
    let q = |v: [Float32; 4]| v.map(|x| f32::from_bits(x.0));
    assert_eq!(q(rot.get(0).unwrap()), [0.0, 0.0, 0.0, 1.0]);
    assert_eq!(q(rot.get(1).unwrap()), [0.0, 0.0, 1.0, 0.0]);
    let arr = sparse.try_with_type::<[Float32; 4]>().unwrap();
    assert_eq!(q(arr.get(2).unwrap()), [0.0, 0.0, 0.0, 0.0]);
    assert!(sparse.try_with_type::<RotationQuat>().is_ok());
    let vec3 = ElementShape::Vec3(ElementType::F32);
    let v3 = DenseData::<Untyped>::new(Meta::from_accessor(vec3, 1, None, false), &vals);
    assert!(v3.try_with_type::<RotationQuat>().is_err());
}
