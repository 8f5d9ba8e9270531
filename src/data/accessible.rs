//! Conversion from accessor element bytes to typed values.
use crate::shape::{Dimensions, ElementShape, ElementType};
use vstd::prelude::*;
use vstd::slice::slice_subrange;

verus! {

/// The unsigned value of the two little-endian bytes at the start of `b`.
pub open spec fn le_u16(b: Seq<u8>) -> int {
    b[0] as int + 256 * b[1] as int
}

/// The unsigned value of the four little-endian bytes at the start of `b`.
pub open spec fn le_u32(b: Seq<u8>) -> int {
    b[0] as int + 256 * b[1] as int + 65536 * b[2] as int + 16777216 * b[3] as int
}

/// The two little-endian bytes of `v`, for `0 <= v < 2^16`.
pub open spec fn le_bytes_u16(v: int) -> Seq<u8> {
    seq![(v % 256) as u8, (v / 256) as u8]
}

/// The four little-endian bytes of `v`, for `0 <= v < 2^32`.
pub open spec fn le_bytes_u32(v: int) -> Seq<u8> {
    seq![(v % 256) as u8, ((v / 256) % 256) as u8, ((v / 65536) % 256) as u8, (v / 16777216) as u8]
}

/// Reading back the two little-endian bytes of `v` gives `v`.
pub proof fn lemma_le_u16_round_trip(v: int, rest: Seq<u8>)
    requires
        0 <= v < 65536,
    ensures
        le_u16(le_bytes_u16(v) + rest) == v,
{
    let b = le_bytes_u16(v) + rest;
    assert(b[0] == (v % 256) as u8);
    assert(b[1] == (v / 256) as u8);
}

/// Reading back the four little-endian bytes of `v` gives `v`.
pub proof fn lemma_le_u32_round_trip(v: int, rest: Seq<u8>)
    requires
        0 <= v < 4294967296,
    ensures
        le_u32(le_bytes_u32(v) + rest) == v,
{
    let b = le_bytes_u32(v) + rest;
    assert(b[0] == (v % 256) as u8);
    assert(b[1] == ((v / 256) % 256) as u8);
    assert(b[2] == ((v / 65536) % 256) as u8);
    assert(b[3] == (v / 16777216) as u8);
}

/// The two's complement reading of an unsigned value of `bits` bits.
pub open spec fn signed_of(v: int, bits: nat) -> int {
    if v < pow2(bits) / 2 {
        v
    } else {
        v - pow2(bits)
    }
}

/// Two raised to `n`.
pub open spec fn pow2(n: nat) -> int
    decreases n,
{
    if n == 0 {
        1
    } else {
        2 * pow2((n - 1) as nat)
    }
}

/// A single precision float, held as its IEEE-754 bit pattern.
#[derive(Debug, Clone, Copy, PartialEq, Eq, Structural, Hash)]
pub struct Float32(pub u32);

/// A raw element from an accessor with its byte data and associated expected
/// shape
#[derive(Clone, Copy)]
pub struct Element<'a> {
    /// The raw element bytes
    pub data: &'a [u8],
    /// The expected data shape
    pub shape: ElementShape,
}

impl<'a> Element<'a> {
    /// Consume a [u8] from the [Element]
    pub fn read_u8(&mut self) -> (r: u8)
        requires
            old(self).data@.len() >= 1,
        ensures
            r == old(self).data@[0],
            final(self).data@ == old(self).data@.skip(1),
            final(self).shape == old(self).shape,
    {
        let out = self.data[0];
        self.data = slice_subrange(self.data, 1, self.data.len());
        out
    }

    /// Consume an [i8] from the [Element]
    pub fn read_i8(&mut self) -> (r: i8)
        requires
            old(self).data@.len() >= 1,
        ensures
            r as int == signed_of(old(self).data@[0] as int, 8),
            final(self).data@ == old(self).data@.skip(1),
            final(self).shape == old(self).shape,
    {
        let v = self.read_u8();
        proof {
            reveal_with_fuel(pow2, 9);
        }
        if v < 128 {
            v as i8
        } else {
            (v as i16 - 256) as i8
        }
    }

    /// Consume a little-endian [u16] from the [Element]
    pub fn read_u16(&mut self) -> (r: u16)
        requires
            old(self).data@.len() >= 2,
        ensures
            r as int == le_u16(old(self).data@),
            final(self).data@ == old(self).data@.skip(2),
            final(self).shape == old(self).shape,
    {
        let b0 = self.data[0] as u16;
        let b1 = self.data[1] as u16;
        self.data = slice_subrange(self.data, 2, self.data.len());
        b0 + b1 * 256
    }

    /// Consume a little-endian [i16] from the [Element]
    pub fn read_i16(&mut self) -> (r: i16)
        requires
            old(self).data@.len() >= 2,
        ensures
            r as int == signed_of(le_u16(old(self).data@), 16),
            final(self).data@ == old(self).data@.skip(2),
            final(self).shape == old(self).shape,
    {
        let v = self.read_u16();
        proof {
            reveal_with_fuel(pow2, 17);
        }
        if v < 32768 {
            v as i16
        } else {
            (v as i32 - 65536) as i16
        }
    }

    /// Consume a little-endian [u32] from the [Element]
    pub fn read_u32(&mut self) -> (r: u32)
        requires
            old(self).data@.len() >= 4,
        ensures
            r as int == le_u32(old(self).data@),
            final(self).data@ == old(self).data@.skip(4),
            final(self).shape == old(self).shape,
    {
        let b0 = self.data[0] as u32;
        let b1 = self.data[1] as u32;
        let b2 = self.data[2] as u32;
        let b3 = self.data[3] as u32;
        self.data = slice_subrange(self.data, 4, self.data.len());
        b0 + b1 * 256 + b2 * 65536 + b3 * 16777216
    }

    /// Consume a little-endian single precision float from the [Element]
    pub fn read_f32(&mut self) -> (r: Float32)
        requires
            old(self).data@.len() >= 4,
        ensures
            r.0 as int == le_u32(old(self).data@),
            final(self).data@ == old(self).data@.skip(4),
            final(self).shape == old(self).shape,
    {
        Float32(self.read_u32())
    }
}

/// Skipping `m` and then `n` items skips `m + n` items.
pub proof fn lemma_skip_skip<A>(s: Seq<A>, m: int, n: int)
    requires
        0 <= m,
        0 <= n,
        m + n <= s.len(),
    ensures
        s.skip(m).skip(n) == s.skip(m + n),
{
    assert(s.skip(m).skip(n) =~= s.skip(m + n));
}

/// Component `i` of an element whose components have type `T`.
pub open spec fn component<T: AccessorData>(bytes: Seq<u8>, i: int) -> T {
    T::spec_read(bytes.skip(i * T::spec_kind().spec_size()))
}

/// A trait for types which can convert glTF accessor elements into rust types.
///
/// The rust type does not have to match the element type or dimensionality,
/// and may be able to convert from multiple glTF element shapes into the same
/// rust type.
pub trait Accessible {
    /// The target rust element type
    type Item;

    /// Whether elements of `shape` can be converted into [Self::Item].
    spec fn spec_validate(shape: ElementShape) -> bool;

    /// The value that stands for an element with no data.
    spec fn spec_zero(shape: ElementShape) -> Self::Item;

    /// The value converted from the element of `shape` at the start of `bytes`.
    spec fn spec_decode(shape: ElementShape, bytes: Seq<u8>) -> Self::Item;

    /// The "zero" value of the element
    ///
    /// This is used for sparse accessors that do not have a defined base view.
    /// Any element which does not have a specified sparse value will get
    /// [Self::zero()].
    fn zero(shape: ElementShape) -> (r: Self::Item)
        ensures
            r == Self::spec_zero(shape),
    ;

    /// Convert the provided element into the destination rust type
    fn from_element(elem: Element) -> (r: Self::Item)
        requires
            Self::spec_validate(elem.shape),
            elem.data@.len() >= elem.shape.spec_size(),
        ensures
            r == Self::spec_decode(elem.shape, elem.data@),
    ;

    /// Confirm that given the accessor's [ElementShape] this type can
    /// successfully produce the target rust type
    fn validate_accessor(shape: ElementShape) -> (r: bool)
        ensures
            r == Self::spec_validate(shape),
    ;
}

/// Every array shape converts from exactly the elements of its own component
/// type and dimensionality.
impl<T: AccessorShape> Accessible for T {
    type Item = T;

    open spec fn spec_validate(shape: ElementShape) -> bool {
        &&& shape.spec_data_type() == T::Data::spec_kind()
        &&& shape.spec_dimensions() == T::spec_dim()
    }

    open spec fn spec_zero(shape: ElementShape) -> T {
        T::spec_zero_shape()
    }

    open spec fn spec_decode(shape: ElementShape, bytes: Seq<u8>) -> T {
        T::spec_decode_shape(bytes)
    }

    fn zero(shape: ElementShape) -> (r: T) {
        T::zero_shape()
    }

    fn from_element(elem: Element) -> (r: T) {
        <T as AccessorShape>::from_element(elem)
    }

    fn validate_accessor(shape: ElementShape) -> (r: bool) {
        shape.data_type() == <T::Data as AccessorData>::kind() && shape.dimensions() == T::dim()
    }
}

/// An array shape accepts exactly the elements of its own component type and
/// dimensionality, and those elements are exactly as long as the bytes its
/// conversion reads.
pub proof fn lemma_validation_sound<T: AccessorShape>(shape: ElementShape)
    ensures
        <T as Accessible>::spec_validate(shape) <==> (shape.spec_data_type() == T::Data::spec_kind()
            && shape.spec_dimensions() == T::spec_dim()),
        <T as Accessible>::spec_validate(shape) ==> shape.spec_size() == T::spec_dim().multiplicity()
            * T::Data::spec_kind().spec_size(),
{
}

/// A primitive component type that can be read from element bytes.
pub trait AccessorData: Copy + Sized {
    /// The component type that this rust type reads.
    spec fn spec_kind() -> ElementType;

    /// The zero value of this component type.
    spec fn spec_zero_component() -> Self;

    /// The component read from the start of `bytes`.
    spec fn spec_read(bytes: Seq<u8>) -> Self;

    /// The little-endian bytes of a component.
    spec fn spec_encode(self) -> Seq<u8>;

    /// Reading the bytes of a component, whatever follows them, gives the
    /// component back.
    proof fn lemma_read_encode(x: Self, rest: Seq<u8>)
        ensures
            x.spec_encode().len() == Self::spec_kind().spec_size(),
            Self::spec_read(x.spec_encode() + rest) == x,
    ;

    /// The component type that this rust type reads
    fn kind() -> (r: ElementType)
        ensures
            r == Self::spec_kind(),
    ;

    /// The zero value for this type
    fn zero_component() -> (r: Self)
        ensures
            r == Self::spec_zero_component(),
    ;

    /// Get the data from a byte buffer and advance the buffer
    fn get(elem: &mut Element) -> (r: Self)
        requires
            old(elem).data@.len() >= Self::spec_kind().spec_size(),
        ensures
            r == Self::spec_read(old(elem).data@),
            final(elem).data@ == old(elem).data@.skip(Self::spec_kind().spec_size() as int),
            final(elem).shape == old(elem).shape,
    ;
}

impl AccessorData for u8 {
    open spec fn spec_kind() -> ElementType {
        ElementType::U8
    }

    open spec fn spec_zero_component() -> Self {
        0
    }

    open spec fn spec_read(bytes: Seq<u8>) -> Self {
        bytes[0]
    }

    open spec fn spec_encode(self) -> Seq<u8> {
        seq![self]
    }

    proof fn lemma_read_encode(x: Self, rest: Seq<u8>) {
        assert((x.spec_encode() + rest)[0] == x);
    }

    fn kind() -> (r: ElementType) {
        ElementType::U8
    }

    fn zero_component() -> (r: Self) {
        0
    }

    fn get(elem: &mut Element) -> (r: Self) {
        elem.read_u8()
    }
}

impl AccessorData for i8 {
    open spec fn spec_kind() -> ElementType {
        ElementType::I8
    }

    open spec fn spec_zero_component() -> Self {
        0
    }

    open spec fn spec_read(bytes: Seq<u8>) -> Self {
        signed_of(bytes[0] as int, 8) as i8
    }

    open spec fn spec_encode(self) -> Seq<u8> {
        seq![(if self < 0 {
            self + 256
        } else {
            self as int
        }) as u8]
    }

    proof fn lemma_read_encode(x: Self, rest: Seq<u8>) {
        reveal_with_fuel(pow2, 9);
        assert((x.spec_encode() + rest)[0] == x.spec_encode()[0]);
    }

    fn kind() -> (r: ElementType) {
        ElementType::I8
    }

    fn zero_component() -> (r: Self) {
        0
    }

    fn get(elem: &mut Element) -> (r: Self) {
        elem.read_i8()
    }
}

impl AccessorData for u16 {
    open spec fn spec_kind() -> ElementType {
        ElementType::U16
    }

    open spec fn spec_zero_component() -> Self {
        0
    }

    open spec fn spec_read(bytes: Seq<u8>) -> Self {
        le_u16(bytes) as u16
    }

    open spec fn spec_encode(self) -> Seq<u8> {
        le_bytes_u16(self as int)
    }

    proof fn lemma_read_encode(x: Self, rest: Seq<u8>) {
        lemma_le_u16_round_trip(x as int, rest);
    }

    fn kind() -> (r: ElementType) {
        ElementType::U16
    }

    fn zero_component() -> (r: Self) {
        0
    }

    fn get(elem: &mut Element) -> (r: Self) {
        elem.read_u16()
    }
}

impl AccessorData for i16 {
    open spec fn spec_kind() -> ElementType {
        ElementType::I16
    }

    open spec fn spec_zero_component() -> Self {
        0
    }

    open spec fn spec_read(bytes: Seq<u8>) -> Self {
        signed_of(le_u16(bytes), 16) as i16
    }

    open spec fn spec_encode(self) -> Seq<u8> {
        le_bytes_u16(
            if self < 0 {
                self + 65536
            } else {
                self as int
            },
        )
    }

    proof fn lemma_read_encode(x: Self, rest: Seq<u8>) {
        reveal_with_fuel(pow2, 17);
        lemma_le_u16_round_trip(if x < 0 { x + 65536 } else { x as int }, rest);
    }

    fn kind() -> (r: ElementType) {
        ElementType::I16
    }

    fn zero_component() -> (r: Self) {
        0
    }

    fn get(elem: &mut Element) -> (r: Self) {
        elem.read_i16()
    }
}

impl AccessorData for u32 {
    open spec fn spec_kind() -> ElementType {
        ElementType::U32
    }

    open spec fn spec_zero_component() -> Self {
        0
    }

    open spec fn spec_read(bytes: Seq<u8>) -> Self {
        le_u32(bytes) as u32
    }

    open spec fn spec_encode(self) -> Seq<u8> {
        le_bytes_u32(self as int)
    }

    proof fn lemma_read_encode(x: Self, rest: Seq<u8>) {
        lemma_le_u32_round_trip(x as int, rest);
    }

    fn kind() -> (r: ElementType) {
        ElementType::U32
    }

    fn zero_component() -> (r: Self) {
        0
    }

    fn get(elem: &mut Element) -> (r: Self) {
        elem.read_u32()
    }
}

impl AccessorData for Float32 {
    open spec fn spec_kind() -> ElementType {
        ElementType::F32
    }

    open spec fn spec_zero_component() -> Self {
        Float32(0)
    }

    open spec fn spec_read(bytes: Seq<u8>) -> Self {
        Float32(le_u32(bytes) as u32)
    }

    open spec fn spec_encode(self) -> Seq<u8> {
        le_bytes_u32(self.0 as int)
    }

    proof fn lemma_read_encode(x: Self, rest: Seq<u8>) {
        lemma_le_u32_round_trip(x.0 as int, rest);
    }

    fn kind() -> (r: ElementType) {
        ElementType::F32
    }

    fn zero_component() -> (r: Self) {
        Float32(0)
    }

    fn get(elem: &mut Element) -> (r: Self) {
        elem.read_f32()
    }
}

/// The bytes of components `xs`, one after another.
pub open spec fn encode_all<T: AccessorData>(xs: Seq<T>) -> Seq<u8>
    decreases xs.len(),
{
    if xs.len() == 0 {
        Seq::empty()
    } else {
        xs[0].spec_encode() + encode_all(xs.drop_first())
    }
}

/// The bytes of one element holding value `x`.
pub open spec fn encode_shape<T: AccessorShape>(x: T) -> Seq<u8> {
    encode_all(x.spec_components())
}

/// The bytes of components `xs` are as many as the component size takes.
pub proof fn lemma_encode_all_len<T: AccessorData>(xs: Seq<T>)
    ensures
        encode_all(xs).len() == xs.len() * T::spec_kind().spec_size(),
    decreases xs.len(),
{
    if xs.len() > 0 {
        T::lemma_read_encode(xs[0], Seq::empty());
        lemma_encode_all_len(xs.drop_first());
        let s = T::spec_kind().spec_size() as int;
        assert(xs.len() * s == (xs.len() - 1) * s + s) by (nonlinear_arith);
    }
}

/// Skipping the bytes of the first `i` components leaves the bytes of the
/// others.
pub proof fn lemma_encode_all_skip<T: AccessorData>(xs: Seq<T>, rest: Seq<u8>, i: int)
    requires
        0 <= i <= xs.len(),
    ensures
        (encode_all(xs) + rest).skip(i * T::spec_kind().spec_size()) == encode_all(xs.skip(i))
            + rest,
    decreases i,
{
    if i == 0 {
        assert((encode_all(xs) + rest).skip(0) =~= encode_all(xs) + rest);
        assert(xs.skip(0) =~= xs);
    } else {
        let s = T::spec_kind().spec_size() as int;
        let first = xs[0].spec_encode();
        let tail = xs.drop_first();
        T::lemma_read_encode(xs[0], rest);
        lemma_encode_all_skip(tail, rest, i - 1);
        assert(encode_all(xs) + rest =~= first + (encode_all(tail) + rest));
        assert(i * s == (i - 1) * s + s) by (nonlinear_arith);
        lemma_encode_all_len(tail);
        assert((i - 1) * s <= tail.len() * s) by (nonlinear_arith)
            requires
                i - 1 <= tail.len(),
                s >= 0,
        ;
        assert((first + (encode_all(tail) + rest)).skip(i * s) =~= (encode_all(tail) + rest).skip(
            (i - 1) * s,
        ));
        assert(tail.skip(i - 1) =~= xs.skip(i));
    }
}

/// Component `i` read from the bytes of components `xs` is `xs[i]`.
pub proof fn lemma_component_of_encoding<T: AccessorData>(xs: Seq<T>, rest: Seq<u8>, i: int)
    requires
        0 <= i < xs.len(),
    ensures
        component::<T>(encode_all(xs) + rest, i) == xs[i],
{
    lemma_encode_all_skip(xs, rest, i);
    let t = xs.skip(i);
    assert(t[0] == xs[i]);
    assert(encode_all(t) == xs[i].spec_encode() + encode_all(t.drop_first()));
    assert(encode_all(t) + rest =~= xs[i].spec_encode() + (encode_all(t.drop_first()) + rest));
    T::lemma_read_encode(xs[i], encode_all(t.drop_first()) + rest);
}

/// A type that holds the components of one element, mapped from glTF element
/// dimensions to rust arrays
pub trait AccessorShape: Sized {
    /// The underlying data type of each component
    type Data: AccessorData;

    /// The dimensionality that this type holds.
    spec fn spec_dim() -> Dimensions;

    /// The zero value of this type.
    spec fn spec_zero_shape() -> Self;

    /// The value read from the components at the start of `bytes`.
    spec fn spec_decode_shape(bytes: Seq<u8>) -> Self;

    /// The components of a value, in the order the element bytes hold them.
    spec fn spec_components(self) -> Seq<Self::Data>;

    /// Reading the bytes of a value, whatever follows them, gives the value
    /// back.
    proof fn lemma_decode_encode(x: Self, rest: Seq<u8>)
        ensures
            x.spec_components().len() == Self::spec_dim().multiplicity(),
            Self::spec_decode_shape(encode_all(x.spec_components()) + rest) == x,
    ;

    /// The dimensionality of the result
    fn dim() -> (r: Dimensions)
        ensures
            r == Self::spec_dim(),
    ;

    /// The zero value of the element
    fn zero_shape() -> (r: Self)
        ensures
            r == Self::spec_zero_shape(),
    ;

    /// Convert the provided element into the destination shape
    fn from_element(elem: Element) -> (r: Self)
        requires
            elem.data@.len() >= Self::spec_dim().multiplicity() * Self::Data::spec_kind().spec_size(),
        ensures
            r == Self::spec_decode_shape(elem.data@),
    ;
}

/// Every component type is also a scalar shape.
impl<T: AccessorData> AccessorShape for T {
    type Data = T;

    open spec fn spec_dim() -> Dimensions {
        Dimensions::Scalar
    }

    open spec fn spec_zero_shape() -> Self {
        T::spec_zero_component()
    }

    open spec fn spec_decode_shape(bytes: Seq<u8>) -> Self {
        T::spec_read(bytes)
    }

    open spec fn spec_components(self) -> Seq<T> {
        seq![self]
    }

    proof fn lemma_decode_encode(x: Self, rest: Seq<u8>) {
        lemma_component_of_encoding(seq![x], rest, 0);
        assert((encode_all(seq![x]) + rest).skip(0) =~= encode_all(seq![x]) + rest);
    }

    fn dim() -> (r: Dimensions) {
        Dimensions::Scalar
    }

    fn zero_shape() -> (r: Self) {
        T::zero_component()
    }

    fn from_element(elem: Element) -> (r: Self) {
        let mut elem = elem;
        T::get(&mut elem)
    }
}

/// A 2 component vector.
impl<T: AccessorData> AccessorShape for [T; 2] {
    type Data = T;

    open spec fn spec_dim() -> Dimensions {
        Dimensions::Vec2
    }

    open spec fn spec_zero_shape() -> Self {
        let z = T::spec_zero_component();
        [z, z]
    }

    open spec fn spec_decode_shape(bytes: Seq<u8>) -> Self {
        [component::<T>(bytes, 0), component::<T>(bytes, 1)]
    }

    open spec fn spec_components(self) -> Seq<T> {
        seq![self[0], self[1]]
    }

    proof fn lemma_decode_encode(x: Self, rest: Seq<u8>) {
        let xs = x.spec_components();
        lemma_component_of_encoding(xs, rest, 0);
        lemma_component_of_encoding(xs, rest, 1);
        assert(Self::spec_decode_shape(encode_all(xs) + rest) =~= x);
    }

    fn dim() -> (r: Dimensions) {
        Dimensions::Vec2
    }

    fn zero_shape() -> (r: Self) {
        let z = T::zero_component();
        [z, z]
    }

    fn from_element(elem: Element) -> (r: Self) {
        let mut elem = elem;
        let ghost bytes = elem.data@;
        let ghost s = T::spec_kind().spec_size() as int;
        assert(bytes.skip(0) =~= bytes);
        let c0 = T::get(&mut elem);
        proof {
            lemma_skip_skip(bytes, 0 * s, s);
            assert(elem.data@ == bytes.skip((0 + 1) * s));
        }
        let c1 = T::get(&mut elem);
        proof {
            lemma_skip_skip(bytes, 1 * s, s);
            assert(elem.data@ == bytes.skip((1 + 1) * s));
        }
        [c0, c1]
    }
}

/// A 3 component vector.
impl<T: AccessorData> AccessorShape for [T; 3] {
    type Data = T;

    open spec fn spec_dim() -> Dimensions {
        Dimensions::Vec3
    }

    open spec fn spec_zero_shape() -> Self {
        let z = T::spec_zero_component();
        [z, z, z]
    }

    open spec fn spec_decode_shape(bytes: Seq<u8>) -> Self {
        [component::<T>(bytes, 0), component::<T>(bytes, 1), component::<T>(bytes, 2)]
    }

    open spec fn spec_components(self) -> Seq<T> {
        seq![self[0], self[1], self[2]]
    }

    proof fn lemma_decode_encode(x: Self, rest: Seq<u8>) {
        let xs = x.spec_components();
        lemma_component_of_encoding(xs, rest, 0);
        lemma_component_of_encoding(xs, rest, 1);
        lemma_component_of_encoding(xs, rest, 2);
        assert(Self::spec_decode_shape(encode_all(xs) + rest) =~= x);
    }

    fn dim() -> (r: Dimensions) {
        Dimensions::Vec3
    }

    fn zero_shape() -> (r: Self) {
        let z = T::zero_component();
        [z, z, z]
    }

    fn from_element(elem: Element) -> (r: Self) {
        let mut elem = elem;
        let ghost bytes = elem.data@;
        let ghost s = T::spec_kind().spec_size() as int;
        assert(bytes.skip(0) =~= bytes);
        let c0 = T::get(&mut elem);
        proof {
            lemma_skip_skip(bytes, 0 * s, s);
            assert(elem.data@ == bytes.skip((0 + 1) * s));
        }
        let c1 = T::get(&mut elem);
        proof {
            lemma_skip_skip(bytes, 1 * s, s);
            assert(elem.data@ == bytes.skip((1 + 1) * s));
        }
        let c2 = T::get(&mut elem);
        proof {
            lemma_skip_skip(bytes, 2 * s, s);
            assert(elem.data@ == bytes.skip((2 + 1) * s));
        }
        [c0, c1, c2]
    }
}

/// A 4 component vector.
impl<T: AccessorData> AccessorShape for [T; 4] {
    type Data = T;

    open spec fn spec_dim() -> Dimensions {
        Dimensions::Vec4
    }

    open spec fn spec_zero_shape() -> Self {
        let z = T::spec_zero_component();
        [z, z, z, z]
    }

    open spec fn spec_decode_shape(bytes: Seq<u8>) -> Self {
        [component::<T>(bytes, 0), component::<T>(bytes, 1), component::<T>(bytes, 2), component::<T>(bytes, 3)]
    }

    open spec fn spec_components(self) -> Seq<T> {
        seq![self[0], self[1], self[2], self[3]]
    }

    proof fn lemma_decode_encode(x: Self, rest: Seq<u8>) {
        let xs = x.spec_components();
        lemma_component_of_encoding(xs, rest, 0);
        lemma_component_of_encoding(xs, rest, 1);
        lemma_component_of_encoding(xs, rest, 2);
        lemma_component_of_encoding(xs, rest, 3);
        assert(Self::spec_decode_shape(encode_all(xs) + rest) =~= x);
    }

    fn dim() -> (r: Dimensions) {
        Dimensions::Vec4
    }

    fn zero_shape() -> (r: Self) {
        let z = T::zero_component();
        [z, z, z, z]
    }

    fn from_element(elem: Element) -> (r: Self) {
        let mut elem = elem;
        let ghost bytes = elem.data@;
        let ghost s = T::spec_kind().spec_size() as int;
        assert(bytes.skip(0) =~= bytes);
        let c0 = T::get(&mut elem);
        proof {
            lemma_skip_skip(bytes, 0 * s, s);
            assert(elem.data@ == bytes.skip((0 + 1) * s));
        }
        let c1 = T::get(&mut elem);
        proof {
            lemma_skip_skip(bytes, 1 * s, s);
            assert(elem.data@ == bytes.skip((1 + 1) * s));
        }
        let c2 = T::get(&mut elem);
        proof {
            lemma_skip_skip(bytes, 2 * s, s);
            assert(elem.data@ == bytes.skip((2 + 1) * s));
        }
        let c3 = T::get(&mut elem);
        proof {
            lemma_skip_skip(bytes, 3 * s, s);
            assert(elem.data@ == bytes.skip((3 + 1) * s));
        }
        [c0, c1, c2, c3]
    }
}

/// A 2x2 matrix, one inner array per column.
impl<T: AccessorData> AccessorShape for [[T; 2]; 2] {
    type Data = T;

    open spec fn spec_dim() -> Dimensions {
        Dimensions::Mat2
    }

    open spec fn spec_zero_shape() -> Self {
        let z = T::spec_zero_component();
        [[z, z], [z, z]]
    }

    open spec fn spec_decode_shape(bytes: Seq<u8>) -> Self {
        [
            [component::<T>(bytes, 0), component::<T>(bytes, 1)],
            [component::<T>(bytes, 2), component::<T>(bytes, 3)],
        ]
    }

    open spec fn spec_components(self) -> Seq<T> {
        seq![self[0][0], self[0][1], self[1][0], self[1][1]]
    }

    proof fn lemma_decode_encode(x: Self, rest: Seq<u8>) {
        let xs = x.spec_components();
        lemma_component_of_encoding(xs, rest, 0);
        lemma_component_of_encoding(xs, rest, 1);
        lemma_component_of_encoding(xs, rest, 2);
        lemma_component_of_encoding(xs, rest, 3);
        let d = Self::spec_decode_shape(encode_all(xs) + rest);
        assert(d[0] =~= x[0]);
        assert(d[1] =~= x[1]);
        assert(d =~= x);
    }

    fn dim() -> (r: Dimensions) {
        Dimensions::Mat2
    }

    fn zero_shape() -> (r: Self) {
        let z = T::zero_component();
        [[z, z], [z, z]]
    }

    fn from_element(elem: Element) -> (r: Self) {
        let mut elem = elem;
        let ghost bytes = elem.data@;
        let ghost s = T::spec_kind().spec_size() as int;
        assert(bytes.skip(0) =~= bytes);
        let c0 = T::get(&mut elem);
        proof {
            lemma_skip_skip(bytes, 0 * s, s);
            assert(elem.data@ == bytes.skip((0 + 1) * s));
        }
        let c1 = T::get(&mut elem);
        proof {
            lemma_skip_skip(bytes, 1 * s, s);
            assert(elem.data@ == bytes.skip((1 + 1) * s));
        }
        let c2 = T::get(&mut elem);
        proof {
            lemma_skip_skip(bytes, 2 * s, s);
            assert(elem.data@ == bytes.skip((2 + 1) * s));
        }
        let c3 = T::get(&mut elem);
        proof {
            lemma_skip_skip(bytes, 3 * s, s);
            assert(elem.data@ == bytes.skip((3 + 1) * s));
        }
        [
            [c0, c1],
            [c2, c3],
        ]
    }
}

/// A 3x3 matrix, one inner array per column.
impl<T: AccessorData> AccessorShape for [[T; 3]; 3] {
    type Data = T;

    open spec fn spec_dim() -> Dimensions {
        Dimensions::Mat3
    }

    open spec fn spec_zero_shape() -> Self {
        let z = T::spec_zero_component();
        [[z, z, z], [z, z, z], [z, z, z]]
    }

    open spec fn spec_decode_shape(bytes: Seq<u8>) -> Self {
        [
            [component::<T>(bytes, 0), component::<T>(bytes, 1), component::<T>(bytes, 2)],
            [component::<T>(bytes, 3), component::<T>(bytes, 4), component::<T>(bytes, 5)],
            [component::<T>(bytes, 6), component::<T>(bytes, 7), component::<T>(bytes, 8)],
        ]
    }

    open spec fn spec_components(self) -> Seq<T> {
        seq![self[0][0], self[0][1], self[0][2], self[1][0], self[1][1], self[1][2], self[2][0], self[2][1], self[2][2]]
    }

    proof fn lemma_decode_encode(x: Self, rest: Seq<u8>) {
        let xs = x.spec_components();
        lemma_component_of_encoding(xs, rest, 0);
        lemma_component_of_encoding(xs, rest, 1);
        lemma_component_of_encoding(xs, rest, 2);
        lemma_component_of_encoding(xs, rest, 3);
        lemma_component_of_encoding(xs, rest, 4);
        lemma_component_of_encoding(xs, rest, 5);
        lemma_component_of_encoding(xs, rest, 6);
        lemma_component_of_encoding(xs, rest, 7);
        lemma_component_of_encoding(xs, rest, 8);
        let d = Self::spec_decode_shape(encode_all(xs) + rest);
        assert(d[0] =~= x[0]);
        assert(d[1] =~= x[1]);
        assert(d[2] =~= x[2]);
        assert(d =~= x);
    }

    fn dim() -> (r: Dimensions) {
        Dimensions::Mat3
    }

    fn zero_shape() -> (r: Self) {
        let z = T::zero_component();
        [[z, z, z], [z, z, z], [z, z, z]]
    }

    fn from_element(elem: Element) -> (r: Self) {
        let mut elem = elem;
        let ghost bytes = elem.data@;
        let ghost s = T::spec_kind().spec_size() as int;
        assert(bytes.skip(0) =~= bytes);
        let c0 = T::get(&mut elem);
        proof {
            lemma_skip_skip(bytes, 0 * s, s);
            assert(elem.data@ == bytes.skip((0 + 1) * s));
        }
        let c1 = T::get(&mut elem);
        proof {
            lemma_skip_skip(bytes, 1 * s, s);
            assert(elem.data@ == bytes.skip((1 + 1) * s));
        }
        let c2 = T::get(&mut elem);
        proof {
            lemma_skip_skip(bytes, 2 * s, s);
            assert(elem.data@ == bytes.skip((2 + 1) * s));
        }
        let c3 = T::get(&mut elem);
        proof {
            lemma_skip_skip(bytes, 3 * s, s);
            assert(elem.data@ == bytes.skip((3 + 1) * s));
        }
        let c4 = T::get(&mut elem);
        proof {
            lemma_skip_skip(bytes, 4 * s, s);
            assert(elem.data@ == bytes.skip((4 + 1) * s));
        }
        let c5 = T::get(&mut elem);
        proof {
            lemma_skip_skip(bytes, 5 * s, s);
            assert(elem.data@ == bytes.skip((5 + 1) * s));
        }
        let c6 = T::get(&mut elem);
        proof {
            lemma_skip_skip(bytes, 6 * s, s);
            assert(elem.data@ == bytes.skip((6 + 1) * s));
        }
        let c7 = T::get(&mut elem);
        proof {
            lemma_skip_skip(bytes, 7 * s, s);
            assert(elem.data@ == bytes.skip((7 + 1) * s));
        }
        let c8 = T::get(&mut elem);
        proof {
            lemma_skip_skip(bytes, 8 * s, s);
            assert(elem.data@ == bytes.skip((8 + 1) * s));
        }
        [
            [c0, c1, c2],
            [c3, c4, c5],
            [c6, c7, c8],
        ]
    }
}

/// A 4x4 matrix, one inner array per column.
impl<T: AccessorData> AccessorShape for [[T; 4]; 4] {
    type Data = T;

    open spec fn spec_dim() -> Dimensions {
        Dimensions::Mat4
    }

    open spec fn spec_zero_shape() -> Self {
        let z = T::spec_zero_component();
        [[z, z, z, z], [z, z, z, z], [z, z, z, z], [z, z, z, z]]
    }

    open spec fn spec_decode_shape(bytes: Seq<u8>) -> Self {
        [
            [component::<T>(bytes, 0), component::<T>(bytes, 1), component::<T>(bytes, 2), component::<T>(bytes, 3)],
            [component::<T>(bytes, 4), component::<T>(bytes, 5), component::<T>(bytes, 6), component::<T>(bytes, 7)],
            [component::<T>(bytes, 8), component::<T>(bytes, 9), component::<T>(bytes, 10), component::<T>(bytes, 11)],
            [component::<T>(bytes, 12), component::<T>(bytes, 13), component::<T>(bytes, 14), component::<T>(bytes, 15)],
        ]
    }

    open spec fn spec_components(self) -> Seq<T> {
        seq![self[0][0], self[0][1], self[0][2], self[0][3], self[1][0], self[1][1], self[1][2], self[1][3], self[2][0], self[2][1], self[2][2], self[2][3], self[3][0], self[3][1], self[3][2], self[3][3]]
    }

    proof fn lemma_decode_encode(x: Self, rest: Seq<u8>) {
        let xs = x.spec_components();
        lemma_component_of_encoding(xs, rest, 0);
        lemma_component_of_encoding(xs, rest, 1);
        lemma_component_of_encoding(xs, rest, 2);
        lemma_component_of_encoding(xs, rest, 3);
        lemma_component_of_encoding(xs, rest, 4);
        lemma_component_of_encoding(xs, rest, 5);
        lemma_component_of_encoding(xs, rest, 6);
        lemma_component_of_encoding(xs, rest, 7);
        lemma_component_of_encoding(xs, rest, 8);
        lemma_component_of_encoding(xs, rest, 9);
        lemma_component_of_encoding(xs, rest, 10);
        lemma_component_of_encoding(xs, rest, 11);
        lemma_component_of_encoding(xs, rest, 12);
        lemma_component_of_encoding(xs, rest, 13);
        lemma_component_of_encoding(xs, rest, 14);
        lemma_component_of_encoding(xs, rest, 15);
        let d = Self::spec_decode_shape(encode_all(xs) + rest);
        assert(d[0] =~= x[0]);
        assert(d[1] =~= x[1]);
        assert(d[2] =~= x[2]);
        assert(d[3] =~= x[3]);
        assert(d =~= x);
    }

    fn dim() -> (r: Dimensions) {
        Dimensions::Mat4
    }

    fn zero_shape() -> (r: Self) {
        let z = T::zero_component();
        [[z, z, z, z], [z, z, z, z], [z, z, z, z], [z, z, z, z]]
    }

    fn from_element(elem: Element) -> (r: Self) {
        let mut elem = elem;
        let ghost bytes = elem.data@;
        let ghost s = T::spec_kind().spec_size() as int;
        assert(bytes.skip(0) =~= bytes);
        let c0 = T::get(&mut elem);
        proof {
            lemma_skip_skip(bytes, 0 * s, s);
            assert(elem.data@ == bytes.skip((0 + 1) * s));
        }
        let c1 = T::get(&mut elem);
        proof {
            lemma_skip_skip(bytes, 1 * s, s);
            assert(elem.data@ == bytes.skip((1 + 1) * s));
        }
        let c2 = T::get(&mut elem);
        proof {
            lemma_skip_skip(bytes, 2 * s, s);
            assert(elem.data@ == bytes.skip((2 + 1) * s));
        }
        let c3 = T::get(&mut elem);
        proof {
            lemma_skip_skip(bytes, 3 * s, s);
            assert(elem.data@ == bytes.skip((3 + 1) * s));
        }
        let c4 = T::get(&mut elem);
        proof {
            lemma_skip_skip(bytes, 4 * s, s);
            assert(elem.data@ == bytes.skip((4 + 1) * s));
        }
        let c5 = T::get(&mut elem);
        proof {
            lemma_skip_skip(bytes, 5 * s, s);
            assert(elem.data@ == bytes.skip((5 + 1) * s));
        }
        let c6 = T::get(&mut elem);
        proof {
            lemma_skip_skip(bytes, 6 * s, s);
            assert(elem.data@ == bytes.skip((6 + 1) * s));
        }
        let c7 = T::get(&mut elem);
        proof {
            lemma_skip_skip(bytes, 7 * s, s);
            assert(elem.data@ == bytes.skip((7 + 1) * s));
        }
        let c8 = T::get(&mut elem);
        proof {
            lemma_skip_skip(bytes, 8 * s, s);
            assert(elem.data@ == bytes.skip((8 + 1) * s));
        }
        let c9 = T::get(&mut elem);
        proof {
            lemma_skip_skip(bytes, 9 * s, s);
            assert(elem.data@ == bytes.skip((9 + 1) * s));
        }
        let c10 = T::get(&mut elem);
        proof {
            lemma_skip_skip(bytes, 10 * s, s);
            assert(elem.data@ == bytes.skip((10 + 1) * s));
        }
        let c11 = T::get(&mut elem);
        proof {
            lemma_skip_skip(bytes, 11 * s, s);
            assert(elem.data@ == bytes.skip((11 + 1) * s));
        }
        let c12 = T::get(&mut elem);
        proof {
            lemma_skip_skip(bytes, 12 * s, s);
            assert(elem.data@ == bytes.skip((12 + 1) * s));
        }
        let c13 = T::get(&mut elem);
        proof {
            lemma_skip_skip(bytes, 13 * s, s);
            assert(elem.data@ == bytes.skip((13 + 1) * s));
        }
        let c14 = T::get(&mut elem);
        proof {
            lemma_skip_skip(bytes, 14 * s, s);
            assert(elem.data@ == bytes.skip((14 + 1) * s));
        }
        let c15 = T::get(&mut elem);
        proof {
            lemma_skip_skip(bytes, 15 * s, s);
            assert(elem.data@ == bytes.skip((15 + 1) * s));
        }
        [
            [c0, c1, c2, c3],
            [c4, c5, c6, c7],
            [c8, c9, c10, c11],
            [c12, c13, c14, c15],
        ]
    }
}

} // verus!
