use vstd::prelude::*;

verus! {

broadcast use vstd::layout::layout_of_primitives;

/// The type of one vertex attribute: a scalar type and a number of components.
#[allow(missing_docs)]
#[derive(Copy, Clone, Debug, PartialEq, Eq, Structural)]
pub enum BindingType {
    I8,
    I8I8,
    I8I8I8,
    I8I8I8I8,
    U8,
    U8U8,
    U8U8U8,
    U8U8U8U8,
    I16,
    I16I16,
    I16I16I16,
    I16I16I16I16,
    U16,
    U16U16,
    U16U16U16,
    U16U16U16U16,
    I32,
    I32I32,
    I32I32I32,
    I32I32I32I32,
    U32,
    U32U32,
    U32U32U32,
    U32U32U32U32,
    F32,
    F32F32,
    F32F32F32,
    F32F32F32F32,
}

impl BindingType {
    /// The number of bytes that one value of this binding type takes: the width
    /// of its scalar type times its number of components.
    pub open spec fn byte_size(self) -> nat {
        match self {
            BindingType::I8 => 1,
            BindingType::I8I8 => 2,
            BindingType::I8I8I8 => 3,
            BindingType::I8I8I8I8 => 4,
            BindingType::U8 => 1,
            BindingType::U8U8 => 2,
            BindingType::U8U8U8 => 3,
            BindingType::U8U8U8U8 => 4,
            BindingType::I16 => 2,
            BindingType::I16I16 => 4,
            BindingType::I16I16I16 => 6,
            BindingType::I16I16I16I16 => 8,
            BindingType::U16 => 2,
            BindingType::U16U16 => 4,
            BindingType::U16U16U16 => 6,
            BindingType::U16U16U16U16 => 8,
            BindingType::I32 => 4,
            BindingType::I32I32 => 8,
            BindingType::I32I32I32 => 12,
            BindingType::I32I32I32I32 => 16,
            BindingType::U32 => 4,
            BindingType::U32U32 => 8,
            BindingType::U32U32U32 => 12,
            BindingType::U32U32U32U32 => 16,
            BindingType::F32 => 4,
            BindingType::F32F32 => 8,
            BindingType::F32F32F32 => 12,
            BindingType::F32F32F32F32 => 16,
        }
    }
}

/// Calls `core::mem::size_of` on the array type `[S; N]`. Besides what vstd
/// already states of this call (it returns `size_of::<[S; N]>()`), the contract
/// claims what std's documentation of `size_of` says of arrays: `[T; n]` has the
/// size `size_of::<T>() * n`.
#[verifier::external_body]
fn array_size_of<S, const N: usize>() -> (r: usize)
    ensures
        r == vstd::layout::size_of::<[S; N]>(),
        r == N * vstd::layout::size_of::<S>(),
{
    core::mem::size_of::<[S; N]>()
}

/// Trait for types that can be used as vertex attributes.
pub trait Attribute: Sized {
    /// The binding type that describes values of this type.
    spec fn binding_type() -> BindingType;

    /// Get the type of data.
    fn get_type(_value: Option<Self>) -> (r: BindingType)
        ensures
            r == Self::binding_type(),
    ;
}

impl Attribute for i8 {
    open spec fn binding_type() -> BindingType {
        BindingType::I8
    }

    fn get_type(_value: Option<i8>) -> (r: BindingType)
        ensures
            r.byte_size() == vstd::layout::size_of::<Self>(),
    {
        BindingType::I8
    }
}

impl Attribute for (i8, i8) {
    open spec fn binding_type() -> BindingType {
        BindingType::I8I8
    }

    fn get_type(_value: Option<(i8, i8)>) -> (r: BindingType)
        ensures
            r.byte_size() == 2 * vstd::layout::size_of::<i8>(),
    {
        BindingType::I8I8
    }
}

impl Attribute for [i8; 2] {
    open spec fn binding_type() -> BindingType {
        BindingType::I8I8
    }

    fn get_type(_value: Option<[i8; 2]>) -> (r: BindingType)
        ensures
            r.byte_size() == 2 * vstd::layout::size_of::<i8>(),
            r.byte_size() == vstd::layout::size_of::<Self>(),
    {
        let _bytes: usize = array_size_of::<i8, 2>();
        BindingType::I8I8
    }
}

impl Attribute for (i8, i8, i8) {
    open spec fn binding_type() -> BindingType {
        BindingType::I8I8I8
    }

    fn get_type(_value: Option<(i8, i8, i8)>) -> (r: BindingType)
        ensures
            r.byte_size() == 3 * vstd::layout::size_of::<i8>(),
    {
        BindingType::I8I8I8
    }
}

impl Attribute for [i8; 3] {
    open spec fn binding_type() -> BindingType {
        BindingType::I8I8I8
    }

    fn get_type(_value: Option<[i8; 3]>) -> (r: BindingType)
        ensures
            r.byte_size() == 3 * vstd::layout::size_of::<i8>(),
            r.byte_size() == vstd::layout::size_of::<Self>(),
    {
        let _bytes: usize = array_size_of::<i8, 3>();
        BindingType::I8I8I8
    }
}

impl Attribute for (i8, i8, i8, i8) {
    open spec fn binding_type() -> BindingType {
        BindingType::I8I8I8I8
    }

    fn get_type(_value: Option<(i8, i8, i8, i8)>) -> (r: BindingType)
        ensures
            r.byte_size() == 4 * vstd::layout::size_of::<i8>(),
    {
        BindingType::I8I8I8I8
    }
}

impl Attribute for [i8; 4] {
    open spec fn binding_type() -> BindingType {
        BindingType::I8I8I8I8
    }

    fn get_type(_value: Option<[i8; 4]>) -> (r: BindingType)
        ensures
            r.byte_size() == 4 * vstd::layout::size_of::<i8>(),
            r.byte_size() == vstd::layout::size_of::<Self>(),
    {
        let _bytes: usize = array_size_of::<i8, 4>();
        BindingType::I8I8I8I8
    }
}

impl Attribute for u8 {
    open spec fn binding_type() -> BindingType {
        BindingType::U8
    }

    fn get_type(_value: Option<u8>) -> (r: BindingType)
        ensures
            r.byte_size() == vstd::layout::size_of::<Self>(),
    {
        BindingType::U8
    }
}

impl Attribute for (u8, u8) {
    open spec fn binding_type() -> BindingType {
        BindingType::U8U8
    }

    fn get_type(_value: Option<(u8, u8)>) -> (r: BindingType)
        ensures
            r.byte_size() == 2 * vstd::layout::size_of::<u8>(),
    {
        BindingType::U8U8
    }
}

impl Attribute for [u8; 2] {
    open spec fn binding_type() -> BindingType {
        BindingType::U8U8
    }

    fn get_type(_value: Option<[u8; 2]>) -> (r: BindingType)
        ensures
            r.byte_size() == 2 * vstd::layout::size_of::<u8>(),
            r.byte_size() == vstd::layout::size_of::<Self>(),
    {
        let _bytes: usize = array_size_of::<u8, 2>();
        BindingType::U8U8
    }
}

impl Attribute for (u8, u8, u8) {
    open spec fn binding_type() -> BindingType {
        BindingType::U8U8U8
    }

    fn get_type(_value: Option<(u8, u8, u8)>) -> (r: BindingType)
        ensures
            r.byte_size() == 3 * vstd::layout::size_of::<u8>(),
    {
        BindingType::U8U8U8
    }
}

impl Attribute for [u8; 3] {
    open spec fn binding_type() -> BindingType {
        BindingType::U8U8U8
    }

    fn get_type(_value: Option<[u8; 3]>) -> (r: BindingType)
        ensures
            r.byte_size() == 3 * vstd::layout::size_of::<u8>(),
            r.byte_size() == vstd::layout::size_of::<Self>(),
    {
        let _bytes: usize = array_size_of::<u8, 3>();
        BindingType::U8U8U8
    }
}

impl Attribute for (u8, u8, u8, u8) {
    open spec fn binding_type() -> BindingType {
        BindingType::U8U8U8U8
    }

    fn get_type(_value: Option<(u8, u8, u8, u8)>) -> (r: BindingType)
        ensures
            r.byte_size() == 4 * vstd::layout::size_of::<u8>(),
    {
        BindingType::U8U8U8U8
    }
}

impl Attribute for [u8; 4] {
    open spec fn binding_type() -> BindingType {
        BindingType::U8U8U8U8
    }

    fn get_type(_value: Option<[u8; 4]>) -> (r: BindingType)
        ensures
            r.byte_size() == 4 * vstd::layout::size_of::<u8>(),
            r.byte_size() == vstd::layout::size_of::<Self>(),
    {
        let _bytes: usize = array_size_of::<u8, 4>();
        BindingType::U8U8U8U8
    }
}

impl Attribute for i16 {
    open spec fn binding_type() -> BindingType {
        BindingType::I16
    }

    fn get_type(_value: Option<i16>) -> (r: BindingType)
        ensures
            r.byte_size() == vstd::layout::size_of::<Self>(),
    {
        BindingType::I16
    }
}

impl Attribute for (i16, i16) {
    open spec fn binding_type() -> BindingType {
        BindingType::I16I16
    }

    fn get_type(_value: Option<(i16, i16)>) -> (r: BindingType)
        ensures
            r.byte_size() == 2 * vstd::layout::size_of::<i16>(),
    {
        BindingType::I16I16
    }
}

impl Attribute for [i16; 2] {
    open spec fn binding_type() -> BindingType {
        BindingType::I16I16
    }

    fn get_type(_value: Option<[i16; 2]>) -> (r: BindingType)
        ensures
            r.byte_size() == 2 * vstd::layout::size_of::<i16>(),
            r.byte_size() == vstd::layout::size_of::<Self>(),
    {
        let _bytes: usize = array_size_of::<i16, 2>();
        BindingType::I16I16
    }
}

impl Attribute for (i16, i16, i16) {
    open spec fn binding_type() -> BindingType {
        BindingType::I16I16I16
    }

    fn get_type(_value: Option<(i16, i16, i16)>) -> (r: BindingType)
        ensures
            r.byte_size() == 3 * vstd::layout::size_of::<i16>(),
    {
        BindingType::I16I16I16
    }
}

impl Attribute for [i16; 3] {
    open spec fn binding_type() -> BindingType {
        BindingType::I16I16I16
    }

    fn get_type(_value: Option<[i16; 3]>) -> (r: BindingType)
        ensures
            r.byte_size() == 3 * vstd::layout::size_of::<i16>(),
            r.byte_size() == vstd::layout::size_of::<Self>(),
    {
        let _bytes: usize = array_size_of::<i16, 3>();
        BindingType::I16I16I16
    }
}

impl Attribute for (i16, i16, i16, i16) {
    open spec fn binding_type() -> BindingType {
        BindingType::I16I16I16I16
    }

    fn get_type(_value: Option<(i16, i16, i16, i16)>) -> (r: BindingType)
        ensures
            r.byte_size() == 4 * vstd::layout::size_of::<i16>(),
    {
        BindingType::I16I16I16I16
    }
}

impl Attribute for [i16; 4] {
    open spec fn binding_type() -> BindingType {
        BindingType::I16I16I16I16
    }

    fn get_type(_value: Option<[i16; 4]>) -> (r: BindingType)
        ensures
            r.byte_size() == 4 * vstd::layout::size_of::<i16>(),
            r.byte_size() == vstd::layout::size_of::<Self>(),
    {
        let _bytes: usize = array_size_of::<i16, 4>();
        BindingType::I16I16I16I16
    }
}

impl Attribute for u16 {
    open spec fn binding_type() -> BindingType {
        BindingType::U16
    }

    fn get_type(_value: Option<u16>) -> (r: BindingType)
        ensures
            r.byte_size() == vstd::layout::size_of::<Self>(),
    {
        BindingType::U16
    }
}

impl Attribute for (u16, u16) {
    open spec fn binding_type() -> BindingType {
        BindingType::U16U16
    }

    fn get_type(_value: Option<(u16, u16)>) -> (r: BindingType)
        ensures
            r.byte_size() == 2 * vstd::layout::size_of::<u16>(),
    {
        BindingType::U16U16
    }
}

impl Attribute for [u16; 2] {
    open spec fn binding_type() -> BindingType {
        BindingType::U16U16
    }

    fn get_type(_value: Option<[u16; 2]>) -> (r: BindingType)
        ensures
            r.byte_size() == 2 * vstd::layout::size_of::<u16>(),
            r.byte_size() == vstd::layout::size_of::<Self>(),
    {
        let _bytes: usize = array_size_of::<u16, 2>();
        BindingType::U16U16
    }
}

impl Attribute for (u16, u16, u16) {
    open spec fn binding_type() -> BindingType {
        BindingType::U16U16U16
    }

    fn get_type(_value: Option<(u16, u16, u16)>) -> (r: BindingType)
        ensures
            r.byte_size() == 3 * vstd::layout::size_of::<u16>(),
    {
        BindingType::U16U16U16
    }
}

impl Attribute for [u16; 3] {
    open spec fn binding_type() -> BindingType {
        BindingType::U16U16U16
    }

    fn get_type(_value: Option<[u16; 3]>) -> (r: BindingType)
        ensures
            r.byte_size() == 3 * vstd::layout::size_of::<u16>(),
            r.byte_size() == vstd::layout::size_of::<Self>(),
    {
        let _bytes: usize = array_size_of::<u16, 3>();
        BindingType::U16U16U16
    }
}

impl Attribute for (u16, u16, u16, u16) {
    open spec fn binding_type() -> BindingType {
        BindingType::U16U16U16U16
    }

    fn get_type(_value: Option<(u16, u16, u16, u16)>) -> (r: BindingType)
        ensures
            r.byte_size() == 4 * vstd::layout::size_of::<u16>(),
    {
        BindingType::U16U16U16U16
    }
}

impl Attribute for [u16; 4] {
    open spec fn binding_type() -> BindingType {
        BindingType::U16U16U16U16
    }

    fn get_type(_value: Option<[u16; 4]>) -> (r: BindingType)
        ensures
            r.byte_size() == 4 * vstd::layout::size_of::<u16>(),
            r.byte_size() == vstd::layout::size_of::<Self>(),
    {
        let _bytes: usize = array_size_of::<u16, 4>();
        BindingType::U16U16U16U16
    }
}

impl Attribute for i32 {
    open spec fn binding_type() -> BindingType {
        BindingType::I32
    }

    fn get_type(_value: Option<i32>) -> (r: BindingType)
        ensures
            r.byte_size() == vstd::layout::size_of::<Self>(),
    {
        BindingType::I32
    }
}

impl Attribute for (i32, i32) {
    open spec fn binding_type() -> BindingType {
        BindingType::I32I32
    }

    fn get_type(_value: Option<(i32, i32)>) -> (r: BindingType)
        ensures
            r.byte_size() == 2 * vstd::layout::size_of::<i32>(),
    {
        BindingType::I32I32
    }
}

impl Attribute for [i32; 2] {
    open spec fn binding_type() -> BindingType {
        BindingType::I32I32
    }

    fn get_type(_value: Option<[i32; 2]>) -> (r: BindingType)
        ensures
            r.byte_size() == 2 * vstd::layout::size_of::<i32>(),
            r.byte_size() == vstd::layout::size_of::<Self>(),
    {
        let _bytes: usize = array_size_of::<i32, 2>();
        BindingType::I32I32
    }
}

impl Attribute for (i32, i32, i32) {
    open spec fn binding_type() -> BindingType {
        BindingType::I32I32I32
    }

    fn get_type(_value: Option<(i32, i32, i32)>) -> (r: BindingType)
        ensures
            r.byte_size() == 3 * vstd::layout::size_of::<i32>(),
    {
        BindingType::I32I32I32
    }
}

impl Attribute for [i32; 3] {
    open spec fn binding_type() -> BindingType {
        BindingType::I32I32I32
    }

    fn get_type(_value: Option<[i32; 3]>) -> (r: BindingType)
        ensures
            r.byte_size() == 3 * vstd::layout::size_of::<i32>(),
            r.byte_size() == vstd::layout::size_of::<Self>(),
    {
        let _bytes: usize = array_size_of::<i32, 3>();
        BindingType::I32I32I32
    }
}

impl Attribute for (i32, i32, i32, i32) {
    open spec fn binding_type() -> BindingType {
        BindingType::I32I32I32I32
    }

    fn get_type(_value: Option<(i32, i32, i32, i32)>) -> (r: BindingType)
        ensures
            r.byte_size() == 4 * vstd::layout::size_of::<i32>(),
    {
        BindingType::I32I32I32I32
    }
}

impl Attribute for [i32; 4] {
    open spec fn binding_type() -> BindingType {
        BindingType::I32I32I32I32
    }

    fn get_type(_value: Option<[i32; 4]>) -> (r: BindingType)
        ensures
            r.byte_size() == 4 * vstd::layout::size_of::<i32>(),
            r.byte_size() == vstd::layout::size_of::<Self>(),
    {
        let _bytes: usize = array_size_of::<i32, 4>();
        BindingType::I32I32I32I32
    }
}

impl Attribute for u32 {
    open spec fn binding_type() -> BindingType {
        BindingType::U32
    }

    fn get_type(_value: Option<u32>) -> (r: BindingType)
        ensures
            r.byte_size() == vstd::layout::size_of::<Self>(),
    {
        BindingType::U32
    }
}

impl Attribute for (u32, u32) {
    open spec fn binding_type() -> BindingType {
        BindingType::U32U32
    }

    fn get_type(_value: Option<(u32, u32)>) -> (r: BindingType)
        ensures
            r.byte_size() == 2 * vstd::layout::size_of::<u32>(),
    {
        BindingType::U32U32
    }
}

impl Attribute for [u32; 2] {
    open spec fn binding_type() -> BindingType {
        BindingType::U32U32
    }

    fn get_type(_value: Option<[u32; 2]>) -> (r: BindingType)
        ensures
            r.byte_size() == 2 * vstd::layout::size_of::<u32>(),
            r.byte_size() == vstd::layout::size_of::<Self>(),
    {
        let _bytes: usize = array_size_of::<u32, 2>();
        BindingType::U32U32
    }
}

impl Attribute for (u32, u32, u32) {
    open spec fn binding_type() -> BindingType {
        BindingType::U32U32U32
    }

    fn get_type(_value: Option<(u32, u32, u32)>) -> (r: BindingType)
        ensures
            r.byte_size() == 3 * vstd::layout::size_of::<u32>(),
    {
        BindingType::U32U32U32
    }
}

impl Attribute for [u32; 3] {
    open spec fn binding_type() -> BindingType {
        BindingType::U32U32U32
    }

    fn get_type(_value: Option<[u32; 3]>) -> (r: BindingType)
        ensures
            r.byte_size() == 3 * vstd::layout::size_of::<u32>(),
            r.byte_size() == vstd::layout::size_of::<Self>(),
    {
        let _bytes: usize = array_size_of::<u32, 3>();
        BindingType::U32U32U32
    }
}

impl Attribute for (u32, u32, u32, u32) {
    open spec fn binding_type() -> BindingType {
        BindingType::U32U32U32U32
    }

    fn get_type(_value: Option<(u32, u32, u32, u32)>) -> (r: BindingType)
        ensures
            r.byte_size() == 4 * vstd::layout::size_of::<u32>(),
    {
        BindingType::U32U32U32U32
    }
}

impl Attribute for [u32; 4] {
    open spec fn binding_type() -> BindingType {
        BindingType::U32U32U32U32
    }

    fn get_type(_value: Option<[u32; 4]>) -> (r: BindingType)
        ensures
            r.byte_size() == 4 * vstd::layout::size_of::<u32>(),
            r.byte_size() == vstd::layout::size_of::<Self>(),
    {
        let _bytes: usize = array_size_of::<u32, 4>();
        BindingType::U32U32U32U32
    }
}

/// A vertex attribute written as a tuple and the same attribute written as an
/// array (same scalar type, same number of components) are described by the
/// same binding type.
pub proof fn lemma_tuple_and_array_forms_agree()
    ensures
        <(i8, i8) as Attribute>::binding_type() == <[i8; 2] as Attribute>::binding_type(),
        <(i8, i8, i8) as Attribute>::binding_type() == <[i8; 3] as Attribute>::binding_type(),
        <(i8, i8, i8, i8) as Attribute>::binding_type() == <[i8; 4] as Attribute>::binding_type(),
        <(u8, u8) as Attribute>::binding_type() == <[u8; 2] as Attribute>::binding_type(),
        <(u8, u8, u8) as Attribute>::binding_type() == <[u8; 3] as Attribute>::binding_type(),
        <(u8, u8, u8, u8) as Attribute>::binding_type() == <[u8; 4] as Attribute>::binding_type(),
        <(i16, i16) as Attribute>::binding_type() == <[i16; 2] as Attribute>::binding_type(),
        <(i16, i16, i16) as Attribute>::binding_type() == <[i16; 3] as Attribute>::binding_type(),
        <(i16, i16, i16, i16) as Attribute>::binding_type() == <[i16; 4] as Attribute>::binding_type(),
        <(u16, u16) as Attribute>::binding_type() == <[u16; 2] as Attribute>::binding_type(),
        <(u16, u16, u16) as Attribute>::binding_type() == <[u16; 3] as Attribute>::binding_type(),
        <(u16, u16, u16, u16) as Attribute>::binding_type() == <[u16; 4] as Attribute>::binding_type(),
        <(i32, i32) as Attribute>::binding_type() == <[i32; 2] as Attribute>::binding_type(),
        <(i32, i32, i32) as Attribute>::binding_type() == <[i32; 3] as Attribute>::binding_type(),
        <(i32, i32, i32, i32) as Attribute>::binding_type() == <[i32; 4] as Attribute>::binding_type(),
        <(u32, u32) as Attribute>::binding_type() == <[u32; 2] as Attribute>::binding_type(),
        <(u32, u32, u32) as Attribute>::binding_type() == <[u32; 3] as Attribute>::binding_type(),
        <(u32, u32, u32, u32) as Attribute>::binding_type() == <[u32; 4] as Attribute>::binding_type(),
{
}

} // verus!
