//! The element-type registry: a closed set of supported scalar element
//! types, each mapped to the unique integer depth tag that the matrix
//! buffer representation uses to self-describe its element kind.

use vstd::prelude::*;
use crate::mat::MatData;

verus! {

/// Depth tag for unsigned 8-bit elements.
pub const CV_8U: i32 = 0;
/// Depth tag for signed 8-bit elements.
pub const CV_8S: i32 = 1;
/// Depth tag for unsigned 16-bit elements.
pub const CV_16U: i32 = 2;
/// Depth tag for signed 16-bit elements.
pub const CV_16S: i32 = 3;
/// Depth tag for signed 32-bit elements.
pub const CV_32S: i32 = 4;
/// Depth tag for 32-bit floating-point elements.
pub const CV_32F: i32 = 5;
/// Depth tag for 64-bit floating-point elements.
pub const CV_64F: i32 = 6;

/// The closed set of scalar element types the matrix representation
/// supports. Extending the registry means adding a variant here together
/// with its depth tag; no type outside this set has a tag.
#[derive(Clone, Copy, PartialEq, Eq, Structural, Debug)]
pub enum ElemType {
    U8,
    I8,
    U16,
    I16,
    I32,
    F32,
    F64,
}

/// The depth tag associated with each supported element type. The mapping
/// is total on the registry and injective (`lemma_depth_unique`).
pub open spec fn depth_of(t: ElemType) -> i32 {
    match t {
        ElemType::U8 => CV_8U,
        ElemType::I8 => CV_8S,
        ElemType::U16 => CV_16U,
        ElemType::I16 => CV_16S,
        ElemType::I32 => CV_32S,
        ElemType::F32 => CV_32F,
        ElemType::F64 => CV_64F,
    }
}

impl ElemType {
    /// Returns the depth tag of this element type.
    pub fn depth(self) -> (d: i32)
        ensures
            d == depth_of(self),
    {
        match self {
            ElemType::U8 => CV_8U,
            ElemType::I8 => CV_8S,
            ElemType::U16 => CV_16U,
            ElemType::I16 => CV_16S,
            ElemType::I32 => CV_32S,
            ElemType::F32 => CV_32F,
            ElemType::F64 => CV_64F,
        }
    }
}

/// A scalar type of the registry, as seen from executable code: each
/// implementing type knows its registry entry and can move its elements
/// into and out of a typed data store. Only types whose depth tag the
/// registry defines implement this; the set is closed.
pub trait OpenCvElement: Sized + Copy {
    /// The registry entry for this scalar type.
    spec fn elem_type_spec() -> ElemType;

    /// The element sequence a typed data store holds, when the store's
    /// depth tag matches this scalar type.
    spec fn elems_of(d: MatData) -> Seq<Self>;

    /// When the store's depth tag matches this scalar type, its element
    /// sequence is exactly as long as the store.
    proof fn lemma_elems_len(d: MatData)
        requires
            d.depth() == depth_of(Self::elem_type_spec()),
        ensures
            Self::elems_of(d).len() == d.data_len(),
    ;

    /// The depth tag of this scalar type.
    fn depth() -> (d: i32)
        ensures
            d == depth_of(Self::elem_type_spec()),
    ;

    /// Borrows the elements of a store whose depth tag matches this
    /// scalar type.
    fn elems(d: &MatData) -> (r: &[Self])
        requires
            d.depth() == depth_of(Self::elem_type_spec()),
        ensures
            r@ == Self::elems_of(*d),
    ;

    /// Moves a vector of elements into a typed data store tagged with
    /// this scalar type's depth.
    fn make_data(v: Vec<Self>) -> (d: MatData)
        ensures
            d.depth() == depth_of(Self::elem_type_spec()),
            d.data_len() == v@.len(),
            Self::elems_of(d) == v@,
    ;
}

impl OpenCvElement for u8 {
    open spec fn elem_type_spec() -> ElemType {
        ElemType::U8
    }

    open spec fn elems_of(d: MatData) -> Seq<u8> {
        match d {
            MatData::U8(v) => v@,
            _ => Seq::empty(),
        }
    }

    proof fn lemma_elems_len(d: MatData) {
    }

    fn depth() -> i32 {
        CV_8U
    }

    fn elems(d: &MatData) -> (r: &[u8]) {
        match d {
            MatData::U8(v) => v.as_slice(),
            _ => unreached(),
        }
    }

    fn make_data(v: Vec<u8>) -> MatData {
        MatData::U8(v)
    }
}

impl OpenCvElement for i8 {
    open spec fn elem_type_spec() -> ElemType {
        ElemType::I8
    }

    open spec fn elems_of(d: MatData) -> Seq<i8> {
        match d {
            MatData::I8(v) => v@,
            _ => Seq::empty(),
        }
    }

    proof fn lemma_elems_len(d: MatData) {
    }

    fn depth() -> i32 {
        CV_8S
    }

    fn elems(d: &MatData) -> (r: &[i8]) {
        match d {
            MatData::I8(v) => v.as_slice(),
            _ => unreached(),
        }
    }

    fn make_data(v: Vec<i8>) -> MatData {
        MatData::I8(v)
    }
}

impl OpenCvElement for u16 {
    open spec fn elem_type_spec() -> ElemType {
        ElemType::U16
    }

    open spec fn elems_of(d: MatData) -> Seq<u16> {
        match d {
            MatData::U16(v) => v@,
            _ => Seq::empty(),
        }
    }

    proof fn lemma_elems_len(d: MatData) {
    }

    fn depth() -> i32 {
        CV_16U
    }

    fn elems(d: &MatData) -> (r: &[u16]) {
        match d {
            MatData::U16(v) => v.as_slice(),
            _ => unreached(),
        }
    }

    fn make_data(v: Vec<u16>) -> MatData {
        MatData::U16(v)
    }
}

impl OpenCvElement for i16 {
    open spec fn elem_type_spec() -> ElemType {
        ElemType::I16
    }

    open spec fn elems_of(d: MatData) -> Seq<i16> {
        match d {
            MatData::I16(v) => v@,
            _ => Seq::empty(),
        }
    }

    proof fn lemma_elems_len(d: MatData) {
    }

    fn depth() -> i32 {
        CV_16S
    }

    fn elems(d: &MatData) -> (r: &[i16]) {
        match d {
            MatData::I16(v) => v.as_slice(),
            _ => unreached(),
        }
    }

    fn make_data(v: Vec<i16>) -> MatData {
        MatData::I16(v)
    }
}

impl OpenCvElement for i32 {
    open spec fn elem_type_spec() -> ElemType {
        ElemType::I32
    }

    open spec fn elems_of(d: MatData) -> Seq<i32> {
        match d {
            MatData::I32(v) => v@,
            _ => Seq::empty(),
        }
    }

    proof fn lemma_elems_len(d: MatData) {
    }

    fn depth() -> i32 {
        CV_32S
    }

    fn elems(d: &MatData) -> (r: &[i32]) {
        match d {
            MatData::I32(v) => v.as_slice(),
            _ => unreached(),
        }
    }

    fn make_data(v: Vec<i32>) -> MatData {
        MatData::I32(v)
    }
}

/// No two element types of the registry share a depth tag: the mapping
/// from supported scalar type to depth tag is injective.
pub proof fn lemma_depth_unique(a: ElemType, b: ElemType)
    requires
        depth_of(a) == depth_of(b),
    ensures
        a == b,
{
}

} // verus!
