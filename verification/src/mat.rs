//! The matrix-representation buffer: typed element storage tagged with a
//! depth, spatial sizes with an implicit trailing channel axis, and a
//! continuity flag, together with the depth- and layout-checked typed
//! view over the elements.

use vstd::prelude::*;
use crate::element_type::{OpenCvElement, depth_of, CV_8U, CV_8S, CV_16U, CV_16S, CV_32S};
use crate::error::MatError;
use crate::shape::{shape_product, checked_product, copy_prefix};

verus! {

/// A buffer's element storage: one flat, contiguous run of scalars of a
/// single supported type. The variant is the buffer's declared depth.
#[derive(Debug)]
pub enum MatData {
    U8(Vec<u8>),
    I8(Vec<i8>),
    U16(Vec<u16>),
    I16(Vec<i16>),
    I32(Vec<i32>),
}

impl MatData {
    /// The depth tag this store declares.
    pub open spec fn depth(self) -> i32 {
        match self {
            MatData::U8(_) => CV_8U,
            MatData::I8(_) => CV_8S,
            MatData::U16(_) => CV_16U,
            MatData::I16(_) => CV_16S,
            MatData::I32(_) => CV_32S,
        }
    }

    /// How many scalars the store holds.
    pub open spec fn data_len(self) -> nat {
        match self {
            MatData::U8(v) => v@.len(),
            MatData::I8(v) => v@.len(),
            MatData::U16(v) => v@.len(),
            MatData::I16(v) => v@.len(),
            MatData::I32(v) => v@.len(),
        }
    }

    /// Returns the depth tag this store declares.
    pub fn depth_tag(&self) -> (d: i32)
        ensures
            d == self.depth(),
    {
        match self {
            MatData::U8(_) => CV_8U,
            MatData::I8(_) => CV_8S,
            MatData::U16(_) => CV_16U,
            MatData::I16(_) => CV_16S,
            MatData::I32(_) => CV_32S,
        }
    }
}

/// A matrix-representation buffer: spatial sizes (excluding channels), a
/// channel count stored as the implicit trailing axis, a continuity flag
/// describing the memory layout, and the typed element storage whose
/// variant is the buffer's declared depth tag.
///
/// Well-formedness (`wf`) ties the pieces together: the element count the
/// shape describes fits the machine word, and a continuous buffer holds
/// exactly that many elements.
#[derive(Debug)]
pub struct Mat {
    /// Per-axis spatial extents, channel axis excluded.
    pub size: Vec<usize>,
    /// Number of channels: the extent of the trailing, fastest-varying axis.
    pub channels: usize,
    /// Whether the elements form one flat run with no gaps.
    pub continuous: bool,
    /// The element storage; its variant is the declared depth tag.
    pub data: MatData,
}

impl Mat {
    /// The full shape: spatial sizes with the channel count appended as
    /// the final axis.
    pub open spec fn full_shape_spec(self) -> Seq<usize> {
        self.size@.push(self.channels)
    }

    /// The buffer's declared depth tag.
    pub open spec fn depth_spec(self) -> i32 {
        self.data.depth()
    }

    /// The element count the full shape describes.
    pub open spec fn numel_spec(self) -> int {
        shape_product(self.full_shape_spec())
    }

    /// Well-formedness: the shape's element count fits the machine word,
    /// and a continuous buffer stores exactly that many elements. A
    /// non-continuous buffer models strided memory, whose storage extent
    /// the flat element count does not govern.
    pub open spec fn wf(self) -> bool {
        &&& self.numel_spec() <= usize::MAX
        &&& (self.continuous ==> self.data.data_len() == self.numel_spec())
    }

    /// Builds a buffer from typed elements and layout data, validating
    /// well-formedness: the element count implied by the shape must fit
    /// the machine word, and for a continuous layout it must equal the
    /// number of elements supplied; otherwise the parts are refused with
    /// `ShapeMismatch`.
    pub fn from_parts<T: OpenCvElement>(
        elems: Vec<T>,
        size: Vec<usize>,
        channels: usize,
        continuous: bool,
    ) -> (r: Result<Mat, MatError>)
        ensures
            ({
                let shape = size@.push(channels);
                &&& (r matches Ok(m) ==> {
                    &&& m.wf()
                    &&& m.size@ == size@
                    &&& m.channels == channels
                    &&& m.continuous == continuous
                    &&& m.depth_spec() == depth_of(T::elem_type_spec())
                    &&& T::elems_of(m.data) == elems@
                })
                &&& (r is Ok <==> shape_product(shape) <= usize::MAX && (continuous
                    ==> shape_product(shape) == elems@.len()))
                &&& (r is Err ==> r == Err::<Mat, MatError>(MatError::ShapeMismatch))
            }),
    {
        let mut full_shape = copy_prefix(&size, size.len());
        proof {
            assert(size@.take(size@.len() as int) =~= size@);
        }
        full_shape.push(channels);
        let total = match checked_product(&full_shape) {
            Some(p) => p,
            None => {
                return Err(MatError::ShapeMismatch);
            }
        };
        if continuous && total != elems.len() {
            return Err(MatError::ShapeMismatch);
        }
        Ok(Mat { size, channels, continuous, data: T::make_data(elems) })
    }

    /// Returns the full shape: spatial sizes with the channel count
    /// appended as the final axis.
    pub fn size_with_depth(&self) -> (r: Vec<usize>)
        ensures
            r@ == self.full_shape_spec(),
    {
        let mut r = copy_prefix(&self.size, self.size.len());
        proof {
            assert(self.size@.take(self.size@.len() as int) =~= self.size@);
        }
        r.push(self.channels);
        r
    }

    /// Returns the element count: the product of the full shape.
    pub fn numel(&self) -> (n: usize)
        requires
            self.wf(),
        ensures
            n == self.numel_spec(),
    {
        let full_shape = self.size_with_depth();
        match checked_product(&full_shape) {
            Some(p) => p,
            None => unreached(),
        }
    }

    /// Returns the buffer's declared depth tag.
    pub fn depth(&self) -> (d: i32)
        ensures
            d == self.depth_spec(),
    {
        self.data.depth_tag()
    }

    /// Returns the channel count.
    pub fn channels(&self) -> (c: usize)
        ensures
            c == self.channels,
    {
        self.channels
    }

    /// Returns whether the elements form one flat run with no gaps.
    pub fn is_continuous(&self) -> (b: bool)
        ensures
            b == self.continuous,
    {
        self.continuous
    }

    /// Exposes the buffer's elements as a read-only flat slice of the
    /// requested scalar type, without copying. The view is refused with
    /// `NonContiguous` for a buffer whose memory is not one flat run —
    /// whatever its depth — and with `DepthMismatch` when the buffer's
    /// declared depth tag is not the requested type's. On success the
    /// slice has exactly `numel` elements.
    pub fn as_slice<T: OpenCvElement>(&self) -> (r: Result<&[T], MatError>)
        requires
            self.wf(),
        ensures
            ({
                if !self.continuous {
                    r == Err::<&[T], MatError>(MatError::NonContiguous)
                } else if self.depth_spec() != depth_of(T::elem_type_spec()) {
                    r == Err::<&[T], MatError>(MatError::DepthMismatch)
                } else {
                    r matches Ok(v) && v@ == T::elems_of(self.data) && v@.len()
                        == self.numel_spec()
                }
            }),
    {
        if !self.is_continuous() {
            return Err(MatError::NonContiguous);
        }
        if self.data.depth_tag() != T::depth() {
            return Err(MatError::DepthMismatch);
        }
        let v = T::elems(&self.data);
        proof {
            T::lemma_elems_len(self.data);
        }
        Ok(v)
    }
}

} // verus!
