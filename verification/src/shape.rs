//! Shape reconciliation between a full shape (spatial extents with the
//! channel count appended as the last, fastest-varying axis) and the flat
//! "leading shape + channel count" split, together with the element-count
//! arithmetic both sides must agree on.

use vstd::prelude::*;
use crate::element_type::{OpenCvElement, depth_of};
use crate::error::MatError;
use crate::mat::Mat;

verus! {

/// The number of elements a shape describes: the product of its extents.
/// An empty shape describes a single element (the empty product).
pub open spec fn shape_product(s: Seq<usize>) -> int
    decreases s.len(),
{
    if s.len() == 0 {
        1
    } else {
        shape_product(s.drop_last()) * s.last()
    }
}

/// The product of a shape's extents is never negative.
pub proof fn lemma_shape_product_nonneg(s: Seq<usize>)
    ensures
        shape_product(s) >= 0,
    decreases s.len(),
{
    if s.len() > 0 {
        lemma_shape_product_nonneg(s.drop_last());
        let p = shape_product(s.drop_last());
        let e = s.last() as int;
        assert(p * e >= 0) by (nonlinear_arith)
            requires
                p >= 0,
                e >= 0,
        ;
    }
}

/// A shape with a zero extent describes zero elements.
pub proof fn lemma_shape_product_zero(s: Seq<usize>, k: int)
    requires
        0 <= k < s.len(),
        s[k] == 0,
    ensures
        shape_product(s) == 0,
    decreases s.len(),
{
    if k == s.len() - 1 {
        assert(shape_product(s.drop_last()) * 0 == 0) by (nonlinear_arith);
    } else {
        lemma_shape_product_zero(s.drop_last(), k);
        assert(0 * (s.last() as int) == 0) by (nonlinear_arith);
    }
}

/// When every extent from position `i` on is at least one, the product of
/// the whole shape is at least the product of its first `i` extents.
pub proof fn lemma_shape_product_mono(s: Seq<usize>, i: int)
    requires
        0 <= i <= s.len(),
        forall|j: int| i <= j < s.len() ==> s[j] >= 1,
    ensures
        shape_product(s) >= shape_product(s.take(i)),
    decreases s.len() - i,
{
    if i == s.len() {
        assert(s.take(i) =~= s);
    } else {
        lemma_shape_product_mono(s, i + 1);
        assert(s.take(i + 1).drop_last() =~= s.take(i));
        assert(s.take(i + 1).last() == s[i]);
        let p = shape_product(s.take(i));
        let e = s[i] as int;
        lemma_shape_product_nonneg(s.take(i));
        assert(p * e >= p) by (nonlinear_arith)
            requires
                p >= 0,
                e >= 1,
        ;
    }
}

/// Copies the first `k` extents of a shape into a fresh vector.
pub fn copy_prefix(v: &Vec<usize>, k: usize) -> (r: Vec<usize>)
    requires
        k <= v@.len(),
    ensures
        r@ == v@.take(k as int),
{
    let mut r: Vec<usize> = Vec::new();
    let mut i: usize = 0;
    while i < k
        invariant
            i <= k,
            k <= v@.len(),
            r@ == v@.take(i as int),
        decreases k - i,
    {
        r.push(v[i]);
        proof {
            assert(v@.take(i + 1) =~= v@.take(i as int).push(v@[i as int]));
        }
        i += 1;
    }
    r
}

/// Computes the element count a shape describes, refusing a count that
/// does not fit the machine word: the result is `Some` exactly when the
/// mathematical product of the extents fits `usize`.
pub fn checked_product(s: &Vec<usize>) -> (r: Option<usize>)
    ensures
        match r {
            Some(p) => p == shape_product(s@),
            None => shape_product(s@) > usize::MAX,
        },
{
    let n = s.len();
    let mut i: usize = 0;
    while i < n
        invariant
            i <= n,
            n == s@.len(),
            forall|j: int| 0 <= j < i ==> s@[j] >= 1,
        decreases n - i,
    {
        if s[i] == 0 {
            proof {
                lemma_shape_product_zero(s@, i as int);
            }
            return Some(0);
        }
        i += 1;
    }
    let mut p: usize = 1;
    let mut i: usize = 0;
    while i < n
        invariant
            i <= n,
            n == s@.len(),
            forall|j: int| 0 <= j < n ==> s@[j] >= 1,
            p == shape_product(s@.take(i as int)),
        decreases n - i,
    {
        proof {
            assert(s@.take(i + 1).drop_last() =~= s@.take(i as int));
            assert(s@.take(i + 1).last() == s@[i as int]);
        }
        match p.checked_mul(s[i]) {
            Some(q) => {
                p = q;
            }
            None => {
                proof {
                    lemma_shape_product_mono(s@, i + 1);
                }
                return None;
            }
        }
        i += 1;
    }
    proof {
        assert(s@.take(n as int) =~= s@);
    }
    Some(p)
}

/// Splits a full shape into its trailing channel count and the leading
/// (spatial) shape, in original order. A shape with no axes cannot bear a
/// channel axis and is refused with `EmptyShape`.
pub fn split_channel_axis(full_shape: &Vec<usize>) -> (r: Result<(usize, Vec<usize>), MatError>)
    ensures
        full_shape@.len() == 0 ==> r == Err::<(usize, Vec<usize>), MatError>(MatError::EmptyShape),
        full_shape@.len() > 0 ==> (r matches Ok(p) && p.0 == full_shape@.last() && p.1@
            == full_shape@.drop_last()),
{
    let n = full_shape.len();
    if n == 0 {
        return Err(MatError::EmptyShape);
    }
    let channels = full_shape[n - 1];
    let leading = copy_prefix(full_shape, n - 1);
    proof {
        assert(full_shape@.take(n - 1) =~= full_shape@.drop_last());
    }
    Ok((channels, leading))
}

/// Removes a trailing extent of one — a singleton channel axis — from a
/// full shape; any other shape is returned unchanged.
pub fn drop_trailing_unit_axis(full_shape: &Vec<usize>) -> (r: Vec<usize>)
    ensures
        r@ == (if full_shape@.len() > 0 && full_shape@.last() == 1 {
            full_shape@.drop_last()
        } else {
            full_shape@
        }),
{
    let n = full_shape.len();
    if n > 0 && full_shape[n - 1] == 1 {
        let r = copy_prefix(full_shape, n - 1);
        proof {
            assert(full_shape@.take(n - 1) =~= full_shape@.drop_last());
        }
        r
    } else {
        let r = copy_prefix(full_shape, n);
        proof {
            assert(full_shape@.take(n as int) =~= full_shape@);
        }
        r
    }
}

/// Copies a flat slice of elements into a fresh vector.
fn copy_slice<T: Copy>(s: &[T]) -> (r: Vec<T>)
    ensures
        r@ == s@,
{
    let mut r: Vec<T> = Vec::new();
    let mut i: usize = 0;
    while i < s.len()
        invariant
            i <= s@.len(),
            r@ == s@.take(i as int),
        decreases s@.len() - i,
    {
        r.push(s[i]);
        proof {
            assert(s@.take(i + 1) =~= s@.take(i as int).push(s@[i as int]));
        }
        i += 1;
    }
    proof {
        assert(s@.take(s@.len() as int) =~= s@);
    }
    r
}

/// What `reconstruct_from_flat` promises of the buffer it returns for a
/// flat element sequence and a target full shape: the buffer is
/// well-formed and continuous, carries the scalar type's depth tag, its
/// spatial sizes and channel count are the shape's split, its full shape
/// is the target shape, and its elements are the flat sequence.
pub open spec fn reconstruct_post<T: OpenCvElement>(
    flat: Seq<T>,
    full_shape: Seq<usize>,
    m: Mat,
) -> bool {
    &&& m.wf()
    &&& m.continuous
    &&& m.depth_spec() == depth_of(T::elem_type_spec())
    &&& m.size@ == full_shape.drop_last()
    &&& m.channels == full_shape.last()
    &&& m.full_shape_spec() == full_shape
    &&& T::elems_of(m.data) == flat
}

/// Builds a new, continuous matrix buffer from a flat, row-major
/// (last-axis-fastest) slice of elements and a target full shape: the
/// shape is split into channel count and leading spatial sizes, the slice
/// length is validated against the shape's element count, and the
/// elements are copied into the new buffer in the same linear order.
/// A shape with no axes is refused with `EmptyShape`; a slice whose
/// length is not the shape's element count with `ShapeMismatch`.
pub fn reconstruct_from_flat<T: OpenCvElement>(flat: &[T], full_shape: &Vec<usize>) -> (r: Result<
    Mat,
    MatError,
>)
    ensures
        ({
            let s = full_shape@;
            if s.len() == 0 {
                r == Err::<Mat, MatError>(MatError::EmptyShape)
            } else if shape_product(s) != flat@.len() {
                r == Err::<Mat, MatError>(MatError::ShapeMismatch)
            } else {
                r matches Ok(m) && reconstruct_post::<T>(flat@, s, m)
            }
        }),
{
    let (channels, leading) = match split_channel_axis(full_shape) {
        Ok(p) => p,
        Err(e) => {
            return Err(e);
        }
    };
    let n = flat.len();
    let total = match checked_product(full_shape) {
        Some(p) => p,
        None => {
            return Err(MatError::ShapeMismatch);
        }
    };
    if total != n {
        return Err(MatError::ShapeMismatch);
    }
    let data = T::make_data(copy_slice(flat));
    let m = Mat { size: leading, channels, continuous: true, data };
    proof {
        assert(full_shape@.drop_last().push(full_shape@.last()) =~= full_shape@);
    }
    Ok(m)
}

/// Round-trip law: the typed view of a well-formed, continuous buffer of
/// a supported scalar type, together with the buffer's own full shape,
/// always satisfies reconstruction's success condition — the shape has an
/// axis and its element count is the view's length — and any buffer that
/// reconstruction may then return agrees with the original in full shape,
/// depth tag, and element-wise contents.
pub proof fn lemma_round_trip<T: OpenCvElement>(b: Mat, m: Mat)
    requires
        b.wf(),
        b.continuous,
        b.depth_spec() == depth_of(T::elem_type_spec()),
        reconstruct_post::<T>(T::elems_of(b.data), b.full_shape_spec(), m),
    ensures
        b.full_shape_spec().len() > 0,
        shape_product(b.full_shape_spec()) == T::elems_of(b.data).len(),
        m.full_shape_spec() == b.full_shape_spec(),
        m.depth_spec() == b.depth_spec(),
        T::elems_of(m.data) == T::elems_of(b.data),
{
    T::lemma_elems_len(b.data);
}

} // verus!
