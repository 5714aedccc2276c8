use matbridge::element_type::{ElemType, CV_16S, CV_16U, CV_32F, CV_32S, CV_64F, CV_8S, CV_8U};
use matbridge::error::MatError;
use matbridge::mat::Mat;
use matbridge::shape::{drop_trailing_unit_axis, reconstruct_from_flat, split_channel_axis};

fn depth_codes() -> Vec<i32> {
    vec![
        ElemType::U8.depth(),
        ElemType::I8.depth(),
        ElemType::U16.depth(),
        ElemType::I16.depth(),
        ElemType::I32.depth(),
        ElemType::F32.depth(),
        ElemType::F64.depth(),
    ]
}

#[test]
fn depth_tags_match_the_registry_codes() {
    assert_eq!(ElemType::U8.depth(), CV_8U);
    assert_eq!(ElemType::I8.depth(), CV_8S);
    assert_eq!(ElemType::U16.depth(), CV_16U);
    assert_eq!(ElemType::I16.depth(), CV_16S);
    assert_eq!(ElemType::I32.depth(), CV_32S);
    assert_eq!(ElemType::F32.depth(), CV_32F);
    assert_eq!(ElemType::F64.depth(), CV_64F);
}

#[test]
fn depth_tags_are_unique_across_the_supported_set() {
    let codes = depth_codes();
    for (i, a) in codes.iter().enumerate() {
        for (j, b) in codes.iter().enumerate() {
            if i != j {
                assert_ne!(a, b);
            }
        }
    }
}

#[test]
fn single_channel_two_by_three_scenario() {
    let m = Mat::from_parts::<u8>(vec![1, 2, 3, 4, 5, 6], vec![2, 3], 1, true).unwrap();
    assert_eq!(m.size_with_depth(), vec![2, 3, 1]);
    assert_eq!(m.numel(), 6);
    let view = m.as_slice::<u8>().unwrap();
    assert_eq!(view.len(), 6);
    assert_eq!(view, &[1, 2, 3, 4, 5, 6]);
    let reduced = drop_trailing_unit_axis(&m.size_with_depth());
    assert_eq!(reduced, vec![2, 3]);
}

#[test]
fn typed_view_succeeds_on_matching_depth_and_has_numel_elements() {
    let m = Mat::from_parts::<i32>(vec![7, -8, 9, -10], vec![2], 2, true).unwrap();
    assert_eq!(m.depth(), CV_32S);
    assert!(m.is_continuous());
    let view = m.as_slice::<i32>().unwrap();
    assert_eq!(view.len(), m.numel());
    assert_eq!(view, &[7, -8, 9, -10]);
}

#[test]
fn typed_view_fails_with_depth_mismatch_on_a_foreign_depth_tag() {
    let m = Mat::from_parts::<u8>(vec![1, 2, 3, 4], vec![2], 2, true).unwrap();
    assert_eq!(m.as_slice::<i16>().unwrap_err(), MatError::DepthMismatch);
    assert_eq!(m.as_slice::<u16>().unwrap_err(), MatError::DepthMismatch);
    assert_eq!(m.as_slice::<i32>().unwrap_err(), MatError::DepthMismatch);
    assert_eq!(m.as_slice::<i8>().unwrap_err(), MatError::DepthMismatch);
}

#[test]
fn typed_view_fails_with_non_contiguous_regardless_of_depth() {
    // Models a strided region: 2x2 single-channel window of a wider buffer.
    let m = Mat::from_parts::<u16>(vec![1, 2, 0, 3, 4, 0], vec![2, 2], 1, false).unwrap();
    assert!(!m.is_continuous());
    // Matching depth still fails.
    assert_eq!(m.as_slice::<u16>().unwrap_err(), MatError::NonContiguous);
    // A mismatched depth reports the layout failure, not the depth.
    assert_eq!(m.as_slice::<u8>().unwrap_err(), MatError::NonContiguous);
}

#[test]
fn split_channel_axis_cases() {
    assert_eq!(
        split_channel_axis(&vec![]).unwrap_err(),
        MatError::EmptyShape
    );
    assert_eq!(split_channel_axis(&vec![5]).unwrap(), (5, vec![]));
    assert_eq!(split_channel_axis(&vec![4, 3, 2]).unwrap(), (2, vec![4, 3]));
}

#[test]
fn drop_trailing_unit_axis_cases() {
    assert_eq!(drop_trailing_unit_axis(&vec![4, 3, 1]), vec![4, 3]);
    assert_eq!(drop_trailing_unit_axis(&vec![4, 3, 2]), vec![4, 3, 2]);
    assert_eq!(drop_trailing_unit_axis(&vec![]), vec![]);
    assert_eq!(drop_trailing_unit_axis(&vec![1]), vec![]);
}

#[test]
fn reconstruction_length_check() {
    let flat: Vec<u8> = (0..24).collect();
    let m = reconstruct_from_flat::<u8>(&flat, &vec![4, 3, 2]).unwrap();
    assert_eq!(m.size_with_depth(), vec![4, 3, 2]);
    assert_eq!(m.numel(), 24);
    assert_eq!(
        reconstruct_from_flat::<u8>(&flat, &vec![4, 3, 3]).unwrap_err(),
        MatError::ShapeMismatch
    );
    assert_eq!(
        reconstruct_from_flat::<u8>(&flat, &vec![]).unwrap_err(),
        MatError::EmptyShape
    );
}

#[test]
fn round_trip_preserves_shape_depth_and_contents() {
    let m = Mat::from_parts::<i16>(vec![10, -20, 30, -40, 50, -60], vec![3], 2, true).unwrap();
    let full_shape = m.size_with_depth();
    let view = m.as_slice::<i16>().unwrap();
    let rebuilt = reconstruct_from_flat::<i16>(view, &full_shape).unwrap();
    assert_eq!(rebuilt.size_with_depth(), m.size_with_depth());
    assert_eq!(rebuilt.depth(), m.depth());
    assert_eq!(rebuilt.as_slice::<i16>().unwrap(), m.as_slice::<i16>().unwrap());
}

#[test]
fn round_trip_through_a_dropped_unit_axis() {
    // The canonical interchange flow: view, drop the synthetic channel
    // axis for the consumer, split the consumer's shape, reconstruct.
    let m = Mat::from_parts::<u8>(vec![9, 8, 7, 6], vec![2, 2], 1, true).unwrap();
    let full_shape = m.size_with_depth();
    assert_eq!(full_shape, vec![2, 2, 1]);
    let consumer_shape = drop_trailing_unit_axis(&full_shape);
    assert_eq!(consumer_shape, vec![2, 2]);
    let (channels, leading) = split_channel_axis(&consumer_shape).unwrap();
    assert_eq!((channels, leading.as_slice()), (2, &[2][..]));
    let view = m.as_slice::<u8>().unwrap();
    let rebuilt = reconstruct_from_flat::<u8>(view, &consumer_shape).unwrap();
    assert_eq!(rebuilt.channels(), 2);
    assert_eq!(rebuilt.as_slice::<u8>().unwrap(), &[9, 8, 7, 6]);
}

#[test]
fn from_parts_validates_the_element_count() {
    assert_eq!(
        Mat::from_parts::<u8>(vec![1, 2, 3], vec![2], 2, true).unwrap_err(),
        MatError::ShapeMismatch
    );
    assert_eq!(
        Mat::from_parts::<u8>(vec![], vec![usize::MAX, usize::MAX], 2, false).unwrap_err(),
        MatError::ShapeMismatch
    );
}

#[test]
fn zero_extent_shapes_describe_empty_buffers() {
    let m = Mat::from_parts::<i8>(vec![], vec![0, 3], 2, true).unwrap();
    assert_eq!(m.numel(), 0);
    assert_eq!(m.as_slice::<i8>().unwrap().len(), 0);
    let rebuilt = reconstruct_from_flat::<i8>(&[], &vec![0, 3, 2]).unwrap();
    assert_eq!(rebuilt.size_with_depth(), vec![0, 3, 2]);
}

#[test]
fn every_supported_store_reports_its_own_depth() {
    let u8m = Mat::from_parts::<u8>(vec![1], vec![1], 1, true).unwrap();
    let i8m = Mat::from_parts::<i8>(vec![-1], vec![1], 1, true).unwrap();
    let u16m = Mat::from_parts::<u16>(vec![1], vec![1], 1, true).unwrap();
    let i16m = Mat::from_parts::<i16>(vec![-1], vec![1], 1, true).unwrap();
    let i32m = Mat::from_parts::<i32>(vec![-1], vec![1], 1, true).unwrap();
    assert_eq!(u8m.depth(), CV_8U);
    assert_eq!(i8m.depth(), CV_8S);
    assert_eq!(u16m.depth(), CV_16U);
    assert_eq!(i16m.depth(), CV_16S);
    assert_eq!(i32m.depth(), CV_32S);
}

#[test]
fn error_descriptions_name_the_failure() {
    assert_eq!(MatError::DepthMismatch.describe(), "element type mismatch");
    assert_eq!(
        MatError::NonContiguous.describe(),
        "buffer memory must be continuous"
    );
    assert_eq!(MatError::EmptyShape.describe(), "shape has no axes");
    assert_eq!(
        MatError::ShapeMismatch.describe(),
        "shape disagrees with element count"
    );
}
