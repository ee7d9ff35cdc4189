use sniff_core::event::{validate_event_dims, EventShapeError};
use sniff_core::util::ravel_multi_index;

#[test]
fn ravel_two_dims_fixture() {
    // The observation [1, 2] under the trailing dims [3, 5] of a tensor
    // shaped [4, 3, 5]: 1 * 5 + 2.
    assert_eq!(ravel_multi_index(&[1, 2], &[3, 5]), 7);
}

#[test]
fn ravel_zero_index_is_zero() {
    assert_eq!(ravel_multi_index(&[0, 0], &[3, 5]), 0);
}

#[test]
fn ravel_empty_shape_is_zero() {
    assert_eq!(ravel_multi_index(&[4, 9], &[]), 0);
}

#[test]
fn ravel_three_dims() {
    // 1 * (3 * 4) + 2 * 4 + 3.
    assert_eq!(ravel_multi_index(&[1, 2, 3], &[2, 3, 4]), 23);
}

#[test]
fn ravel_ignores_leading_entries() {
    // Only the trailing shape.len() entries of the multi-index count.
    assert_eq!(ravel_multi_index(&[9, 1, 2], &[3, 5]), 7);
}

#[test]
fn ravel_single_dim_is_identity() {
    assert_eq!(ravel_multi_index(&[2], &[7]), 2);
}

#[test]
fn validate_accepts_matching_dims() {
    assert_eq!(validate_event_dims(&vec![4, 3, 5], 4, 4), Ok(()));
}

#[test]
fn validate_rejects_empty_shape() {
    assert_eq!(
        validate_event_dims(&vec![], 4, 4),
        Err(EventShapeError::ShapeHeadMismatch)
    );
}

#[test]
fn validate_rejects_wrong_first_dim() {
    assert_eq!(
        validate_event_dims(&vec![5, 3], 4, 4),
        Err(EventShapeError::ShapeHeadMismatch)
    );
}

#[test]
fn validate_rejects_wrong_likelihood_len() {
    assert_eq!(
        validate_event_dims(&vec![4, 3], 4, 3),
        Err(EventShapeError::LikelihoodLenMismatch)
    );
}

#[test]
fn validate_reports_shape_before_likelihood() {
    // An event failing both checks reports the shape mismatch, as the
    // reader checks the tensor shape first.
    assert_eq!(
        validate_event_dims(&vec![5, 3], 4, 3),
        Err(EventShapeError::ShapeHeadMismatch)
    );
}
