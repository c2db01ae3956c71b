use gosonnx::errors::GosonnxError;
use gosonnx::ops::bin_op::{
    check_strides_ok, generate_direct_strided_offset_glsl, get_broadcast_shape, shape_to_strides,
};

#[test]
fn test_get_broadcast_shape() {
    let s1 = vec![1, 2, 2];
    let s2 = vec![1, 2, 2];
    let res = get_broadcast_shape(s1.clone(), s2.clone()).unwrap();
    assert!(res.is_none());

    let s1 = vec![1, 2, 2];
    let s2 = vec![2];
    let res = get_broadcast_shape(s1.clone(), s2).unwrap().unwrap();
    assert_eq!(res.shape, s1);
    assert!(res.left_logical_strides.is_none());
    assert!(res.right_logical_strides.is_some());

    // Multidirectional broadcasting
    let s1 = vec![3, 1];
    let s2 = vec![5];
    let res = get_broadcast_shape(s1, s2).unwrap().unwrap();
    assert_eq!(res.shape, vec![3, 5]);
    assert!(res.left_logical_strides.is_some());
    assert!(res.right_logical_strides.is_some());

    // Incompatible shape
    let s1 = vec![3, 3, 2];
    let s2 = vec![1, 1, 5];
    let out = get_broadcast_shape(s1, s2);
    assert!(out.is_err());
}

#[test]
fn broadcast_error_is_incompatible_shape() {
    let out = get_broadcast_shape(vec![3, 3, 2], vec![1, 1, 5]);
    assert!(matches!(
        out,
        Err(GosonnxError::IncompatibleShape { .. })
    ));
}

#[test]
fn strides_of_row_major_shape() {
    assert_eq!(shape_to_strides(&vec![2, 3, 4]), vec![12, 4, 1]);
    assert_eq!(shape_to_strides(&vec![5]), vec![1]);
    let empty: Vec<i64> = vec![];
    assert_eq!(shape_to_strides(&empty), empty);
}

#[test]
fn broadcast_logical_strides_zero_out_broadcast_axes() {
    // [2, 1] against [2, 3]: the left side broadcasts on its last axis.
    let res = get_broadcast_shape(vec![2, 1], vec![2, 3]).unwrap().unwrap();
    assert_eq!(res.shape, vec![2, 3]);
    assert_eq!(res.left_physical_strides, vec![1, 1]);
    assert_eq!(res.left_logical_strides, Some(vec![1, 0]));
    assert!(res.right_logical_strides.is_none());
}

#[test]
fn stride_bounds_are_checked() {
    assert!(check_strides_ok(&vec![2, 3, 4]));
    assert!(!check_strides_ok(&vec![-1, 3]));
    assert!(!check_strides_ok(&vec![i64::MAX, 2]));
}

#[test]
fn offset_function_matches_reference_indexer() {
    // Common shape [2, 3], left side broadcast from [3] (padded axis 0).
    let common = vec![2, 3];
    let logical = vec![0, 1];
    let actual = vec![0, 1];
    let code = generate_direct_strided_offset_glsl("l", &common, &logical, &actual);
    let expected = "uint get_direct_strided_offset_l(uint i) {\n    uint strided_offset = 0;\n    uint idx;\n    idx = (i / 1) % 3;\n    strided_offset += idx * 1;\n    return strided_offset;\n}\n";
    assert_eq!(code, expected);

    // A reference indexer over the same strides: every flat index of the
    // [2, 3] output must map to the matching offset of the [3] input.
    for flat in 0..6i64 {
        let idx1 = (flat / 1) % 3;
        let reference = idx1 * 1;
        assert_eq!(reference, flat % 3);
    }
}
