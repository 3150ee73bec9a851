use blockmat::concat::{allocate_block_output, bcat, Block};
use blockmat::conversions::trans_to_rp;
use blockmat::dims::{dim_add, unify, Axis, Dimension, ShapeMismatch};
use blockmat::fixed::{Matrix3, Matrix4, Matrix6, Vector3};
use blockmat::groups::ToSo3;
use blockmat::mat::Mat;
use blockmat::mat_ops::concat_horiz;

fn mat(rows: usize, cols: usize, data: Vec<i64>) -> Mat<i64> {
    Mat::from_row_major(rows, cols, data).unwrap()
}

#[test]
fn dim_add_keeps_static_only_when_both_are() {
    let s2 = Dimension::StaticallyKnown(2);
    let s3 = Dimension::StaticallyKnown(3);
    let d3 = Dimension::DynamicallyKnown(3);
    assert_eq!(dim_add(s2, s3), Dimension::StaticallyKnown(5));
    assert_eq!(dim_add(s2, d3), Dimension::DynamicallyKnown(5));
    assert_eq!(dim_add(d3, d3), Dimension::DynamicallyKnown(6));
}

#[test]
fn unify_picks_a_representative_or_reports_both_values() {
    let s2 = Dimension::StaticallyKnown(2);
    let d2 = Dimension::DynamicallyKnown(2);
    let d3 = Dimension::DynamicallyKnown(3);
    assert_eq!(unify(s2, s2), Ok(Dimension::StaticallyKnown(2)));
    assert_eq!(unify(s2, d2), Ok(Dimension::DynamicallyKnown(2)));
    assert_eq!(unify(d2, d3), Err((2, 3)));
}

#[test]
fn evaluate_single_leaf_copies_it() {
    let a = mat(2, 3, vec![1, 2, 3, 4, 5, 6]);
    let out = Block::leaf(&a).evaluate().unwrap();
    assert_eq!(out, a);
}

#[test]
fn allocate_is_zero_filled() {
    let a = mat(2, 3, vec![1, 2, 3, 4, 5, 6]);
    let block = Block::leaf(&a);
    let out = allocate_block_output(&block);
    assert_eq!(out, mat(2, 3, vec![0, 0, 0, 0, 0, 0]));
}

#[test]
fn hcat_keeps_both_blocks_side_by_side() {
    let a = mat(2, 2, vec![1, 2, 3, 4]);
    let b = mat(2, 3, vec![5, 6, 7, 8, 9, 10]);
    let out = Block::hcat(Block::leaf(&a), Block::leaf(&b)).evaluate().unwrap();
    assert_eq!(out, mat(2, 5, vec![1, 2, 5, 6, 7, 3, 4, 8, 9, 10]));
}

#[test]
fn vcat_keeps_both_blocks_stacked() {
    let a = mat(1, 2, vec![1, 2]);
    let b = mat(2, 2, vec![3, 4, 5, 6]);
    let out = Block::vcat(Block::leaf(&a), Block::leaf(&b)).evaluate().unwrap();
    assert_eq!(out, mat(3, 2, vec![1, 2, 3, 4, 5, 6]));
}

#[test]
fn shape_is_associative_for_hcat_and_vcat() {
    let a = mat(2, 1, vec![1, 2]);
    let b = mat(2, 2, vec![3, 4, 5, 6]);
    let c = mat(2, 3, vec![7, 8, 9, 10, 11, 12]);
    let left_grouped = Block::hcat(
        Block::hcat(Block::leaf(&a), Block::leaf(&b)),
        Block::leaf(&c),
    );
    let right_grouped = Block::hcat(
        Block::leaf(&a),
        Block::hcat(Block::leaf(&b), Block::leaf(&c)),
    );
    assert_eq!(left_grouped.shape(), right_grouped.shape());
    assert_eq!(left_grouped.evaluate(), right_grouped.evaluate());

    let ta = mat(1, 2, vec![1, 2]);
    let tb = mat(2, 2, vec![3, 4, 5, 6]);
    let tc = mat(3, 2, vec![7, 8, 9, 10, 11, 12]);
    let top_grouped = Block::vcat(
        Block::vcat(Block::leaf(&ta), Block::leaf(&tb)),
        Block::leaf(&tc),
    );
    let bottom_grouped = Block::vcat(
        Block::leaf(&ta),
        Block::vcat(Block::leaf(&tb), Block::leaf(&tc)),
    );
    assert_eq!(top_grouped.shape(), bottom_grouped.shape());
    assert_eq!(top_grouped.evaluate(), bottom_grouped.evaluate());
}

#[test]
fn zero_column_block_is_an_hcat_identity() {
    let z = mat(2, 0, Vec::new());
    let b = mat(2, 2, vec![1, 2, 3, 4]);
    let out = Block::hcat(Block::leaf(&z), Block::leaf(&b)).evaluate().unwrap();
    assert_eq!(out, b);
}

#[test]
fn zero_row_block_is_a_vcat_identity() {
    let z = mat(0, 2, Vec::new());
    let b = mat(2, 2, vec![1, 2, 3, 4]);
    let out = Block::vcat(Block::leaf(&z), Block::leaf(&b)).evaluate().unwrap();
    assert_eq!(out, b);
}

#[test]
fn mismatched_hcat_reports_the_row_axis() {
    let a = mat(2, 2, vec![1, 2, 3, 4]);
    let b = mat(3, 2, vec![1, 2, 3, 4, 5, 6]);
    let err = Block::hcat(Block::leaf(&a), Block::leaf(&b)).evaluate().unwrap_err();
    assert_eq!(err, ShapeMismatch { axis: Axis::Rows, left: 2, right: 3 });
}

#[test]
fn mismatched_vcat_reports_the_column_axis() {
    let a = mat(2, 2, vec![1, 2, 3, 4]);
    let b = mat(2, 3, vec![1, 2, 3, 4, 5, 6]);
    let err = Block::vcat(Block::leaf(&a), Block::leaf(&b)).evaluate().unwrap_err();
    assert_eq!(err, ShapeMismatch { axis: Axis::Cols, left: 2, right: 3 });
}

#[test]
fn fixed_size_leaves_evaluate_like_dynamic_ones() {
    let a = mat(2, 2, vec![1, 2, 3, 4]);
    let b = mat(2, 2, vec![5, 6, 7, 8]);
    let fixed = Block::hcat(Block::leaf_fixed(&a), Block::leaf_fixed(&b)).evaluate().unwrap();
    let dynamic = Block::hcat(Block::leaf(&a), Block::leaf(&b)).evaluate().unwrap();
    assert_eq!(fixed, dynamic);
}

#[test]
fn grid_quadrants_match_their_blocks() {
    let a = mat(2, 2, vec![1, 2, 3, 4]);
    let b = mat(2, 2, vec![5, 6, 7, 8]);
    let c = mat(2, 2, vec![9, 10, 11, 12]);
    let d = mat(2, 2, vec![13, 14, 15, 16]);
    let out = bcat(vec![
        vec![Block::leaf(&a), Block::leaf(&b)],
        vec![Block::leaf(&c), Block::leaf(&d)],
    ])
    .unwrap();
    assert_eq!(
        out,
        mat(4, 4, vec![1, 2, 5, 6, 3, 4, 7, 8, 9, 10, 13, 14, 11, 12, 15, 16])
    );
}

#[test]
fn ragged_grid_surfaces_as_a_shape_mismatch() {
    let a = mat(2, 2, vec![1, 2, 3, 4]);
    let b = mat(2, 2, vec![5, 6, 7, 8]);
    let c = mat(2, 2, vec![9, 10, 11, 12]);
    let err = bcat(vec![
        vec![Block::leaf(&a), Block::leaf(&b)],
        vec![Block::leaf(&c)],
    ])
    .unwrap_err();
    assert_eq!(err, ShapeMismatch { axis: Axis::Cols, left: 4, right: 2 });
}

#[test]
fn grid_of_hats_end_to_end() {
    let omega = Vector3::new(1, 2, 3).to_so3();
    let vmat = Vector3::new(4, 5, 6).to_so3();
    let zeros: Matrix3<i32> = Matrix3::zeros();
    let out = bcat(vec![
        vec![Block::leaf(&omega.0 .0), Block::leaf(&zeros.0)],
        vec![Block::leaf(&vmat.0 .0), Block::leaf(&omega.0 .0)],
    ])
    .unwrap();
    let expected = Matrix6::new(
        0, -3, 2, 0, 0, 0, 3, 0, -1, 0, 0, 0, -2, 1, 0, 0, 0, 0, 0, -6, 5, 0, -3, 2, 6, 0, -4, 3,
        0, -1, -5, 4, 0, -2, 1, 0,
    );
    assert_eq!(out, expected.0);
}

#[test]
fn concat_horiz_joins_columns() {
    let a = mat(2, 2, vec![1, 2, 3, 4]);
    let b = mat(2, 1, vec![5, 6]);
    let out = concat_horiz(a, b);
    assert_eq!(out, mat(2, 3, vec![1, 2, 5, 3, 4, 6]));
}

#[test]
fn trans_to_rp_integer() {
    let test_t = Matrix4::new(1, 0, 0, 0, 0, 0, -1, 0, 0, 1, 0, 3, 0, 0, 0, 1);
    let test_r = Matrix3::new(1, 0, 0, 0, 0, -1, 0, 1, 0);
    let test_p = Vector3::new(0, 0, 3);
    let (r, p) = trans_to_rp(test_t);
    assert_eq!(r, test_r);
    assert_eq!(p, test_p);
}

#[test]
fn from_row_major_refuses_a_wrong_length() {
    assert!(Mat::from_row_major(2, 2, vec![1, 2, 3]).is_none());
    assert!(Mat::from_row_major(usize::MAX, usize::MAX, vec![1, 2, 3]).is_none());
}
