use blockmat::fixed::{Matrix3, Matrix4, Matrix6, Vector3, Vector6};
use blockmat::groups::se3::ToRP;
use blockmat::groups::so3::So3ToSe3;
use blockmat::groups::twist::Ad;
use blockmat::groups::{ToSe3, ToSo3, ToTwist, ToVec};

#[test]
fn vector6_to_se3() {
    let test_mat = Matrix4::new(0, -3, 2, 4, 3, 0, -1, 5, -2, 1, 0, 6, 0, 0, 0, 1);
    let vec = Vector6::new(1, 2, 3, 4, 5, 6);
    let res = vec.to_se3();
    assert_eq!(res.0, test_mat);
}

#[test]
fn se3_to_vec() {
    let se3_mat = Matrix4::new(0, -3, 2, 4, 3, 0, -1, 5, -2, 1, 0, 6, 0, 0, 0, 1).to_se3();
    let target_vec = Vector6::new(1, 2, 3, 4, 5, 6);
    assert_eq!(se3_mat.to_vec(), target_vec);
}

#[test]
fn se3_to_twist() {
    let se3_mat = Matrix4::new(0, -3, 2, 4, 3, 0, -1, 5, -2, 1, 0, 6, 0, 0, 0, 1).to_se3();
    let target_twist = Vector6::new(1, 2, 3, 4, 5, 6).to_twist();
    assert_eq!(se3_mat.to_twist().0, target_twist.0);
}

#[test]
fn vector3_to_so3() {
    let t_vec = Vector3::new(1, 2, 3);
    let t_mat = t_vec.to_so3();
    let target = Matrix3::new(0, -3, 2, 3, 0, -1, -2, 1, 0);
    assert_eq!(t_mat.0, target);
}

#[test]
fn matrix_to_so3() {
    let target = Matrix3::new(0, -3, 2, 3, 0, -1, -2, 1, 0);
    let res = target.to_so3();
    assert_eq!(res.0, target);
}

#[test]
fn so3_to_vec() {
    let so3_mat = Matrix3::new(0, -3, 2, 3, 0, -1, -2, 1, 0).to_so3();
    let tar = Vector3::new(1, 2, 3);
    assert_eq!(so3_mat.to_vec(), tar);
}

#[test]
fn so3_to_se3() {
    let so3_mat = [1, 2, 3].to_so3();
    let p_vec = Vector3::new(4, 5, 6);
    let tar = Vector6::new(1, 2, 3, 4, 5, 6).to_se3();
    assert_eq!(tar.0, so3_mat.to_se3(p_vec).0);
}

#[test]
fn vector_to_twist() {
    let vec = Vector6::new(1, 2, 3, 4, 5, 6);
    let res = vec.to_twist();
    assert_eq!(res.0, Vector6::new(1, 2, 3, 4, 5, 6));
}

#[test]
fn se3_from_twist() {
    let test_mat = Matrix4::new(0, -3, 2, 4, 3, 0, -1, 5, -2, 1, 0, 6, 0, 0, 0, 1);
    let vec = Vector6::new(1, 2, 3, 4, 5, 6).to_twist();
    let res = vec.to_se3();
    assert_eq!(res.0, test_mat);
}

#[test]
fn array_to_so3_integer() {
    let test_mat = Matrix3::new(0, -3, 2, 3, 0, -1, -2, 1, 0);
    let vec: [i64; 3] = [1, 2, 3];
    let res = vec.to_so3();
    assert_eq!(res.0, test_mat);
}

#[test]
fn array_to_se3_integer() {
    let test_mat = Matrix4::new(0, -3, 2, 4, 3, 0, -1, 5, -2, 1, 0, 6, 0, 0, 0, 1);
    let vec: [i64; 6] = [1, 2, 3, 4, 5, 6];
    let res = vec.to_se3();
    assert_eq!(res.0, test_mat);
}

#[test]
fn array_to_twist_integer() {
    let arr: [i64; 6] = [1, 2, 3, 4, 5, 6];
    let res = arr.to_twist();
    assert_eq!(res.0, Vector6::new(1, 2, 3, 4, 5, 6));
}

#[test]
fn matrix_to_se3_integer() {
    let test_mat = Matrix4::new(0, -3, 2, 4, 3, 0, -1, 5, -2, 1, 0, 6, 0, 0, 0, 1);
    let res = test_mat.to_se3();
    assert_eq!(res.0, test_mat);
}

#[test]
fn se3_to_rp_integer() {
    let test_t = Matrix4::new(1, 0, 0, 0, 0, 0, -1, 0, 0, 1, 0, 3, 0, 0, 0, 1).to_se3();
    let test_r = Matrix3::new(1, 0, 0, 0, 0, -1, 0, 1, 0).to_so3();
    let test_p = Vector3::new(0, 0, 3);
    let (r, p) = test_t.to_rp();
    assert_eq!(r.0, test_r.0);
    assert_eq!(p, test_p);
}

#[test]
fn se3_to_so3_integer() {
    let test_t = Matrix4::new(1, 0, 0, 0, 0, 0, -1, 0, 0, 1, 0, 3, 0, 0, 0, 1).to_se3();
    let test_r = Matrix3::new(1, 0, 0, 0, 0, -1, 0, 1, 0).to_so3();
    let r = test_t.to_so3();
    assert_eq!(r.0, test_r.0);
}

#[test]
fn ad_integer() {
    let test_vec: [i64; 6] = [1, 2, 3, 4, 5, 6];
    let res = test_vec.to_twist().ad();
    let test_mat = Matrix6::new(
        0, -3, 2, 0, 0, 0, 3, 0, -1, 0, 0, 0, -2, 1, 0, 0, 0, 0, 0, -6, 5, 0, -3, 2, 6, 0, -4, 3,
        0, -1, -5, 4, 0, -2, 1, 0,
    );
    assert_eq!(res, test_mat);
}
