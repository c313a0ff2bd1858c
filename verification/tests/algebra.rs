//! Exact linear-algebra tests: vectors, matrices, and rational scalars.

use slippy::control::clamp;
use slippy::matrix::Matrix3x3;
use slippy::rational::Rat;
use slippy::vector::Vector3;

fn ri(n: i64) -> Rat {
    Rat::from_int(n)
}

fn r(n: i64, d: i64) -> Rat {
    Rat::new(n, d).unwrap()
}

#[test]
fn vec_dot() {
    let vec = Vector3::new(ri(1), ri(2), ri(3));
    let vec2 = Vector3::new(ri(2), ri(1), ri(3));
    let d1 = vec.dot(&vec2).unwrap();
    let d2 = vec2.dot(&vec).unwrap();
    assert!(d1.equals(&d2));
    assert!(d1.equals(&ri(13)));
}

#[test]
fn vec_cross() {
    let vec = Vector3::new(ri(1), ri(2), ri(3));
    let vec2 = Vector3::new(ri(2), ri(1), ri(3));
    let c12 = vec.cross(&vec2).unwrap();
    let c21 = vec2.cross(&vec).unwrap();
    assert!(c12.equals(&c21.neg()));
    assert!(c12.equals(&Vector3::new(ri(3), ri(3), ri(-3))));
}

#[test]
fn adjugate_from_example() {
    let matrix = Matrix3x3::new(
        ri(-3),
        ri(2),
        ri(-5),
        ri(-1),
        ri(0),
        ri(-2),
        ri(3),
        ri(-4),
        ri(1),
    );
    let expected = Matrix3x3::new(
        ri(-8),
        ri(18),
        ri(-4),
        ri(-5),
        ri(12),
        ri(-1),
        ri(4),
        ri(-6),
        ri(2),
    );
    assert!(matrix.adjugate().unwrap().equals(&expected));
}

#[test]
fn matmul_from_example() {
    let matrix = Matrix3x3::new(
        ri(1),
        ri(2),
        ri(3),
        ri(4),
        ri(5),
        ri(6),
        ri(7),
        ri(8),
        ri(9),
    );
    let matrix2 = Matrix3x3::new(
        ri(100),
        ri(200),
        ri(300),
        ri(400),
        ri(500),
        ri(600),
        ri(700),
        ri(800),
        ri(900),
    );
    let expected = Matrix3x3::new(
        ri(3000),
        ri(3600),
        ri(4200),
        ri(6600),
        ri(8100),
        ri(9600),
        ri(10200),
        ri(12600),
        ri(15000),
    );
    assert!(matrix.matmul(&matrix2).unwrap().equals(&expected));
}

#[test]
fn matmul_vector_from_example() {
    let matrix = Matrix3x3::new(
        ri(1),
        ri(2),
        ri(3),
        ri(4),
        ri(5),
        ri(6),
        ri(7),
        ri(8),
        ri(9),
    );
    let vector = Vector3::new(ri(100), ri(200), ri(300));
    let expected = Vector3::new(ri(1400), ri(3200), ri(5000));
    assert!(matrix.transform(&vector).unwrap().equals(&expected));
}

#[test]
fn dcm_transpose() {
    let dcm = Matrix3x3::identity();
    let matmul = dcm.matmul(&dcm.transpose()).unwrap();
    assert!(matmul.equals(&Matrix3x3::identity()));
}

#[test]
fn matrix_inverse_round_trip() {
    let matrix = Matrix3x3::new(
        ri(-3),
        ri(2),
        ri(-5),
        ri(-1),
        ri(0),
        ri(-2),
        ri(3),
        ri(-4),
        ri(1),
    );
    let inv = matrix.inv().unwrap();
    assert!(matrix.matmul(&inv).unwrap().equals(&Matrix3x3::identity()));
    assert!(inv.matmul(&matrix).unwrap().equals(&Matrix3x3::identity()));
}

#[test]
fn singular_matrix_has_no_inverse() {
    let matrix = Matrix3x3::new(
        ri(1),
        ri(2),
        ri(3),
        ri(2),
        ri(4),
        ri(6),
        ri(7),
        ri(8),
        ri(9),
    );
    assert!(matrix.det().unwrap().is_zero());
    assert!(matrix.inv().is_none());
}

#[test]
fn rational_arithmetic_is_exact() {
    let a = r(1, 3);
    let b = r(1, 6);
    assert!(a.add(&b).unwrap().equals(&r(1, 2)));
    assert!(a.sub(&b).unwrap().equals(&r(1, 6)));
    assert!(a.mul(&b).unwrap().equals(&r(1, 18)));
    assert!(a.div(&b).unwrap().equals(&ri(2)));
    assert!(Rat::new(5, 0).is_none());
    assert!(ri(7).div(&Rat::zero()).is_none());
}

#[test]
fn rational_sqrt() {
    assert!(r(9, 4).sqrt().unwrap().equals(&r(3, 2)));
    assert!(ri(0).sqrt().unwrap().equals(&ri(0)));
    assert!(ri(2).sqrt().is_none());
    assert!(ri(-4).sqrt().is_none());
}

#[test]
fn clamp_orders_its_bounds() {
    assert_eq!(clamp(5_i64, 10, 0), 5);
    assert_eq!(clamp(15_i64, 10, 0), 10);
    assert_eq!(clamp(-3_i64, 10, 0), 0);
}
