use msg_fixtures::geometry_msgs::{
    Point, Pose, Quaternion, Twist, TwistWithCovariance, TwistWithCovarianceStamped, Vector3,
    Vector3Stamped, Wrench, WrenchStamped, COVARIANCE_LENGTH,
};
use msg_fixtures::std_msgs::{Header, Time};
use std::cell::Cell;

fn unit() -> f64 {
    rand::random::<f64>()
}

fn in_unit_interval(v: f64) -> bool {
    (0.0..1.0).contains(&v)
}

fn some_header() -> Header {
    Header { stamp: Time { sec: 12, nanosec: 34 }, frame_id: String::from("map") }
}

fn is_sampled(header: &Header) -> bool {
    header.stamp.nanosec < 1_000_000_000
        && header.frame_id.len() == 16
        && header.frame_id.chars().all(|c| c.is_ascii_alphanumeric())
}

#[test]
fn covariance_length_is_thirty_six() {
    assert_eq!(COVARIANCE_LENGTH, 36);
}

#[test]
fn point_takes_three_draws_in_field_order() {
    let calls = Cell::new(0u32);
    let point = Point::sample(&|| {
        calls.set(calls.get() + 1);
        calls.get()
    });
    assert_eq!(point, Point { x: 1, y: 2, z: 3 });
    assert_eq!(calls.get(), 3);
}

#[test]
fn point_of_uniform_doubles() {
    let point = Point::sample(&unit);
    assert!(in_unit_interval(point.x) && in_unit_interval(point.y) && in_unit_interval(point.z));
}

#[test]
fn quaternion_takes_four_draws_in_field_order() {
    let calls = Cell::new(0u32);
    let quaternion = Quaternion::sample(&|| {
        calls.set(calls.get() + 1);
        calls.get()
    });
    assert_eq!(quaternion, Quaternion { x: 1, y: 2, z: 3, w: 4 });
    assert_eq!(calls.get(), 4);
}

#[test]
fn quaternion_of_uniform_doubles_is_populated() {
    let q = Quaternion::sample(&unit);
    assert!(in_unit_interval(q.x) && in_unit_interval(q.y));
    assert!(in_unit_interval(q.z) && in_unit_interval(q.w));
}

#[test]
fn quaternion_is_not_normalized() {
    let q = Quaternion::sample(&|| 2.0f64);
    assert_eq!(q, Quaternion { x: 2.0, y: 2.0, z: 2.0, w: 2.0 });
    let norm = (q.x * q.x + q.y * q.y + q.z * q.z + q.w * q.w).sqrt();
    assert_eq!(norm, 4.0);
}

#[test]
fn quaternions_of_uniform_doubles_are_not_all_of_unit_length() {
    let mut off_unit = 0;
    for _ in 0..100 {
        let q = Quaternion::sample(&unit);
        let norm = (q.x * q.x + q.y * q.y + q.z * q.z + q.w * q.w).sqrt();
        if (norm - 1.0).abs() > 1e-9 {
            off_unit += 1;
        }
    }
    assert!(off_unit > 0);
}

#[test]
fn vector3_takes_three_draws_in_field_order() {
    let calls = Cell::new(0u32);
    let vector = Vector3::sample(&|| {
        calls.set(calls.get() + 1);
        calls.get()
    });
    assert_eq!(vector, Vector3 { x: 1, y: 2, z: 3 });
}

#[test]
fn pose_draws_position_then_orientation() {
    let calls = Cell::new(0u32);
    let pose = Pose::sample(&|| {
        calls.set(calls.get() + 1);
        calls.get()
    });
    assert_eq!(pose.position, Point { x: 1, y: 2, z: 3 });
    assert_eq!(pose.orientation, Quaternion { x: 4, y: 5, z: 6, w: 7 });
    assert_eq!(calls.get(), 7);
}

#[test]
fn twist_draws_linear_then_angular() {
    let calls = Cell::new(0u32);
    let twist = Twist::sample(&|| {
        calls.set(calls.get() + 1);
        calls.get()
    });
    assert_eq!(twist.linear, Vector3 { x: 1, y: 2, z: 3 });
    assert_eq!(twist.angular, Vector3 { x: 4, y: 5, z: 6 });
}

#[test]
fn wrench_draws_force_then_torque() {
    let calls = Cell::new(0u32);
    let wrench = Wrench::sample(&|| {
        calls.set(calls.get() + 1);
        calls.get()
    });
    assert_eq!(wrench.force, Vector3 { x: 1, y: 2, z: 3 });
    assert_eq!(wrench.torque, Vector3 { x: 4, y: 5, z: 6 });
}

#[test]
fn twist_with_covariance_has_thirty_six_entries() {
    let calls = Cell::new(0u32);
    let made = TwistWithCovariance::sample(&|| {
        calls.set(calls.get() + 1);
        calls.get()
    });
    assert_eq!(made.twist.linear, Vector3 { x: 1, y: 2, z: 3 });
    assert_eq!(made.twist.angular, Vector3 { x: 4, y: 5, z: 6 });
    assert_eq!(made.covariance, (7u32..=42).collect::<Vec<u32>>());
    assert_eq!(made.covariance.len(), 36);
    assert_eq!(calls.get(), 42);
}

#[test]
fn twist_with_covariance_of_uniform_doubles() {
    let made = TwistWithCovariance::sample(&unit);
    assert_eq!(made.covariance.len(), 36);
    assert!(made.covariance.iter().all(|v| in_unit_interval(*v)));
}

#[test]
fn vector3_stamped_keeps_the_given_header() {
    let stamped = Vector3Stamped::sample_with(some_header(), &|| 7u8);
    assert_eq!(stamped, Vector3Stamped { header: some_header(), vector: Vector3 { x: 7, y: 7, z: 7 } });
}

#[test]
fn vector3_stamped_is_sampled_whole() {
    let stamped = Vector3Stamped::sample(&unit).unwrap();
    assert!(is_sampled(&stamped.header));
    assert!(in_unit_interval(stamped.vector.x));
}

#[test]
fn twist_with_covariance_stamped_keeps_the_given_header() {
    let stamped = TwistWithCovarianceStamped::sample_with(some_header(), &|| 7u8);
    assert_eq!(stamped.header, some_header());
    assert_eq!(stamped.twist.covariance, vec![7u8; 36]);
}

#[test]
fn twist_with_covariance_stamped_is_sampled_whole() {
    let stamped = TwistWithCovarianceStamped::sample(&unit).unwrap();
    assert!(is_sampled(&stamped.header));
    assert_eq!(stamped.twist.covariance.len(), 36);
}

#[test]
fn wrench_stamped_keeps_the_given_header() {
    let stamped = WrenchStamped::sample_with(some_header(), &|| 7u8);
    assert_eq!(stamped.header, some_header());
    assert_eq!(stamped.wrench.force, Vector3 { x: 7, y: 7, z: 7 });
    assert_eq!(stamped.wrench.torque, Vector3 { x: 7, y: 7, z: 7 });
}

#[test]
fn wrench_stamped_is_sampled_whole() {
    let stamped = WrenchStamped::sample(&unit).unwrap();
    assert!(is_sampled(&stamped.header));
    assert!(in_unit_interval(stamped.wrench.torque.z));
}
