//! Points, rotations, vectors, and the poses, twists and wrenches built
//! from them.
//!
//! Every record here is generic over the scalar type `S` of its components.
//! A sampler takes the scalar draw as a function and calls it once for each
//! component, in the order of the fields; what it returns is described by the
//! postcondition of that function alone. No relation between components is
//! established: a sampled quaternion, in particular, is not normalized.

use crate::primitives::{all_drawn, random_scalars};
use crate::std_msgs::{Header, SampleError};
use vstd::prelude::*;

verus! {

/// A position in space.
#[derive(Clone, Debug, PartialEq)]
pub struct Point<S> {
    pub x: S,
    pub y: S,
    pub z: S,
}

impl<S> Point<S> {
    /// Each coordinate is a possible result of `draw`.
    pub open spec fn is_fixture_of<D: Fn() -> S>(&self, draw: D) -> bool {
        &&& draw.ensures((), self.x)
        &&& draw.ensures((), self.y)
        &&& draw.ensures((), self.z)
    }

    /// A point of three independent draws.
    pub fn sample<D: Fn() -> S>(draw: &D) -> (point: Self)
        requires
            draw.requires(()),
        ensures
            point.is_fixture_of(*draw),
    {
        let x = draw();
        let y = draw();
        let z = draw();
        Point { x, y, z }
    }
}

/// An orientation in space, as the four components of a quaternion.
#[derive(Clone, Debug, PartialEq)]
pub struct Quaternion<S> {
    pub x: S,
    pub y: S,
    pub z: S,
    pub w: S,
}

impl<S> Quaternion<S> {
    /// Each component is a possible result of `draw`.
    pub open spec fn is_fixture_of<D: Fn() -> S>(&self, draw: D) -> bool {
        &&& draw.ensures((), self.x)
        &&& draw.ensures((), self.y)
        &&& draw.ensures((), self.z)
        &&& draw.ensures((), self.w)
    }

    /// A quaternion of four independent draws. It is left as drawn: its norm
    /// is whatever the four draws give.
    pub fn sample<D: Fn() -> S>(draw: &D) -> (quaternion: Self)
        requires
            draw.requires(()),
        ensures
            quaternion.is_fixture_of(*draw),
    {
        let x = draw();
        let y = draw();
        let z = draw();
        let w = draw();
        Quaternion { x, y, z, w }
    }
}

/// A free vector in space.
#[derive(Clone, Debug, PartialEq)]
pub struct Vector3<S> {
    pub x: S,
    pub y: S,
    pub z: S,
}

impl<S> Vector3<S> {
    /// Each component is a possible result of `draw`.
    pub open spec fn is_fixture_of<D: Fn() -> S>(&self, draw: D) -> bool {
        &&& draw.ensures((), self.x)
        &&& draw.ensures((), self.y)
        &&& draw.ensures((), self.z)
    }

    /// A vector of three independent draws.
    pub fn sample<D: Fn() -> S>(draw: &D) -> (vector: Self)
        requires
            draw.requires(()),
        ensures
            vector.is_fixture_of(*draw),
    {
        let x = draw();
        let y = draw();
        let z = draw();
        Vector3 { x, y, z }
    }
}

/// A vector with a header.
#[derive(Clone, Debug, PartialEq)]
pub struct Vector3Stamped<S> {
    pub header: Header,
    pub vector: Vector3<S>,
}

impl<S> Vector3Stamped<S> {
    /// A sampled header over a sampled vector.
    pub open spec fn is_fixture_of<D: Fn() -> S>(&self, draw: D) -> bool {
        &&& self.header.is_fixture()
        &&& self.vector.is_fixture_of(draw)
    }

    /// A sampled vector under the given header.
    pub fn sample_with<D: Fn() -> S>(header: Header, draw: &D) -> (stamped: Self)
        requires
            draw.requires(()),
        ensures
            stamped.header == header,
            stamped.vector.is_fixture_of(*draw),
    {
        Vector3Stamped { header, vector: Vector3::sample(draw) }
    }

    /// A sampled vector under a sampled header. Fails only as
    /// `Header::sample` does.
    pub fn sample<D: Fn() -> S>(draw: &D) -> (made: Result<Self, SampleError>)
        requires
            draw.requires(()),
        ensures
            made matches Ok(stamped) ==> stamped.is_fixture_of(*draw),
    {
        match Header::sample() {
            Ok(header) => Ok(Vector3Stamped::sample_with(header, draw)),
            Err(error) => Err(error),
        }
    }
}

/// A position together with an orientation.
#[derive(Clone, Debug, PartialEq)]
pub struct Pose<S> {
    pub position: Point<S>,
    pub orientation: Quaternion<S>,
}

impl<S> Pose<S> {
    /// A sampled position and a sampled orientation.
    pub open spec fn is_fixture_of<D: Fn() -> S>(&self, draw: D) -> bool {
        &&& self.position.is_fixture_of(draw)
        &&& self.orientation.is_fixture_of(draw)
    }

    /// A pose of a sampled point and a sampled quaternion, drawn in that
    /// order.
    pub fn sample<D: Fn() -> S>(draw: &D) -> (pose: Self)
        requires
            draw.requires(()),
        ensures
            pose.is_fixture_of(*draw),
    {
        let position = Point::sample(draw);
        let orientation = Quaternion::sample(draw);
        Pose { position, orientation }
    }
}

/// A velocity: its linear and its angular part.
#[derive(Clone, Debug, PartialEq)]
pub struct Twist<S> {
    pub linear: Vector3<S>,
    pub angular: Vector3<S>,
}

impl<S> Twist<S> {
    /// Two sampled vectors.
    pub open spec fn is_fixture_of<D: Fn() -> S>(&self, draw: D) -> bool {
        &&& self.linear.is_fixture_of(draw)
        &&& self.angular.is_fixture_of(draw)
    }

    /// A twist of two sampled vectors, the linear part drawn first.
    pub fn sample<D: Fn() -> S>(draw: &D) -> (twist: Self)
        requires
            draw.requires(()),
        ensures
            twist.is_fixture_of(*draw),
    {
        let linear = Vector3::sample(draw);
        let angular = Vector3::sample(draw);
        Twist { linear, angular }
    }
}

/// The number of entries in a covariance matrix of six rows and six
/// columns, stored row by row.
pub const COVARIANCE_LENGTH: usize = 36;

/// A twist with the covariance of its six components.
#[derive(Clone, Debug, PartialEq)]
pub struct TwistWithCovariance<S> {
    pub twist: Twist<S>,
    pub covariance: Vec<S>,
}

impl<S> TwistWithCovariance<S> {
    /// A sampled twist and a covariance of thirty-six draws.
    pub open spec fn is_fixture_of<D: Fn() -> S>(&self, draw: D) -> bool {
        &&& self.twist.is_fixture_of(draw)
        &&& self.covariance@.len() == COVARIANCE_LENGTH
        &&& all_drawn(self.covariance@, draw)
    }

    /// A sampled twist with a covariance of thirty-six independent draws.
    /// The matrix is left as drawn: it need not be symmetric, nor positive
    /// semi-definite.
    pub fn sample<D: Fn() -> S>(draw: &D) -> (made: Self)
        requires
            draw.requires(()),
        ensures
            made.is_fixture_of(*draw),
    {
        let twist = Twist::sample(draw);
        let covariance = random_scalars(COVARIANCE_LENGTH, draw);
        TwistWithCovariance { twist, covariance }
    }
}

/// A twist with its covariance, under a header.
#[derive(Clone, Debug, PartialEq)]
pub struct TwistWithCovarianceStamped<S> {
    pub header: Header,
    pub twist: TwistWithCovariance<S>,
}

impl<S> TwistWithCovarianceStamped<S> {
    /// A sampled header over a sampled twist with covariance.
    pub open spec fn is_fixture_of<D: Fn() -> S>(&self, draw: D) -> bool {
        &&& self.header.is_fixture()
        &&& self.twist.is_fixture_of(draw)
    }

    /// A sampled twist with covariance under the given header.
    pub fn sample_with<D: Fn() -> S>(header: Header, draw: &D) -> (stamped: Self)
        requires
            draw.requires(()),
        ensures
            stamped.header == header,
            stamped.twist.is_fixture_of(*draw),
    {
        TwistWithCovarianceStamped { header, twist: TwistWithCovariance::sample(draw) }
    }

    /// A sampled twist with covariance under a sampled header. Fails only as
    /// `Header::sample` does.
    pub fn sample<D: Fn() -> S>(draw: &D) -> (made: Result<Self, SampleError>)
        requires
            draw.requires(()),
        ensures
            made matches Ok(stamped) ==> stamped.is_fixture_of(*draw),
    {
        match Header::sample() {
            Ok(header) => Ok(TwistWithCovarianceStamped::sample_with(header, draw)),
            Err(error) => Err(error),
        }
    }
}

/// A force and a torque.
#[derive(Clone, Debug, PartialEq)]
pub struct Wrench<S> {
    pub force: Vector3<S>,
    pub torque: Vector3<S>,
}

impl<S> Wrench<S> {
    /// Two sampled vectors.
    pub open spec fn is_fixture_of<D: Fn() -> S>(&self, draw: D) -> bool {
        &&& self.force.is_fixture_of(draw)
        &&& self.torque.is_fixture_of(draw)
    }

    /// A wrench of two sampled vectors, the force drawn first.
    pub fn sample<D: Fn() -> S>(draw: &D) -> (wrench: Self)
        requires
            draw.requires(()),
        ensures
            wrench.is_fixture_of(*draw),
    {
        let force = Vector3::sample(draw);
        let torque = Vector3::sample(draw);
        Wrench { force, torque }
    }
}

/// A wrench with a header.
#[derive(Clone, Debug, PartialEq)]
pub struct WrenchStamped<S> {
    pub header: Header,
    pub wrench: Wrench<S>,
}

impl<S> WrenchStamped<S> {
    /// A sampled header over a sampled wrench.
    pub open spec fn is_fixture_of<D: Fn() -> S>(&self, draw: D) -> bool {
        &&& self.header.is_fixture()
        &&& self.wrench.is_fixture_of(draw)
    }

    /// A sampled wrench under the given header.
    pub fn sample_with<D: Fn() -> S>(header: Header, draw: &D) -> (stamped: Self)
        requires
            draw.requires(()),
        ensures
            stamped.header == header,
            stamped.wrench.is_fixture_of(*draw),
    {
        WrenchStamped { header, wrench: Wrench::sample(draw) }
    }

    /// A sampled wrench under a sampled header. Fails only as
    /// `Header::sample` does.
    pub fn sample<D: Fn() -> S>(draw: &D) -> (made: Result<Self, SampleError>)
        requires
            draw.requires(()),
        ensures
            made matches Ok(stamped) ==> stamped.is_fixture_of(*draw),
    {
        match Header::sample() {
            Ok(header) => Ok(WrenchStamped::sample_with(header, draw)),
            Err(error) => Err(error),
        }
    }
}

} // verus!
