//! Vectors of three components.

use vstd::prelude::*;
use vstd::std_specs::cmp::PartialEqSpecImpl;
use vstd::std_specs::convert::FromSpecImpl;
use vstd::std_specs::ops::NegSpecImpl;
use crate::binary32::{is_finite, negate, negated, negated_twice, POSITIVE_ZERO};
use crate::epsilon::{is_within_epsilon, within_epsilon, within_epsilon_under_negation};

verus! {

/// Three binary32 components, each held as its encoding.
///
/// `==` on vectors is equality up to machine epsilon in every component. In
/// contracts, `==` is identity: the same three encodings.
#[derive(Clone, Copy, Debug)]
pub struct Vector3 {
    pub x: u32,
    pub y: u32,
    pub z: u32,
}

impl View for Vector3 {
    type V = Seq<u32>;

    /// The components in order: x, y, z.
    open spec fn view(&self) -> Seq<u32> {
        seq![self.x, self.y, self.z]
    }
}

impl Vector3 {
    /// The vector whose components are the elements of `e`, in order.
    pub open spec fn of_array(e: [u32; 3]) -> Vector3 {
        Vector3 { x: e[0], y: e[1], z: e[2] }
    }

    /// The array whose elements are the components, in order.
    pub open spec fn to_array(self) -> [u32; 3] {
        [self.x, self.y, self.z]
    }

    /// The vector with every component negated.
    pub open spec fn negation(self) -> Vector3 {
        Vector3 {
            x: negated(self.x),
            y: negated(self.y),
            z: negated(self.z),
        }
    }

    /// Whether every component is finite.
    pub open spec fn all_finite(self) -> bool {
        is_finite(self.x) && is_finite(self.y) && is_finite(self.z)
    }

    /// Whether every component is within machine epsilon of the component of
    /// `other` at the same place.
    pub open spec fn approx_eq(self, other: Vector3) -> bool {
        within_epsilon(self.x, other.x) && within_epsilon(self.y, other.y) && within_epsilon(
            self.z,
            other.z,
        )
    }

    /// The vector whose components are all positive zero.
    pub fn zero() -> (v: Vector3)
        ensures
            v == (Vector3 { x: POSITIVE_ZERO, y: POSITIVE_ZERO, z: POSITIVE_ZERO }),
    {
        Vector3 { x: POSITIVE_ZERO, y: POSITIVE_ZERO, z: POSITIVE_ZERO }
    }

    /// The vector with the given components.
    pub fn new(x: u32, y: u32, z: u32) -> (v: Vector3)
        ensures
            v == (Vector3 { x, y, z }),
    {
        Vector3 { x, y, z }
    }
}

impl PartialEq for Vector3 {
    /// Whether the two vectors are equal up to machine epsilon in every
    /// component.
    fn eq(&self, other: &Vector3) -> (r: bool)
        ensures
            r == self.approx_eq(*other),
    {
        is_within_epsilon(self.x, other.x) && is_within_epsilon(self.y, other.y)
            && is_within_epsilon(self.z, other.z)
    }
}

impl PartialEqSpecImpl for Vector3 {
    open spec fn obeys_eq_spec() -> bool {
        true
    }

    open spec fn eq_spec(&self, other: &Vector3) -> bool {
        self.approx_eq(*other)
    }
}

impl From<[u32; 3]> for Vector3 {
    /// The vector whose components are the elements of `e`, in order.
    fn from(e: [u32; 3]) -> (v: Vector3)
        ensures
            v == Vector3::of_array(e),
    {
        Vector3 { x: e[0], y: e[1], z: e[2] }
    }
}

impl FromSpecImpl<[u32; 3]> for Vector3 {
    open spec fn obeys_from_spec() -> bool {
        true
    }

    open spec fn from_spec(e: [u32; 3]) -> Vector3 {
        Vector3::of_array(e)
    }
}

impl From<Vector3> for [u32; 3] {
    /// The components of `v`, in order.
    fn from(v: Vector3) -> (e: [u32; 3])
        ensures
            e == v.to_array(),
    {
        [v.x, v.y, v.z]
    }
}

impl FromSpecImpl<Vector3> for [u32; 3] {
    open spec fn obeys_from_spec() -> bool {
        true
    }

    open spec fn from_spec(v: Vector3) -> [u32; 3] {
        v.to_array()
    }
}

impl core::ops::Neg for Vector3 {
    type Output = Vector3;

    /// The vector with every component negated.
    fn neg(self) -> (r: Vector3)
        ensures
            r == self.negation(),
    {
        Vector3 { x: negate(self.x), y: negate(self.y), z: negate(self.z) }
    }
}

impl NegSpecImpl for Vector3 {
    open spec fn obeys_neg_spec() -> bool {
        true
    }

    open spec fn neg_req(self) -> bool {
        true
    }

    open spec fn neg_spec(self) -> Vector3 {
        self.negation()
    }
}

/// A vector is determined by the sequence of its components.
pub proof fn vector3_view_determines(a: Vector3, b: Vector3)
    requires
        a@ == b@,
    ensures
        a == b,
{
    assert(a.x == a@[0] && a.y == a@[1] && a.z == a@[2]);
    assert(b.x == b@[0] && b.y == b@[1] && b.z == b@[2]);
}

/// Conversion between a vector and an array keeps every component in place:
/// the array's elements are the vector's components, in the same order.
pub proof fn vector3_array_keeps_order(v: Vector3, e: [u32; 3])
    ensures
        v.to_array()@ == v@,
        Vector3::of_array(e)@ == e@,
{
    assert(v.to_array()@ =~= v@);
    assert(Vector3::of_array(e)@ =~= e@);
}

/// Converting a vector to an array and back gives the vector again, and
/// converting an array to a vector and back gives the array again. Where
/// every component is finite, the vector that comes back is also `==` to the
/// one that went in.
pub proof fn vector3_array_round_trip(v: Vector3, e: [u32; 3])
    ensures
        Vector3::of_array(v.to_array()) == v,
        Vector3::of_array(e).to_array() == e,
        v.all_finite() ==> Vector3::of_array(v.to_array()).approx_eq(v),
{
    assert(Vector3::of_array(e).to_array() =~= e);
}

/// Negating a vector twice gives the vector again.
pub proof fn vector3_neg_twice(v: Vector3)
    ensures
        v.negation().negation() == v,
{
    negated_twice(v.x);
    negated_twice(v.y);
    negated_twice(v.z);
}

/// Equality up to epsilon does not depend on the order of the two vectors,
/// holds between a vector and itself exactly when all its components are
/// finite, and is kept when both vectors are negated.
pub proof fn vector3_approx_eq_laws(a: Vector3, b: Vector3)
    ensures
        a.approx_eq(b) == b.approx_eq(a),
        a.approx_eq(a) == a.all_finite(),
        a.negation().approx_eq(b.negation()) == a.approx_eq(b),
{
    within_epsilon_under_negation(a.x, b.x);
    within_epsilon_under_negation(a.y, b.y);
    within_epsilon_under_negation(a.z, b.z);
}

} // verus!
