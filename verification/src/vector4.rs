//! Vectors of four components.

use vstd::prelude::*;
use vstd::std_specs::cmp::PartialEqSpecImpl;
use vstd::std_specs::convert::FromSpecImpl;
use vstd::std_specs::ops::NegSpecImpl;
use crate::binary32::{is_finite, negate, negated, negated_twice, POSITIVE_ZERO};
use crate::epsilon::{is_within_epsilon, within_epsilon, within_epsilon_under_negation};

verus! {

/// Four binary32 components, each held as its encoding.
///
/// `==` on vectors is equality up to machine epsilon in every component. In
/// contracts, `==` is identity: the same four encodings.
#[derive(Clone, Copy, Debug)]
pub struct Vector4 {
    pub x: u32,
    pub y: u32,
    pub z: u32,
    pub w: u32,
}

impl View for Vector4 {
    type V = Seq<u32>;

    /// The components in order: x, y, z, w.
    open spec fn view(&self) -> Seq<u32> {
        seq![self.x, self.y, self.z, self.w]
    }
}

impl Vector4 {
    /// The vector whose components are the elements of `e`, in order.
    pub open spec fn of_array(e: [u32; 4]) -> Vector4 {
        Vector4 { x: e[0], y: e[1], z: e[2], w: e[3] }
    }

    /// The array whose elements are the components, in order.
    pub open spec fn to_array(self) -> [u32; 4] {
        [self.x, self.y, self.z, self.w]
    }

    /// The vector with every component negated.
    pub open spec fn negation(self) -> Vector4 {
        Vector4 {
            x: negated(self.x),
            y: negated(self.y),
            z: negated(self.z),
            w: negated(self.w),
        }
    }

    /// Whether every component is finite.
    pub open spec fn all_finite(self) -> bool {
        is_finite(self.x) && is_finite(self.y) && is_finite(self.z) && is_finite(self.w)
    }

    /// Whether every component is within machine epsilon of the component of
    /// `other` at the same place.
    pub open spec fn approx_eq(self, other: Vector4) -> bool {
        within_epsilon(self.x, other.x) && within_epsilon(self.y, other.y) && within_epsilon(
            self.z,
            other.z,
        ) && within_epsilon(self.w, other.w)
    }

    /// The vector whose components are all positive zero.
    pub fn zero() -> (v: Vector4)
        ensures
            v == (Vector4 { x: POSITIVE_ZERO, y: POSITIVE_ZERO, z: POSITIVE_ZERO, w: POSITIVE_ZERO }),
    {
        Vector4 { x: POSITIVE_ZERO, y: POSITIVE_ZERO, z: POSITIVE_ZERO, w: POSITIVE_ZERO }
    }

    /// The vector with the given components.
    pub fn new(x: u32, y: u32, z: u32, w: u32) -> (v: Vector4)
        ensures
            v == (Vector4 { x, y, z, w }),
    {
        Vector4 { x, y, z, w }
    }
}

impl PartialEq for Vector4 {
    /// Whether the two vectors are equal up to machine epsilon in every
    /// component.
    fn eq(&self, other: &Vector4) -> (r: bool)
        ensures
            r == self.approx_eq(*other),
    {
        is_within_epsilon(self.x, other.x) && is_within_epsilon(self.y, other.y)
            && is_within_epsilon(self.z, other.z) && is_within_epsilon(self.w, other.w)
    }
}

impl PartialEqSpecImpl for Vector4 {
    open spec fn obeys_eq_spec() -> bool {
        true
    }

    open spec fn eq_spec(&self, other: &Vector4) -> bool {
        self.approx_eq(*other)
    }
}

impl From<[u32; 4]> for Vector4 {
    /// The vector whose components are the elements of `e`, in order.
    fn from(e: [u32; 4]) -> (v: Vector4)
        ensures
            v == Vector4::of_array(e),
    {
        Vector4 { x: e[0], y: e[1], z: e[2], w: e[3] }
    }
}

impl FromSpecImpl<[u32; 4]> for Vector4 {
    open spec fn obeys_from_spec() -> bool {
        true
    }

    open spec fn from_spec(e: [u32; 4]) -> Vector4 {
        Vector4::of_array(e)
    }
}

impl From<Vector4> for [u32; 4] {
    /// The components of `v`, in order.
    fn from(v: Vector4) -> (e: [u32; 4])
        ensures
            e == v.to_array(),
    {
        [v.x, v.y, v.z, v.w]
    }
}

impl FromSpecImpl<Vector4> for [u32; 4] {
    open spec fn obeys_from_spec() -> bool {
        true
    }

    open spec fn from_spec(v: Vector4) -> [u32; 4] {
        v.to_array()
    }
}

impl core::ops::Neg for Vector4 {
    type Output = Vector4;

    /// The vector with every component negated.
    fn neg(self) -> (r: Vector4)
        ensures
            r == self.negation(),
    {
        Vector4 { x: negate(self.x), y: negate(self.y), z: negate(self.z), w: negate(self.w) }
    }
}

impl NegSpecImpl for Vector4 {
    open spec fn obeys_neg_spec() -> bool {
        true
    }

    open spec fn neg_req(self) -> bool {
        true
    }

    open spec fn neg_spec(self) -> Vector4 {
        self.negation()
    }
}

/// A vector is determined by the sequence of its components.
pub proof fn vector4_view_determines(a: Vector4, b: Vector4)
    requires
        a@ == b@,
    ensures
        a == b,
{
    assert(a.x == a@[0] && a.y == a@[1] && a.z == a@[2] && a.w == a@[3]);
    assert(b.x == b@[0] && b.y == b@[1] && b.z == b@[2] && b.w == b@[3]);
}

/// Conversion between a vector and an array keeps every component in place:
/// the array's elements are the vector's components, in the same order.
pub proof fn vector4_array_keeps_order(v: Vector4, e: [u32; 4])
    ensures
        v.to_array()@ == v@,
        Vector4::of_array(e)@ == e@,
{
    assert(v.to_array()@ =~= v@);
    assert(Vector4::of_array(e)@ =~= e@);
}

/// Converting a vector to an array and back gives the vector again, and
/// converting an array to a vector and back gives the array again. Where
/// every component is finite, the vector that comes back is also `==` to the
/// one that went in.
pub proof fn vector4_array_round_trip(v: Vector4, e: [u32; 4])
    ensures
        Vector4::of_array(v.to_array()) == v,
        Vector4::of_array(e).to_array() == e,
        v.all_finite() ==> Vector4::of_array(v.to_array()).approx_eq(v),
{
    assert(Vector4::of_array(e).to_array() =~= e);
}

/// Negating a vector twice gives the vector again.
pub proof fn vector4_neg_twice(v: Vector4)
    ensures
        v.negation().negation() == v,
{
    negated_twice(v.x);
    negated_twice(v.y);
    negated_twice(v.z);
    negated_twice(v.w);
}

/// Equality up to epsilon does not depend on the order of the two vectors,
/// holds between a vector and itself exactly when all its components are
/// finite, and is kept when both vectors are negated.
pub proof fn vector4_approx_eq_laws(a: Vector4, b: Vector4)
    ensures
        a.approx_eq(b) == b.approx_eq(a),
        a.approx_eq(a) == a.all_finite(),
        a.negation().approx_eq(b.negation()) == a.approx_eq(b),
{
    within_epsilon_under_negation(a.x, b.x);
    within_epsilon_under_negation(a.y, b.y);
    within_epsilon_under_negation(a.z, b.z);
    within_epsilon_under_negation(a.w, b.w);
}

} // verus!
