//! Vectors of two components.

use vstd::prelude::*;
use vstd::std_specs::cmp::PartialEqSpecImpl;
use vstd::std_specs::convert::FromSpecImpl;
use vstd::std_specs::ops::NegSpecImpl;
use crate::binary32::{is_finite, negate, negated, negated_twice, POSITIVE_ZERO};
use crate::epsilon::{is_within_epsilon, within_epsilon, within_epsilon_under_negation};

verus! {

/// Two binary32 components, each held as its encoding.
///
/// `==` on vectors is equality up to machine epsilon in every component. In
/// contracts, `==` is identity: the same two encodings.
#[derive(Clone, Copy, Debug)]
pub struct Vector2 {
    pub x: u32,
    pub y: u32,
}

impl View for Vector2 {
    type V = Seq<u32>;

    /// The components in order: x, y.
    open spec fn view(&self) -> Seq<u32> {
        seq![self.x, self.y]
    }
}

impl Vector2 {
    /// The vector whose components are the elements of `e`, in order.
    pub open spec fn of_array(e: [u32; 2]) -> Vector2 {
        Vector2 { x: e[0], y: e[1] }
    }

    /// The array whose elements are the components, in order.
    pub open spec fn to_array(self) -> [u32; 2] {
        [self.x, self.y]
    }

    /// The vector with every component negated.
    pub open spec fn negation(self) -> Vector2 {
        Vector2 { x: negated(self.x), y: negated(self.y) }
    }

    /// Whether every component is finite.
    pub open spec fn all_finite(self) -> bool {
        is_finite(self.x) && is_finite(self.y)
    }

    /// Whether every component is within machine epsilon of the component of
    /// `other` at the same place.
    pub open spec fn approx_eq(self, other: Vector2) -> bool {
        within_epsilon(self.x, other.x) && within_epsilon(self.y, other.y)
    }

    /// The vector whose components are all positive zero.
    pub fn zero() -> (v: Vector2)
        ensures
            v == (Vector2 { x: POSITIVE_ZERO, y: POSITIVE_ZERO }),
    {
        Vector2 { x: POSITIVE_ZERO, y: POSITIVE_ZERO }
    }

    /// The vector with the given components.
    pub fn new(x: u32, y: u32) -> (v: Vector2)
        ensures
            v == (Vector2 { x, y }),
    {
        Vector2 { x, y }
    }
}

impl PartialEq for Vector2 {
    /// Whether the two vectors are equal up to machine epsilon in every
    /// component.
    fn eq(&self, other: &Vector2) -> (r: bool)
        ensures
            r == self.approx_eq(*other),
    {
        is_within_epsilon(self.x, other.x) && is_within_epsilon(self.y, other.y)
    }
}

impl PartialEqSpecImpl for Vector2 {
    open spec fn obeys_eq_spec() -> bool {
        true
    }

    open spec fn eq_spec(&self, other: &Vector2) -> bool {
        self.approx_eq(*other)
    }
}

impl From<[u32; 2]> for Vector2 {
    /// The vector whose components are the elements of `e`, in order.
    fn from(e: [u32; 2]) -> (v: Vector2)
        ensures
            v == Vector2::of_array(e),
    {
        Vector2 { x: e[0], y: e[1] }
    }
}

impl FromSpecImpl<[u32; 2]> for Vector2 {
    open spec fn obeys_from_spec() -> bool {
        true
    }

    open spec fn from_spec(e: [u32; 2]) -> Vector2 {
        Vector2::of_array(e)
    }
}

impl From<Vector2> for [u32; 2] {
    /// The components of `v`, in order.
    fn from(v: Vector2) -> (e: [u32; 2])
        ensures
            e == v.to_array(),
    {
        [v.x, v.y]
    }
}

impl FromSpecImpl<Vector2> for [u32; 2] {
    open spec fn obeys_from_spec() -> bool {
        true
    }

    open spec fn from_spec(v: Vector2) -> [u32; 2] {
        v.to_array()
    }
}

impl core::ops::Neg for Vector2 {
    type Output = Vector2;

    /// The vector with every component negated.
    fn neg(self) -> (r: Vector2)
        ensures
            r == self.negation(),
    {
        Vector2 { x: negate(self.x), y: negate(self.y) }
    }
}

impl NegSpecImpl for Vector2 {
    open spec fn obeys_neg_spec() -> bool {
        true
    }

    open spec fn neg_req(self) -> bool {
        true
    }

    open spec fn neg_spec(self) -> Vector2 {
        self.negation()
    }
}

/// A vector is determined by the sequence of its components.
pub proof fn vector2_view_determines(a: Vector2, b: Vector2)
    requires
        a@ == b@,
    ensures
        a == b,
{
    assert(a.x == a@[0] && a.y == a@[1]);
    assert(b.x == b@[0] && b.y == b@[1]);
}

/// Conversion between a vector and an array keeps every component in place:
/// the array's elements are the vector's components, in the same order.
pub proof fn vector2_array_keeps_order(v: Vector2, e: [u32; 2])
    ensures
        v.to_array()@ == v@,
        Vector2::of_array(e)@ == e@,
{
    assert(v.to_array()@ =~= v@);
    assert(Vector2::of_array(e)@ =~= e@);
}

/// Converting a vector to an array and back gives the vector again, and
/// converting an array to a vector and back gives the array again. Where
/// every component is finite, the vector that comes back is also `==` to the
/// one that went in.
pub proof fn vector2_array_round_trip(v: Vector2, e: [u32; 2])
    ensures
        Vector2::of_array(v.to_array()) == v,
        Vector2::of_array(e).to_array() == e,
        v.all_finite() ==> Vector2::of_array(v.to_array()).approx_eq(v),
{
    assert(Vector2::of_array(e).to_array() =~= e);
}

/// Negating a vector twice gives the vector again.
pub proof fn vector2_neg_twice(v: Vector2)
    ensures
        v.negation().negation() == v,
{
    negated_twice(v.x);
    negated_twice(v.y);
}

/// Equality up to epsilon does not depend on the order of the two vectors,
/// holds between a vector and itself exactly when all its components are
/// finite, and is kept when both vectors are negated.
pub proof fn vector2_approx_eq_laws(a: Vector2, b: Vector2)
    ensures
        a.approx_eq(b) == b.approx_eq(a),
        a.approx_eq(a) == a.all_finite(),
        a.negation().approx_eq(b.negation()) == a.approx_eq(b),
{
    within_epsilon_under_negation(a.x, b.x);
    within_epsilon_under_negation(a.y, b.y);
}

} // verus!
