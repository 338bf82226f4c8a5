//! The `Tuple` primitive: a kind tag plus four fixed-point scalar
//! coordinates, with kind-aware addition, subtraction, negation and
//! approximate equality.
//!
//! Scalars are held in fixed-point units: one unit is a billionth
//! (`1 / SCALE`) of a coordinate value. Working on integer units keeps
//! every operation exact and lets each contract state the result
//! element by element.

use vstd::prelude::*;

verus! {

/// Number of fixed-point units in one whole coordinate value.
pub const SCALE: i64 = 1_000_000_000;

/// Tolerance of approximate equality, in fixed-point units: two scalars
/// count as equal when they differ by strictly less than this many units
/// (a hundred-thousandth of a coordinate value).
pub const EPSILON: i64 = 10_000;

/// The semantic kind of a tuple: an untyped tuple, a point, a vector,
/// or a color. The kind decides which arithmetic combinations are valid
/// and which kind each result carries.
#[derive(Clone, Copy, Debug, PartialEq, Eq, Structural)]
pub enum TupleKind {
    Untyped,
    Point,
    Vector,
    Color,
}

/// A very basic element representing points, vectors and colors:
/// a kind tag and four fixed-point scalar coordinates.
#[derive(Clone, Copy, Debug)]
pub struct Tuple {
    /// A Tuple can be a point, a vector, a color or none of them.
    pub kind: TupleKind,
    /// The four fixed-point elements of a Tuple.
    pub elements: [i64; 4],
}

/// Two scalars are close when they differ by strictly less than `EPSILON`
/// units in absolute value.
pub open spec fn scalars_close(a: int, b: int) -> bool {
    -(EPSILON as int) < a - b < EPSILON as int
}

/// Approximate tuple equality: the kinds agree exactly and every pair of
/// corresponding elements is within the tolerance.
pub open spec fn tuples_close(a: Tuple, b: Tuple) -> bool {
    &&& a.kind == b.kind
    &&& scalars_close(a.elements[0] as int, b.elements[0] as int)
    &&& scalars_close(a.elements[1] as int, b.elements[1] as int)
    &&& scalars_close(a.elements[2] as int, b.elements[2] as int)
    &&& scalars_close(a.elements[3] as int, b.elements[3] as int)
}

/// Addition is valid for every pair of kinds except point plus point,
/// which is geometrically meaningless.
pub open spec fn add_valid(k1: TupleKind, k2: TupleKind) -> bool {
    !(k1 == TupleKind::Point && k2 == TupleKind::Point)
}

/// The kind of a valid sum: vector plus vector gives a vector; every
/// other valid combination gives a point.
pub open spec fn add_kind(k1: TupleKind, k2: TupleKind) -> TupleKind {
    if k1 == TupleKind::Vector && k2 == TupleKind::Vector {
        TupleKind::Vector
    } else {
        TupleKind::Point
    }
}

/// Subtraction is valid for every pair of kinds except a point taken
/// away from a vector, which is geometrically meaningless.
pub open spec fn sub_valid(k1: TupleKind, k2: TupleKind) -> bool {
    !(k1 == TupleKind::Vector && k2 == TupleKind::Point)
}

/// The kind of a valid difference: a vector taken away from a point
/// gives a point; every other valid combination gives a vector.
pub open spec fn sub_kind(k1: TupleKind, k2: TupleKind) -> TupleKind {
    if k1 == TupleKind::Point && k2 == TupleKind::Vector {
        TupleKind::Point
    } else {
        TupleKind::Vector
    }
}

/// Every element-wise sum of the two tuples fits in a scalar.
pub open spec fn sums_in_range(a: Tuple, b: Tuple) -> bool {
    &&& i64::MIN <= a.elements[0] + b.elements[0] <= i64::MAX
    &&& i64::MIN <= a.elements[1] + b.elements[1] <= i64::MAX
    &&& i64::MIN <= a.elements[2] + b.elements[2] <= i64::MAX
    &&& i64::MIN <= a.elements[3] + b.elements[3] <= i64::MAX
}

/// Every element-wise difference of the two tuples fits in a scalar.
pub open spec fn diffs_in_range(a: Tuple, b: Tuple) -> bool {
    &&& i64::MIN <= a.elements[0] - b.elements[0] <= i64::MAX
    &&& i64::MIN <= a.elements[1] - b.elements[1] <= i64::MAX
    &&& i64::MIN <= a.elements[2] - b.elements[2] <= i64::MAX
    &&& i64::MIN <= a.elements[3] - b.elements[3] <= i64::MAX
}

/// Every element of the tuple can be negated without leaving the scalar
/// range (only the smallest scalar cannot).
pub open spec fn negs_in_range(a: Tuple) -> bool {
    &&& a.elements[0] != i64::MIN
    &&& a.elements[1] != i64::MIN
    &&& a.elements[2] != i64::MIN
    &&& a.elements[3] != i64::MIN
}

/// Whether two scalars differ by strictly less than `EPSILON` units.
fn is_equal(a: i64, b: i64) -> (r: bool)
    ensures
        r == scalars_close(a as int, b as int),
{
    let d: i128 = (a as i128) - (b as i128);
    -(EPSILON as i128) < d && d < EPSILON as i128
}

impl Tuple {
    /// Returns a tuple with the four elements given and the untyped kind.
    pub fn new(e0: i64, e1: i64, e2: i64, e3: i64) -> (t: Tuple)
        ensures
            t.kind == TupleKind::Untyped,
            t.elements[0] == e0,
            t.elements[1] == e1,
            t.elements[2] == e2,
            t.elements[3] == e3,
    {
        Tuple { kind: TupleKind::Untyped, elements: [e0, e1, e2, e3] }
    }

    /// Returns a tuple with the three elements given, a zero fourth
    /// element, and a point kind.
    pub fn new_point(e0: i64, e1: i64, e2: i64) -> (t: Tuple)
        ensures
            t.kind == TupleKind::Point,
            t.elements[0] == e0,
            t.elements[1] == e1,
            t.elements[2] == e2,
            t.elements[3] == 0,
    {
        Tuple { kind: TupleKind::Point, elements: [e0, e1, e2, 0] }
    }

    /// Returns a tuple with the three elements given, a zero fourth
    /// element, and a vector kind.
    pub fn new_vector(e0: i64, e1: i64, e2: i64) -> (t: Tuple)
        ensures
            t.kind == TupleKind::Vector,
            t.elements[0] == e0,
            t.elements[1] == e1,
            t.elements[2] == e2,
            t.elements[3] == 0,
    {
        Tuple { kind: TupleKind::Vector, elements: [e0, e1, e2, 0] }
    }

    /// Returns a tuple with the three elements given, a zero fourth
    /// element, and a color kind.
    pub fn new_color(e0: i64, e1: i64, e2: i64) -> (t: Tuple)
        ensures
            t.kind == TupleKind::Color,
            t.elements[0] == e0,
            t.elements[1] == e1,
            t.elements[2] == e2,
            t.elements[3] == 0,
    {
        Tuple { kind: TupleKind::Color, elements: [e0, e1, e2, 0] }
    }

    /// Returns whether both tuples are equal up to the fixed tolerance:
    /// same kind, and every element pair within `EPSILON` units.
    pub fn is_equal(&self, other: &Tuple) -> (r: bool)
        ensures
            r == tuples_close(*self, *other),
    {
        self.kind == other.kind
            && is_equal(self.elements[0], other.elements[0])
            && is_equal(self.elements[1], other.elements[1])
            && is_equal(self.elements[2], other.elements[2])
            && is_equal(self.elements[3], other.elements[3])
    }

    /// Returns the element-wise sum of the two tuples, tagged by the
    /// kind rule, or nothing when both operands are points.
    pub fn add(&self, other: &Tuple) -> (r: Option<Tuple>)
        requires
            sums_in_range(*self, *other),
        ensures
            (r is Some) == add_valid(self.kind, other.kind),
            r matches Some(t) ==> t.kind == add_kind(self.kind, other.kind),
            r matches Some(t) ==> t.elements[0] == self.elements[0] + other.elements[0],
            r matches Some(t) ==> t.elements[1] == self.elements[1] + other.elements[1],
            r matches Some(t) ==> t.elements[2] == self.elements[2] + other.elements[2],
            r matches Some(t) ==> t.elements[3] == self.elements[3] + other.elements[3],
    {
        if self.kind == TupleKind::Point && other.kind == TupleKind::Point {
            None
        } else {
            let kind: TupleKind =
                if self.kind == TupleKind::Vector && other.kind == TupleKind::Vector {
                    TupleKind::Vector
                } else {
                    TupleKind::Point
                };

            Some(Tuple {
                kind: kind,
                elements: [
                    self.elements[0] + other.elements[0],
                    self.elements[1] + other.elements[1],
                    self.elements[2] + other.elements[2],
                    self.elements[3] + other.elements[3],
                ],
            })
        }
    }

    /// Returns the element-wise difference of the two tuples, tagged by
    /// the kind rule, or nothing when a point is taken away from a vector.
    pub fn sub(&self, other: &Tuple) -> (r: Option<Tuple>)
        requires
            diffs_in_range(*self, *other),
        ensures
            (r is Some) == sub_valid(self.kind, other.kind),
            r matches Some(t) ==> t.kind == sub_kind(self.kind, other.kind),
            r matches Some(t) ==> t.elements[0] == self.elements[0] - other.elements[0],
            r matches Some(t) ==> t.elements[1] == self.elements[1] - other.elements[1],
            r matches Some(t) ==> t.elements[2] == self.elements[2] - other.elements[2],
            r matches Some(t) ==> t.elements[3] == self.elements[3] - other.elements[3],
    {
        if self.kind == TupleKind::Vector && other.kind == TupleKind::Point {
            None
        } else {
            let kind: TupleKind =
                if self.kind == TupleKind::Point && other.kind == TupleKind::Vector {
                    TupleKind::Point
                } else {
                    TupleKind::Vector
                };

            Some(Tuple {
                kind: kind,
                elements: [
                    self.elements[0] - other.elements[0],
                    self.elements[1] - other.elements[1],
                    self.elements[2] - other.elements[2],
                    self.elements[3] - other.elements[3],
                ],
            })
        }
    }

    /// Returns the opposite tuple: the same kind, every element negated.
    pub fn neg(&self) -> (r: Tuple)
        requires
            negs_in_range(*self),
        ensures
            r.kind == self.kind,
            r.elements[0] == -(self.elements[0] as int),
            r.elements[1] == -(self.elements[1] as int),
            r.elements[2] == -(self.elements[2] as int),
            r.elements[3] == -(self.elements[3] as int),
    {
        Tuple {
            kind: self.kind,
            elements: [
                -self.elements[0],
                -self.elements[1],
                -self.elements[2],
                -self.elements[3],
            ],
        }
    }
}

/// Addition is commutative: swapping the operands changes neither whether
/// the sum is valid, nor the kind of the result, nor any element-wise sum.
pub proof fn lemma_add_commutative(a: Tuple, b: Tuple)
    ensures
        add_valid(a.kind, b.kind) == add_valid(b.kind, a.kind),
        add_kind(a.kind, b.kind) == add_kind(b.kind, a.kind),
        forall|i: int| 0 <= i < 4 ==> a.elements[i] + b.elements[i] == b.elements[i] + a.elements[i],
{
}

/// Approximate equality is reflexive: every tuple is equal to itself.
pub proof fn lemma_is_equal_reflexive(t: Tuple)
    ensures
        tuples_close(t, t),
{
}

/// Approximate equality is symmetric: it does not depend on the order
/// of the two tuples.
pub proof fn lemma_is_equal_symmetric(a: Tuple, b: Tuple)
    ensures
        tuples_close(a, b) == tuples_close(b, a),
{
}

/// Tuples of different kinds are never approximately equal, however
/// close their elements are.
pub proof fn lemma_is_equal_kind_mismatch(a: Tuple, b: Tuple)
    requires
        a.kind != b.kind,
    ensures
        !tuples_close(a, b),
{
}

} // verus!
