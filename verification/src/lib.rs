//! A minimal three-dimensional vector value type with componentwise
//! arithmetic: addition, subtraction, scalar multiplication and scalar
//! division, each with an in-place variant, plus a zero-vector constructor.
//!
//! Each component is an IEEE-754 single-precision value carried as its
//! 32-bit pattern (`u32`), because the verifier has no theory of floating
//! point. The scalar arithmetic itself is therefore handed in as a function
//! value: [`Vector3d::zip_with`] and [`Vector3d::scale_with`] (and their
//! in-place forms) are verified to apply that operation to each pair of
//! matching components and to touch nothing else, for every operation they
//! are given. A caller binds them to the machine's `f32` addition,
//! subtraction, multiplication and division, converting through
//! `f32::to_bits` and `f32::from_bits` at the boundary; division by a zero
//! pattern then follows IEEE-754 (an infinity or NaN pattern, never an
//! error), exactly as the operation the caller supplied behaves.
//!
//! The type has value semantics: the pure operations take their operands by
//! copy and return a new vector, so no operand a caller holds ever changes;
//! the in-place operations mutate the receiver alone, and their contracts
//! say exactly what each field of the receiver becomes.

use vstd::prelude::*;

verus! {

/// A point or displacement in three-dimensional space. Each field holds
/// the bit pattern of one single-precision coordinate; any pattern, finite
/// or not, is accepted, and the type imposes no validation.
#[derive(Clone, Copy, Debug)]
pub struct Vector3d {
    pub x: u32,
    pub y: u32,
    pub z: u32,
}

impl Vector3d {
    /// Constructs a vector with the given coordinate patterns, exactly as
    /// supplied. Always succeeds.
    pub fn new(x: u32, y: u32, z: u32) -> (v: Vector3d)
        ensures
            v.x == x,
            v.y == y,
            v.z == z,
    {
        Vector3d { x, y, z }
    }

    /// The vector at the origin: every component is the all-zero bit
    /// pattern, which encodes `+0.0`.
    pub fn zero() -> (v: Vector3d)
        ensures
            v.x == 0,
            v.y == 0,
            v.z == 0,
    {
        Vector3d::new(0, 0, 0)
    }

    /// Combines two vectors componentwise: each component of the result is
    /// an application of `op` to the matching components of `self` and
    /// `other`, in that argument order. Returns a new vector and mutates
    /// neither operand, which are taken by copy. Bound to `f32` addition
    /// or subtraction on bit patterns, this is vector addition or
    /// subtraction.
    pub fn zip_with<F: Fn(u32, u32) -> u32>(self, other: Vector3d, op: F) -> (r: Vector3d)
        requires
            call_requires(op, (self.x, other.x)),
            call_requires(op, (self.y, other.y)),
            call_requires(op, (self.z, other.z)),
        ensures
            call_ensures(op, (self.x, other.x), r.x),
            call_ensures(op, (self.y, other.y), r.y),
            call_ensures(op, (self.z, other.z), r.z),
    {
        Vector3d { x: op(self.x, other.x), y: op(self.y, other.y), z: op(self.z, other.z) }
    }

    /// Combines `other` into `self` componentwise, in place: each field of
    /// the receiver becomes an application of `op` to that field's old
    /// value and the matching component of `other`. Only the receiver
    /// changes; `other` is taken by copy, so the caller's copy is
    /// untouched.
    pub fn zip_with_in_place<F: Fn(u32, u32) -> u32>(&mut self, other: Vector3d, op: F)
        requires
            call_requires(op, (old(self).x, other.x)),
            call_requires(op, (old(self).y, other.y)),
            call_requires(op, (old(self).z, other.z)),
        ensures
            call_ensures(op, (old(self).x, other.x), final(self).x),
            call_ensures(op, (old(self).y, other.y), final(self).y),
            call_ensures(op, (old(self).z, other.z), final(self).z),
    {
        self.x = op(self.x, other.x);
        self.y = op(self.y, other.y);
        self.z = op(self.z, other.z);
    }

    /// Applies `op` to each component of `self` and the single scalar
    /// pattern `value`, component first. Returns a new vector and does not
    /// mutate the receiver. Bound to `f32` multiplication or division on
    /// bit patterns, this is scalar multiplication or scalar division.
    pub fn scale_with<F: Fn(u32, u32) -> u32>(self, value: u32, op: F) -> (r: Vector3d)
        requires
            call_requires(op, (self.x, value)),
            call_requires(op, (self.y, value)),
            call_requires(op, (self.z, value)),
        ensures
            call_ensures(op, (self.x, value), r.x),
            call_ensures(op, (self.y, value), r.y),
            call_ensures(op, (self.z, value), r.z),
    {
        Vector3d { x: op(self.x, value), y: op(self.y, value), z: op(self.z, value) }
    }

    /// Applies `op` to each component of the receiver and the scalar
    /// pattern `value`, in place: each field becomes an application of
    /// `op` to its old value and `value`. Only the receiver changes.
    pub fn scale_with_in_place<F: Fn(u32, u32) -> u32>(&mut self, value: u32, op: F)
        requires
            call_requires(op, (old(self).x, value)),
            call_requires(op, (old(self).y, value)),
            call_requires(op, (old(self).z, value)),
        ensures
            call_ensures(op, (old(self).x, value), final(self).x),
            call_ensures(op, (old(self).y, value), final(self).y),
            call_ensures(op, (old(self).z, value), final(self).z),
    {
        self.x = op(self.x, value);
        self.y = op(self.y, value);
        self.z = op(self.z, value);
    }
}

/// Left identity, lifted componentwise: if applying `op` to `(e, c)` can
/// only return `c` itself, then any result `r` of combining a vector whose
/// components are all `e` (for `e == 0`, the zero vector) with `v` under
/// `op` equals `v` componentwise.
pub proof fn lemma_zip_with_left_identity<F: Fn(u32, u32) -> u32>(
    op: F,
    e: u32,
    v: Vector3d,
    r: Vector3d,
)
    requires
        forall|c: u32, t: u32| #[trigger] call_ensures(op, (e, c), t) ==> t == c,
        call_ensures(op, (e, v.x), r.x),
        call_ensures(op, (e, v.y), r.y),
        call_ensures(op, (e, v.z), r.z),
    ensures
        r.x == v.x,
        r.y == v.y,
        r.z == v.z,
{
}

/// Annihilation of equal operands, lifted componentwise: if applying `op`
/// to a pair of equal scalars can only return `e` (for subtraction and
/// `e == 0`, the zero pattern), then any result `r` of combining `v` with
/// itself under `op` has every component equal to `e`.
pub proof fn lemma_zip_with_self_annihilates<F: Fn(u32, u32) -> u32>(
    op: F,
    e: u32,
    v: Vector3d,
    r: Vector3d,
)
    requires
        forall|c: u32, t: u32| #[trigger] call_ensures(op, (c, c), t) ==> t == e,
        call_ensures(op, (v.x, v.x), r.x),
        call_ensures(op, (v.y, v.y), r.y),
        call_ensures(op, (v.z, v.z), r.z),
    ensures
        r.x == e,
        r.y == e,
        r.z == e,
{
}

/// Commutativity, lifted componentwise: if every possible result of `op`
/// on `(c, d)` is also a possible result of `op` on `(d, c)`, then any
/// result of combining `a` with `b` under `op` is also a possible result
/// of combining `b` with `a`, componentwise.
pub proof fn lemma_zip_with_commutes<F: Fn(u32, u32) -> u32>(
    op: F,
    a: Vector3d,
    b: Vector3d,
    r: Vector3d,
)
    requires
        forall|c: u32, d: u32, t: u32| #[trigger] call_ensures(op, (c, d), t) ==> call_ensures(
            op,
            (d, c),
            t,
        ),
        call_ensures(op, (a.x, b.x), r.x),
        call_ensures(op, (a.y, b.y), r.y),
        call_ensures(op, (a.z, b.z), r.z),
    ensures
        call_ensures(op, (b.x, a.x), r.x),
        call_ensures(op, (b.y, a.y), r.y),
        call_ensures(op, (b.z, a.z), r.z),
{
}

/// Scaling and unscaling, lifted componentwise: if applying `down` to
/// `(m, s)` can only undo an application of `up` to `(c, s)` — that is,
/// any result of `up` on `(c, s)` followed by `down` on it and `s` can
/// only return `c` — then scaling `v` by `s` under `up` into `w` and
/// scaling `w` by `s` under `down` into `r` returns `v` componentwise.
pub proof fn lemma_scale_with_round_trip<F: Fn(u32, u32) -> u32, G: Fn(u32, u32) -> u32>(
    up: F,
    down: G,
    s: u32,
    v: Vector3d,
    w: Vector3d,
    r: Vector3d,
)
    requires
        forall|c: u32, m: u32, t: u32|
            #[trigger] call_ensures(up, (c, s), m) && #[trigger] call_ensures(down, (m, s), t)
                ==> t == c,
        call_ensures(up, (v.x, s), w.x),
        call_ensures(up, (v.y, s), w.y),
        call_ensures(up, (v.z, s), w.z),
        call_ensures(down, (w.x, s), r.x),
        call_ensures(down, (w.y, s), r.y),
        call_ensures(down, (w.z, s), r.z),
    ensures
        r.x == v.x,
        r.y == v.y,
        r.z == v.z,
{
}

} // verus!
