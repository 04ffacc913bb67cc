//! Rotations in space: quaternions and Euler angles.
//!
//! A quaternion lies flat as its vector part followed by its scalar part.
//! Euler angles carry their convention in the type, and the only change
//! of convention is the one between an intrinsic order and the extrinsic
//! order that mirrors it, which reverses the three angles.
use crate::into_mint::IntoMint;
use crate::vector::Vector3;
use core::marker::PhantomData;
use vstd::prelude::*;
use vstd::std_specs::convert::FromSpec;

verus! {

/// A quaternion, given by its vector part and its scalar part. It is a
/// record of four numbers: nothing asks that it have unit length.
#[derive(Clone, Copy, Debug, Hash, PartialEq, PartialOrd, Eq, Ord)]
pub struct Quaternion<T> {
    /// The vector part.
    pub v: Vector3<T>,
    /// The scalar part.
    pub s: T,
}

impl<T> View for Quaternion<T> {
    type V = Seq<T>;

    /// The three components of the vector part, then the scalar part.
    open spec fn view(&self) -> Seq<T> {
        seq![self.v.x, self.v.y, self.v.z, self.s]
    }
}

impl<T> IntoMint for Quaternion<T> {
    type MintType = Quaternion<T>;
}

impl<T: Copy> vstd::std_specs::convert::FromSpecImpl<[T; 4]> for Quaternion<T> {
    open spec fn obeys_from_spec() -> bool {
        true
    }

    open spec fn from_spec(a: [T; 4]) -> Self {
        Quaternion { v: Vector3 { x: a@[0], y: a@[1], z: a@[2] }, s: a@[3] }
    }
}

impl<T: Copy> From<[T; 4]> for Quaternion<T> {
    /// The first three entries are the vector part, the last one is the
    /// scalar part.
    fn from(a: [T; 4]) -> (q: Self)
        ensures
            q@ == a@,
    {
        Quaternion { s: a[3], v: Vector3::from([a[0], a[1], a[2]]) }
    }
}

impl<T> vstd::std_specs::convert::FromSpecImpl<Quaternion<T>> for [T; 4] {
    open spec fn obeys_from_spec() -> bool {
        true
    }

    open spec fn from_spec(q: Quaternion<T>) -> Self {
        [q.v.x, q.v.y, q.v.z, q.s]
    }
}

impl<T> From<Quaternion<T>> for [T; 4] {
    /// The vector part comes first and the scalar part last.
    fn from(q: Quaternion<T>) -> (a: Self)
        ensures
            a@ == q@,
            a@ == seq![q.v.x, q.v.y, q.v.z, q.s],
    {
        [q.v.x, q.v.y, q.v.z, q.s]
    }
}

impl<T: Copy> Quaternion<T> {
    /// Through the array form and back, every quaternion is what it was.
    pub proof fn lemma_array_round_trip(self)
        ensures
            Self::from_spec(<[T; 4]>::from_spec(self)) == self,
    {
    }

    /// From an array and back, every array is what it was.
    pub proof fn lemma_array_recovered(a: [T; 4])
        ensures
            <[T; 4]>::from_spec(Self::from_spec(a)) == a,
    {
        assert(<[T; 4]>::from_spec(Self::from_spec(a)) =~= a);
    }
}

impl<T> Quaternion<T> {
    /// The view tells quaternions apart: two with the same view are equal.
    pub proof fn lemma_view_injective(self, other: Self)
        requires
            self@ == other@,
        ensures
            self == other,
    {
        assert(self@[0] == other@[0]);
        assert(self@[1] == other@[1]);
        assert(self@[2] == other@[2]);
        assert(self@[3] == other@[3]);
    }
}

/// Three Euler angles, read in the convention that the type `B` names.
///
/// A convention is either intrinsic (each rotation is about an axis of the
/// rotated body) or extrinsic (each is about an axis of the world), and
/// names the three axes in order. Angles of different conventions are
/// different types, so they cannot be mixed up unnoticed.
#[derive(Debug, Hash, PartialEq, PartialOrd, Eq, Ord)]
pub struct EulerAngles<T, B> {
    /// The first angle of rotation.
    pub a: T,
    /// The second angle of rotation.
    pub b: T,
    /// The third angle of rotation.
    pub c: T,
    /// Stands for the convention, and holds no data.
    pub marker: PhantomData<B>,
}

/// Intrinsic rotation around the X, then the Y, then the Z axis.
#[derive(Clone, Copy, Debug, Hash, PartialEq, PartialOrd, Eq, Ord)]
pub enum IntraXYZ {
    /// The one value of the type, which serves as a label and is never
    /// looked at.
    Basis,
}

/// Intrinsic rotation around the Z, then the X, then the Z axis.
#[derive(Clone, Copy, Debug, Hash, PartialEq, PartialOrd, Eq, Ord)]
pub enum IntraZXZ {
    /// The one value of the type, which serves as a label and is never
    /// looked at.
    Basis,
}

/// Intrinsic rotation around the Z, then the Y, then the X axis.
#[derive(Clone, Copy, Debug, Hash, PartialEq, PartialOrd, Eq, Ord)]
pub enum IntraZYX {
    /// The one value of the type, which serves as a label and is never
    /// looked at.
    Basis,
}

/// Extrinsic rotation around the X, then the Y, then the Z axis.
#[derive(Clone, Copy, Debug, Hash, PartialEq, PartialOrd, Eq, Ord)]
pub enum ExtraXYZ {
    /// The one value of the type, which serves as a label and is never
    /// looked at.
    Basis,
}

/// Extrinsic rotation around the Z, then the X, then the Z axis.
#[derive(Clone, Copy, Debug, Hash, PartialEq, PartialOrd, Eq, Ord)]
pub enum ExtraZXZ {
    /// The one value of the type, which serves as a label and is never
    /// looked at.
    Basis,
}

/// Extrinsic rotation around the Z, then the Y, then the X axis.
#[derive(Clone, Copy, Debug, Hash, PartialEq, PartialOrd, Eq, Ord)]
pub enum ExtraZYX {
    /// The one value of the type, which serves as a label and is never
    /// looked at.
    Basis,
}

impl<T: Clone, B> Clone for EulerAngles<T, B> {
    /// A copy of each angle. The convention only labels the type, so
    /// nothing is asked of `B`.
    fn clone(&self) -> (copy: Self)
        ensures
            cloned(self.a, copy.a),
            cloned(self.b, copy.b),
            cloned(self.c, copy.c),
    {
        EulerAngles {
            a: self.a.clone(),
            b: self.b.clone(),
            c: self.c.clone(),
            marker: PhantomData,
        }
    }
}

impl<T: Copy, B> Copy for EulerAngles<T, B> {
}

impl<T, B> View for EulerAngles<T, B> {
    type V = Seq<T>;

    /// The three angles, the first one first.
    open spec fn view(&self) -> Seq<T> {
        seq![self.a, self.b, self.c]
    }
}

impl<T, B> IntoMint for EulerAngles<T, B> {
    type MintType = EulerAngles<T, B>;
}

impl<T: Copy, B> vstd::std_specs::convert::FromSpecImpl<[T; 3]> for EulerAngles<T, B> {
    open spec fn obeys_from_spec() -> bool {
        true
    }

    open spec fn from_spec(a: [T; 3]) -> Self {
        EulerAngles { a: a@[0], b: a@[1], c: a@[2], marker: PhantomData }
    }
}

impl<T: Copy, B> From<[T; 3]> for EulerAngles<T, B> {
    /// Entry `i` of the array becomes angle `i`.
    fn from(a: [T; 3]) -> (e: Self)
        ensures
            e@ == a@,
    {
        EulerAngles { a: a[0], b: a[1], c: a[2], marker: PhantomData }
    }
}

impl<T, B> vstd::std_specs::convert::FromSpecImpl<EulerAngles<T, B>> for [T; 3] {
    open spec fn obeys_from_spec() -> bool {
        true
    }

    open spec fn from_spec(e: EulerAngles<T, B>) -> Self {
        [e.a, e.b, e.c]
    }
}

impl<T, B> From<EulerAngles<T, B>> for [T; 3] {
    /// Angle `i` becomes entry `i` of the array.
    fn from(e: EulerAngles<T, B>) -> (a: Self)
        ensures
            a@ == e@,
    {
        [e.a, e.b, e.c]
    }
}

impl<T: Copy, B> EulerAngles<T, B> {
    /// Through the array form and back, the angles are what they were.
    pub proof fn lemma_array_round_trip(self)
        ensures
            Self::from_spec(<[T; 3]>::from_spec(self)) == self,
    {
    }

    /// From an array and back, every array is what it was.
    pub proof fn lemma_array_recovered(a: [T; 3])
        ensures
            <[T; 3]>::from_spec(Self::from_spec(a)) == a,
    {
        assert(<[T; 3]>::from_spec(Self::from_spec(a)) =~= a);
    }
}

impl<T, B> EulerAngles<T, B> {
    /// The view tells angles of one convention apart: two with the same view
    /// are equal.
    pub proof fn lemma_view_injective(self, other: Self)
        requires
            self@ == other@,
        ensures
            self == other,
    {
        assert(self@[0] == other@[0]);
        assert(self@[1] == other@[1]);
        assert(self@[2] == other@[2]);
    }
}

impl<T> vstd::std_specs::convert::FromSpecImpl<EulerAngles<T, IntraXYZ>>
    for EulerAngles<T, ExtraZYX>
{
    open spec fn obeys_from_spec() -> bool {
        true
    }

    open spec fn from_spec(e: EulerAngles<T, IntraXYZ>) -> Self {
        EulerAngles { a: e.c, b: e.b, c: e.a, marker: PhantomData }
    }
}

impl<T> From<EulerAngles<T, IntraXYZ>> for EulerAngles<T, ExtraZYX> {
    /// The angles as the mirrored convention writes them: the same
    /// three, in reverse order.
    fn from(e: EulerAngles<T, IntraXYZ>) -> (r: Self)
        ensures
            r@ == e@.reverse(),
            r.a == e.c && r.b == e.b && r.c == e.a,
    {
        let r = EulerAngles { a: e.c, b: e.b, c: e.a, marker: PhantomData };
        assert(r@ =~= e@.reverse());
        r
    }
}

impl<T> EulerAngles<T, IntraXYZ> {
    /// To the mirrored convention and back, the angles are what they were.
    pub proof fn lemma_mirror_round_trip(self)
        ensures
            Self::from_spec(EulerAngles::<T, ExtraZYX>::from_spec(self)) == self,
    {
    }
}

impl<T> vstd::std_specs::convert::FromSpecImpl<EulerAngles<T, ExtraZYX>>
    for EulerAngles<T, IntraXYZ>
{
    open spec fn obeys_from_spec() -> bool {
        true
    }

    open spec fn from_spec(e: EulerAngles<T, ExtraZYX>) -> Self {
        EulerAngles { a: e.c, b: e.b, c: e.a, marker: PhantomData }
    }
}

impl<T> From<EulerAngles<T, ExtraZYX>> for EulerAngles<T, IntraXYZ> {
    /// The angles as the mirrored convention writes them: the same
    /// three, in reverse order.
    fn from(e: EulerAngles<T, ExtraZYX>) -> (r: Self)
        ensures
            r@ == e@.reverse(),
            r.a == e.c && r.b == e.b && r.c == e.a,
    {
        let r = EulerAngles { a: e.c, b: e.b, c: e.a, marker: PhantomData };
        assert(r@ =~= e@.reverse());
        r
    }
}

impl<T> EulerAngles<T, ExtraZYX> {
    /// To the mirrored convention and back, the angles are what they were.
    pub proof fn lemma_mirror_round_trip(self)
        ensures
            Self::from_spec(EulerAngles::<T, IntraXYZ>::from_spec(self)) == self,
    {
    }
}

impl<T> vstd::std_specs::convert::FromSpecImpl<EulerAngles<T, IntraZXZ>>
    for EulerAngles<T, ExtraZXZ>
{
    open spec fn obeys_from_spec() -> bool {
        true
    }

    open spec fn from_spec(e: EulerAngles<T, IntraZXZ>) -> Self {
        EulerAngles { a: e.c, b: e.b, c: e.a, marker: PhantomData }
    }
}

impl<T> From<EulerAngles<T, IntraZXZ>> for EulerAngles<T, ExtraZXZ> {
    /// The angles as the mirrored convention writes them: the same
    /// three, in reverse order.
    fn from(e: EulerAngles<T, IntraZXZ>) -> (r: Self)
        ensures
            r@ == e@.reverse(),
            r.a == e.c && r.b == e.b && r.c == e.a,
    {
        let r = EulerAngles { a: e.c, b: e.b, c: e.a, marker: PhantomData };
        assert(r@ =~= e@.reverse());
        r
    }
}

impl<T> EulerAngles<T, IntraZXZ> {
    /// To the mirrored convention and back, the angles are what they were.
    pub proof fn lemma_mirror_round_trip(self)
        ensures
            Self::from_spec(EulerAngles::<T, ExtraZXZ>::from_spec(self)) == self,
    {
    }
}

impl<T> vstd::std_specs::convert::FromSpecImpl<EulerAngles<T, ExtraZXZ>>
    for EulerAngles<T, IntraZXZ>
{
    open spec fn obeys_from_spec() -> bool {
        true
    }

    open spec fn from_spec(e: EulerAngles<T, ExtraZXZ>) -> Self {
        EulerAngles { a: e.c, b: e.b, c: e.a, marker: PhantomData }
    }
}

impl<T> From<EulerAngles<T, ExtraZXZ>> for EulerAngles<T, IntraZXZ> {
    /// The angles as the mirrored convention writes them: the same
    /// three, in reverse order.
    fn from(e: EulerAngles<T, ExtraZXZ>) -> (r: Self)
        ensures
            r@ == e@.reverse(),
            r.a == e.c && r.b == e.b && r.c == e.a,
    {
        let r = EulerAngles { a: e.c, b: e.b, c: e.a, marker: PhantomData };
        assert(r@ =~= e@.reverse());
        r
    }
}

impl<T> EulerAngles<T, ExtraZXZ> {
    /// To the mirrored convention and back, the angles are what they were.
    pub proof fn lemma_mirror_round_trip(self)
        ensures
            Self::from_spec(EulerAngles::<T, IntraZXZ>::from_spec(self)) == self,
    {
    }
}

impl<T> vstd::std_specs::convert::FromSpecImpl<EulerAngles<T, IntraZYX>>
    for EulerAngles<T, ExtraXYZ>
{
    open spec fn obeys_from_spec() -> bool {
        true
    }

    open spec fn from_spec(e: EulerAngles<T, IntraZYX>) -> Self {
        EulerAngles { a: e.c, b: e.b, c: e.a, marker: PhantomData }
    }
}

impl<T> From<EulerAngles<T, IntraZYX>> for EulerAngles<T, ExtraXYZ> {
    /// The angles as the mirrored convention writes them: the same
    /// three, in reverse order.
    fn from(e: EulerAngles<T, IntraZYX>) -> (r: Self)
        ensures
            r@ == e@.reverse(),
            r.a == e.c && r.b == e.b && r.c == e.a,
    {
        let r = EulerAngles { a: e.c, b: e.b, c: e.a, marker: PhantomData };
        assert(r@ =~= e@.reverse());
        r
    }
}

impl<T> EulerAngles<T, IntraZYX> {
    /// To the mirrored convention and back, the angles are what they were.
    pub proof fn lemma_mirror_round_trip(self)
        ensures
            Self::from_spec(EulerAngles::<T, ExtraXYZ>::from_spec(self)) == self,
    {
    }
}

impl<T> vstd::std_specs::convert::FromSpecImpl<EulerAngles<T, ExtraXYZ>>
    for EulerAngles<T, IntraZYX>
{
    open spec fn obeys_from_spec() -> bool {
        true
    }

    open spec fn from_spec(e: EulerAngles<T, ExtraXYZ>) -> Self {
        EulerAngles { a: e.c, b: e.b, c: e.a, marker: PhantomData }
    }
}

impl<T> From<EulerAngles<T, ExtraXYZ>> for EulerAngles<T, IntraZYX> {
    /// The angles as the mirrored convention writes them: the same
    /// three, in reverse order.
    fn from(e: EulerAngles<T, ExtraXYZ>) -> (r: Self)
        ensures
            r@ == e@.reverse(),
            r.a == e.c && r.b == e.b && r.c == e.a,
    {
        let r = EulerAngles { a: e.c, b: e.b, c: e.a, marker: PhantomData };
        assert(r@ =~= e@.reverse());
        r
    }
}

impl<T> EulerAngles<T, ExtraXYZ> {
    /// To the mirrored convention and back, the angles are what they were.
    pub proof fn lemma_mirror_round_trip(self)
        ensures
            Self::from_spec(EulerAngles::<T, IntraZYX>::from_spec(self)) == self,
    {
    }
}

} // verus!
