//! Vectors and points of two to four components.
//!
//! Each type is a plain record of its components. Its model is the
//! sequence of the components in storage order, `x` first, which is also
//! the model of its array form.
use crate::into_mint::IntoMint;
use vstd::prelude::*;
use vstd::std_specs::convert::FromSpec;

verus! {

/// The name of a component of a vector or point.
#[derive(Clone, Copy, Debug, Hash, PartialEq, Eq)]
pub enum Axis {
    X,
    Y,
    Z,
    W,
}

impl Axis {
    /// The position of the component in storage order.
    pub open spec fn index(self) -> int {
        match self {
            Axis::X => 0,
            Axis::Y => 1,
            Axis::Z => 2,
            Axis::W => 3,
        }
    }

    /// The lower-case letter of the component.
    pub open spec fn letter(self) -> char {
        match self {
            Axis::X => 'x',
            Axis::Y => 'y',
            Axis::Z => 'z',
            Axis::W => 'w',
        }
    }
}

/// Why no vector or point could be read from a slice: the slice ended
/// before the component `missing`.
#[derive(Clone, Copy, Debug, Hash, PartialEq, Eq)]
pub struct SliceTooShort {
    pub missing: Axis,
}

impl SliceTooShort {
    /// The text of the message, which names the missing component by its
    /// letter.
    pub open spec fn message_text(self) -> Seq<char> {
        "Missing "@ + seq![self.missing.letter()] + "-axis in slice."@
    }

    /// The failure in words.
    pub fn message(&self) -> (s: String)
        ensures
            s@ == self.message_text(),
    {
        let letter = match self.missing {
            Axis::X => "x",
            Axis::Y => "y",
            Axis::Z => "z",
            Axis::W => "w",
        };
        proof {
            reveal_strlit("x");
            reveal_strlit("y");
            reveal_strlit("z");
            reveal_strlit("w");
            assert(letter@ =~= seq![self.missing.letter()]);
        }
        let mut s = String::from_str("Missing ");
        s.append(letter);
        s.append("-axis in slice.");
        s
    }
}

/// A displacement in the plane.
#[derive(Clone, Copy, Debug, Hash, PartialEq, PartialOrd, Eq, Ord)]
pub struct Vector2<T> {
    pub x: T,
    pub y: T,
}

impl<T> View for Vector2<T> {
    type V = Seq<T>;

    /// The components in storage order.
    open spec fn view(&self) -> Seq<T> {
        seq![self.x, self.y]
    }
}

impl<T> IntoMint for Vector2<T> {
    type MintType = Vector2<T>;
}

impl<T: Copy> vstd::std_specs::convert::FromSpecImpl<[T; 2]> for Vector2<T> {
    open spec fn obeys_from_spec() -> bool {
        true
    }

    open spec fn from_spec(a: [T; 2]) -> Self {
        Vector2 { x: a@[0], y: a@[1] }
    }
}

impl<T: Copy> From<[T; 2]> for Vector2<T> {
    /// Entry `i` of the array becomes component `i`.
    fn from(a: [T; 2]) -> (v: Self)
        ensures
            v@ == a@,
    {
        Vector2 { x: a[0], y: a[1] }
    }
}

impl<T> vstd::std_specs::convert::FromSpecImpl<Vector2<T>> for [T; 2] {
    open spec fn obeys_from_spec() -> bool {
        true
    }

    open spec fn from_spec(v: Vector2<T>) -> Self {
        [v.x, v.y]
    }
}

impl<T> From<Vector2<T>> for [T; 2] {
    /// Component `i` becomes entry `i` of the array.
    fn from(v: Vector2<T>) -> (a: Self)
        ensures
            a@ == v@,
    {
        [v.x, v.y]
    }
}

impl<T> vstd::std_specs::convert::FromSpecImpl<Point2<T>> for Vector2<T> {
    open spec fn obeys_from_spec() -> bool {
        true
    }

    open spec fn from_spec(p: Point2<T>) -> Self {
        Vector2 { x: p.x, y: p.y }
    }
}

impl<T> From<Point2<T>> for Vector2<T> {
    /// The vector with the components of the point `p`.
    fn from(p: Point2<T>) -> (v: Self)
        ensures
            v@ == p@,
    {
        Vector2 { x: p.x, y: p.y }
    }
}

impl<T: Copy> Vector2<T> {
    /// Takes the first 2 entries of `slice` as the components, whatever
    /// follows them. A shorter slice is refused, and the error names the
    /// first component for which no entry is left.
    pub fn from_slice(slice: &[T]) -> (r: Result<Self, SliceTooShort>)
        ensures
            match r {
                Ok(v) => slice@.len() >= 2 && v@ == slice@.take(2),
                Err(e) => slice@.len() < 2 && e.missing.index() == slice@.len(),
            },
    {
        let n: usize = slice.len();
        if n >= 2 {
            Ok(Vector2 { x: slice[0], y: slice[1] })
        } else if n == 0 {
            Err(SliceTooShort { missing: Axis::X })
        } else {
            Err(SliceTooShort { missing: Axis::Y })
        }
    }

    /// Through the array form and back, every value is what it was.
    pub proof fn lemma_array_round_trip(self)
        ensures
            Self::from_spec(<[T; 2]>::from_spec(self)) == self,
    {
    }

    /// From an array and back, every array is what it was.
    pub proof fn lemma_array_recovered(a: [T; 2])
        ensures
            <[T; 2]>::from_spec(Self::from_spec(a)) == a,
    {
        assert(<[T; 2]>::from_spec(Self::from_spec(a)) =~= a);
    }
}

impl<T> Vector2<T> {
    /// The view tells values apart: two with the same view are equal.
    pub proof fn lemma_view_injective(self, other: Self)
        requires
            self@ == other@,
        ensures
            self == other,
    {
        assert(self@[0] == other@[0]);
        assert(self@[1] == other@[1]);
    }

    /// To a point and back, every vector is what it was.
    pub proof fn lemma_point_round_trip(self)
        ensures
            Self::from_spec(Point2::<T>::from_spec(self)) == self,
    {
    }
}

/// A displacement in space.
#[derive(Clone, Copy, Debug, Hash, PartialEq, PartialOrd, Eq, Ord)]
pub struct Vector3<T> {
    pub x: T,
    pub y: T,
    pub z: T,
}

impl<T> View for Vector3<T> {
    type V = Seq<T>;

    /// The components in storage order.
    open spec fn view(&self) -> Seq<T> {
        seq![self.x, self.y, self.z]
    }
}

impl<T> IntoMint for Vector3<T> {
    type MintType = Vector3<T>;
}

impl<T: Copy> vstd::std_specs::convert::FromSpecImpl<[T; 3]> for Vector3<T> {
    open spec fn obeys_from_spec() -> bool {
        true
    }

    open spec fn from_spec(a: [T; 3]) -> Self {
        Vector3 { x: a@[0], y: a@[1], z: a@[2] }
    }
}

impl<T: Copy> From<[T; 3]> for Vector3<T> {
    /// Entry `i` of the array becomes component `i`.
    fn from(a: [T; 3]) -> (v: Self)
        ensures
            v@ == a@,
    {
        Vector3 { x: a[0], y: a[1], z: a[2] }
    }
}

impl<T> vstd::std_specs::convert::FromSpecImpl<Vector3<T>> for [T; 3] {
    open spec fn obeys_from_spec() -> bool {
        true
    }

    open spec fn from_spec(v: Vector3<T>) -> Self {
        [v.x, v.y, v.z]
    }
}

impl<T> From<Vector3<T>> for [T; 3] {
    /// Component `i` becomes entry `i` of the array.
    fn from(v: Vector3<T>) -> (a: Self)
        ensures
            a@ == v@,
    {
        [v.x, v.y, v.z]
    }
}

impl<T> vstd::std_specs::convert::FromSpecImpl<Point3<T>> for Vector3<T> {
    open spec fn obeys_from_spec() -> bool {
        true
    }

    open spec fn from_spec(p: Point3<T>) -> Self {
        Vector3 { x: p.x, y: p.y, z: p.z }
    }
}

impl<T> From<Point3<T>> for Vector3<T> {
    /// The vector with the components of the point `p`.
    fn from(p: Point3<T>) -> (v: Self)
        ensures
            v@ == p@,
    {
        Vector3 { x: p.x, y: p.y, z: p.z }
    }
}

impl<T: Copy> Vector3<T> {
    /// Takes the first 3 entries of `slice` as the components, whatever
    /// follows them. A shorter slice is refused, and the error names the
    /// first component for which no entry is left.
    pub fn from_slice(slice: &[T]) -> (r: Result<Self, SliceTooShort>)
        ensures
            match r {
                Ok(v) => slice@.len() >= 3 && v@ == slice@.take(3),
                Err(e) => slice@.len() < 3 && e.missing.index() == slice@.len(),
            },
    {
        let n: usize = slice.len();
        if n >= 3 {
            Ok(Vector3 { x: slice[0], y: slice[1], z: slice[2] })
        } else if n == 0 {
            Err(SliceTooShort { missing: Axis::X })
        } else if n == 1 {
            Err(SliceTooShort { missing: Axis::Y })
        } else {
            Err(SliceTooShort { missing: Axis::Z })
        }
    }

    /// Through the array form and back, every value is what it was.
    pub proof fn lemma_array_round_trip(self)
        ensures
            Self::from_spec(<[T; 3]>::from_spec(self)) == self,
    {
    }

    /// From an array and back, every array is what it was.
    pub proof fn lemma_array_recovered(a: [T; 3])
        ensures
            <[T; 3]>::from_spec(Self::from_spec(a)) == a,
    {
        assert(<[T; 3]>::from_spec(Self::from_spec(a)) =~= a);
    }
}

impl<T> Vector3<T> {
    /// The view tells values apart: two with the same view are equal.
    pub proof fn lemma_view_injective(self, other: Self)
        requires
            self@ == other@,
        ensures
            self == other,
    {
        assert(self@[0] == other@[0]);
        assert(self@[1] == other@[1]);
        assert(self@[2] == other@[2]);
    }

    /// To a point and back, every vector is what it was.
    pub proof fn lemma_point_round_trip(self)
        ensures
            Self::from_spec(Point3::<T>::from_spec(self)) == self,
    {
    }
}

/// A vector of four components.
#[derive(Clone, Copy, Debug, Hash, PartialEq, PartialOrd, Eq, Ord)]
pub struct Vector4<T> {
    pub x: T,
    pub y: T,
    pub z: T,
    pub w: T,
}

impl<T> View for Vector4<T> {
    type V = Seq<T>;

    /// The components in storage order.
    open spec fn view(&self) -> Seq<T> {
        seq![self.x, self.y, self.z, self.w]
    }
}

impl<T> IntoMint for Vector4<T> {
    type MintType = Vector4<T>;
}

impl<T: Copy> vstd::std_specs::convert::FromSpecImpl<[T; 4]> for Vector4<T> {
    open spec fn obeys_from_spec() -> bool {
        true
    }

    open spec fn from_spec(a: [T; 4]) -> Self {
        Vector4 { x: a@[0], y: a@[1], z: a@[2], w: a@[3] }
    }
}

impl<T: Copy> From<[T; 4]> for Vector4<T> {
    /// Entry `i` of the array becomes component `i`.
    fn from(a: [T; 4]) -> (v: Self)
        ensures
            v@ == a@,
    {
        Vector4 { x: a[0], y: a[1], z: a[2], w: a[3] }
    }
}

impl<T> vstd::std_specs::convert::FromSpecImpl<Vector4<T>> for [T; 4] {
    open spec fn obeys_from_spec() -> bool {
        true
    }

    open spec fn from_spec(v: Vector4<T>) -> Self {
        [v.x, v.y, v.z, v.w]
    }
}

impl<T> From<Vector4<T>> for [T; 4] {
    /// Component `i` becomes entry `i` of the array.
    fn from(v: Vector4<T>) -> (a: Self)
        ensures
            a@ == v@,
    {
        [v.x, v.y, v.z, v.w]
    }
}

impl<T: Copy> Vector4<T> {
    /// Takes the first 4 entries of `slice` as the components, whatever
    /// follows them. A shorter slice is refused, and the error names the
    /// first component for which no entry is left.
    pub fn from_slice(slice: &[T]) -> (r: Result<Self, SliceTooShort>)
        ensures
            match r {
                Ok(v) => slice@.len() >= 4 && v@ == slice@.take(4),
                Err(e) => slice@.len() < 4 && e.missing.index() == slice@.len(),
            },
    {
        let n: usize = slice.len();
        if n >= 4 {
            Ok(Vector4 { x: slice[0], y: slice[1], z: slice[2], w: slice[3] })
        } else if n == 0 {
            Err(SliceTooShort { missing: Axis::X })
        } else if n == 1 {
            Err(SliceTooShort { missing: Axis::Y })
        } else if n == 2 {
            Err(SliceTooShort { missing: Axis::Z })
        } else {
            Err(SliceTooShort { missing: Axis::W })
        }
    }

    /// Through the array form and back, every value is what it was.
    pub proof fn lemma_array_round_trip(self)
        ensures
            Self::from_spec(<[T; 4]>::from_spec(self)) == self,
    {
    }

    /// From an array and back, every array is what it was.
    pub proof fn lemma_array_recovered(a: [T; 4])
        ensures
            <[T; 4]>::from_spec(Self::from_spec(a)) == a,
    {
        assert(<[T; 4]>::from_spec(Self::from_spec(a)) =~= a);
    }
}

impl<T> Vector4<T> {
    /// The view tells values apart: two with the same view are equal.
    pub proof fn lemma_view_injective(self, other: Self)
        requires
            self@ == other@,
        ensures
            self == other,
    {
        assert(self@[0] == other@[0]);
        assert(self@[1] == other@[1]);
        assert(self@[2] == other@[2]);
        assert(self@[3] == other@[3]);
    }
}

/// A position in the plane. It has the components of [`Vector2`] and is
/// a type of its own, so that positions and displacements are not mixed up
/// unnoticed.
#[derive(Clone, Copy, Debug, Hash, PartialEq, PartialOrd, Eq, Ord)]
pub struct Point2<T> {
    pub x: T,
    pub y: T,
}

impl<T> View for Point2<T> {
    type V = Seq<T>;

    /// The components in storage order.
    open spec fn view(&self) -> Seq<T> {
        seq![self.x, self.y]
    }
}

impl<T> IntoMint for Point2<T> {
    type MintType = Point2<T>;
}

impl<T: Copy> vstd::std_specs::convert::FromSpecImpl<[T; 2]> for Point2<T> {
    open spec fn obeys_from_spec() -> bool {
        true
    }

    open spec fn from_spec(a: [T; 2]) -> Self {
        Point2 { x: a@[0], y: a@[1] }
    }
}

impl<T: Copy> From<[T; 2]> for Point2<T> {
    /// Entry `i` of the array becomes component `i`.
    fn from(a: [T; 2]) -> (v: Self)
        ensures
            v@ == a@,
    {
        Point2 { x: a[0], y: a[1] }
    }
}

impl<T> vstd::std_specs::convert::FromSpecImpl<Point2<T>> for [T; 2] {
    open spec fn obeys_from_spec() -> bool {
        true
    }

    open spec fn from_spec(v: Point2<T>) -> Self {
        [v.x, v.y]
    }
}

impl<T> From<Point2<T>> for [T; 2] {
    /// Component `i` becomes entry `i` of the array.
    fn from(v: Point2<T>) -> (a: Self)
        ensures
            a@ == v@,
    {
        [v.x, v.y]
    }
}

impl<T> vstd::std_specs::convert::FromSpecImpl<Vector2<T>> for Point2<T> {
    open spec fn obeys_from_spec() -> bool {
        true
    }

    open spec fn from_spec(p: Vector2<T>) -> Self {
        Point2 { x: p.x, y: p.y }
    }
}

impl<T> From<Vector2<T>> for Point2<T> {
    /// The point with the components of the vector `p`.
    fn from(p: Vector2<T>) -> (v: Self)
        ensures
            v@ == p@,
    {
        Point2 { x: p.x, y: p.y }
    }
}

impl<T: Copy> Point2<T> {
    /// Takes the first 2 entries of `slice` as the components, whatever
    /// follows them. A shorter slice is refused, and the error names the
    /// first component for which no entry is left.
    pub fn from_slice(slice: &[T]) -> (r: Result<Self, SliceTooShort>)
        ensures
            match r {
                Ok(v) => slice@.len() >= 2 && v@ == slice@.take(2),
                Err(e) => slice@.len() < 2 && e.missing.index() == slice@.len(),
            },
    {
        let n: usize = slice.len();
        if n >= 2 {
            Ok(Point2 { x: slice[0], y: slice[1] })
        } else if n == 0 {
            Err(SliceTooShort { missing: Axis::X })
        } else {
            Err(SliceTooShort { missing: Axis::Y })
        }
    }

    /// Through the array form and back, every value is what it was.
    pub proof fn lemma_array_round_trip(self)
        ensures
            Self::from_spec(<[T; 2]>::from_spec(self)) == self,
    {
    }

    /// From an array and back, every array is what it was.
    pub proof fn lemma_array_recovered(a: [T; 2])
        ensures
            <[T; 2]>::from_spec(Self::from_spec(a)) == a,
    {
        assert(<[T; 2]>::from_spec(Self::from_spec(a)) =~= a);
    }
}

impl<T> Point2<T> {
    /// The view tells values apart: two with the same view are equal.
    pub proof fn lemma_view_injective(self, other: Self)
        requires
            self@ == other@,
        ensures
            self == other,
    {
        assert(self@[0] == other@[0]);
        assert(self@[1] == other@[1]);
    }

    /// To a vector and back, every point is what it was.
    pub proof fn lemma_vector_round_trip(self)
        ensures
            Self::from_spec(Vector2::<T>::from_spec(self)) == self,
    {
    }
}

/// A position in space. It has the components of [`Vector3`] and is a
/// type of its own.
#[derive(Clone, Copy, Debug, Hash, PartialEq, PartialOrd, Eq, Ord)]
pub struct Point3<T> {
    pub x: T,
    pub y: T,
    pub z: T,
}

impl<T> View for Point3<T> {
    type V = Seq<T>;

    /// The components in storage order.
    open spec fn view(&self) -> Seq<T> {
        seq![self.x, self.y, self.z]
    }
}

impl<T> IntoMint for Point3<T> {
    type MintType = Point3<T>;
}

impl<T: Copy> vstd::std_specs::convert::FromSpecImpl<[T; 3]> for Point3<T> {
    open spec fn obeys_from_spec() -> bool {
        true
    }

    open spec fn from_spec(a: [T; 3]) -> Self {
        Point3 { x: a@[0], y: a@[1], z: a@[2] }
    }
}

impl<T: Copy> From<[T; 3]> for Point3<T> {
    /// Entry `i` of the array becomes component `i`.
    fn from(a: [T; 3]) -> (v: Self)
        ensures
            v@ == a@,
    {
        Point3 { x: a[0], y: a[1], z: a[2] }
    }
}

impl<T> vstd::std_specs::convert::FromSpecImpl<Point3<T>> for [T; 3] {
    open spec fn obeys_from_spec() -> bool {
        true
    }

    open spec fn from_spec(v: Point3<T>) -> Self {
        [v.x, v.y, v.z]
    }
}

impl<T> From<Point3<T>> for [T; 3] {
    /// Component `i` becomes entry `i` of the array.
    fn from(v: Point3<T>) -> (a: Self)
        ensures
            a@ == v@,
    {
        [v.x, v.y, v.z]
    }
}

impl<T> vstd::std_specs::convert::FromSpecImpl<Vector3<T>> for Point3<T> {
    open spec fn obeys_from_spec() -> bool {
        true
    }

    open spec fn from_spec(p: Vector3<T>) -> Self {
        Point3 { x: p.x, y: p.y, z: p.z }
    }
}

impl<T> From<Vector3<T>> for Point3<T> {
    /// The point with the components of the vector `p`.
    fn from(p: Vector3<T>) -> (v: Self)
        ensures
            v@ == p@,
    {
        Point3 { x: p.x, y: p.y, z: p.z }
    }
}

impl<T: Copy> Point3<T> {
    /// Takes the first 3 entries of `slice` as the components, whatever
    /// follows them. A shorter slice is refused, and the error names the
    /// first component for which no entry is left.
    pub fn from_slice(slice: &[T]) -> (r: Result<Self, SliceTooShort>)
        ensures
            match r {
                Ok(v) => slice@.len() >= 3 && v@ == slice@.take(3),
                Err(e) => slice@.len() < 3 && e.missing.index() == slice@.len(),
            },
    {
        let n: usize = slice.len();
        if n >= 3 {
            Ok(Point3 { x: slice[0], y: slice[1], z: slice[2] })
        } else if n == 0 {
            Err(SliceTooShort { missing: Axis::X })
        } else if n == 1 {
            Err(SliceTooShort { missing: Axis::Y })
        } else {
            Err(SliceTooShort { missing: Axis::Z })
        }
    }

    /// Through the array form and back, every value is what it was.
    pub proof fn lemma_array_round_trip(self)
        ensures
            Self::from_spec(<[T; 3]>::from_spec(self)) == self,
    {
    }

    /// From an array and back, every array is what it was.
    pub proof fn lemma_array_recovered(a: [T; 3])
        ensures
            <[T; 3]>::from_spec(Self::from_spec(a)) == a,
    {
        assert(<[T; 3]>::from_spec(Self::from_spec(a)) =~= a);
    }
}

impl<T> Point3<T> {
    /// The view tells values apart: two with the same view are equal.
    pub proof fn lemma_view_injective(self, other: Self)
        requires
            self@ == other@,
        ensures
            self == other,
    {
        assert(self@[0] == other@[0]);
        assert(self@[1] == other@[1]);
        assert(self@[2] == other@[2]);
    }

    /// To a vector and back, every point is what it was.
    pub proof fn lemma_vector_round_trip(self)
        ensures
            Self::from_spec(Vector3::<T>::from_spec(self)) == self,
    {
    }
}

} // verus!
