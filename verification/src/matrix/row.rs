//! Matrices stored row by row.
//!
//! Each field is one row of the matrix, held as a vector. The model of
//! a matrix is the sequence of its rows, each as the sequence of its
//! entries.
use crate::into_mint::IntoMint;
use crate::layout::{flat, grid, is_grid, lemma_flat_of_lines, lines, transpose};
use crate::matrix::column::{
    ColumnMatrix2, ColumnMatrix2x3, ColumnMatrix2x4, ColumnMatrix3, ColumnMatrix3x2,
    ColumnMatrix3x4, ColumnMatrix4, ColumnMatrix4x2, ColumnMatrix4x3,
};
use crate::vector::{Vector2, Vector3, Vector4};
use vstd::prelude::*;
use vstd::std_specs::convert::FromSpec;

verus! {

/// A matrix of 2 rows and 2 columns, stored row by row: `x` and `y` are the
/// first and second row.
#[derive(Clone, Copy, Debug, Hash, PartialEq, PartialOrd, Eq, Ord)]
pub struct RowMatrix2<T> {
    pub x: Vector2<T>,
    pub y: Vector2<T>,
}

impl<T> View for RowMatrix2<T> {
    type V = Seq<Seq<T>>;

    /// The rows in storage order, each as the sequence of its entries.
    open spec fn view(&self) -> Seq<Seq<T>> {
        seq![self.x@, self.y@]
    }
}

impl<T> IntoMint for RowMatrix2<T> {
    type MintType = RowMatrix2<T>;
}

impl<T: Copy> vstd::std_specs::convert::FromSpecImpl<[[T; 2]; 2]> for RowMatrix2<T> {
    open spec fn obeys_from_spec() -> bool {
        true
    }

    open spec fn from_spec(a: [[T; 2]; 2]) -> Self {
        RowMatrix2 {
            x: Vector2 { x: a@[0]@[0], y: a@[0]@[1] },
            y: Vector2 { x: a@[1]@[0], y: a@[1]@[1] },
        }
    }
}

impl<T: Copy> From<[[T; 2]; 2]> for RowMatrix2<T> {
    /// Inner array `i` becomes row `i`.
    fn from(a: [[T; 2]; 2]) -> (m: Self)
        ensures
            m@ == grid(a),
    {
        let m = RowMatrix2 {
            x: Vector2::from(a[0]),
            y: Vector2::from(a[1]),
        };
        assert(m@ =~~= grid(a));
        m
    }
}

impl<T> vstd::std_specs::convert::FromSpecImpl<RowMatrix2<T>> for [[T; 2]; 2] {
    open spec fn obeys_from_spec() -> bool {
        true
    }

    open spec fn from_spec(m: RowMatrix2<T>) -> Self {
        [[m.x.x, m.x.y], [m.y.x, m.y.y]]
    }
}

impl<T> From<RowMatrix2<T>> for [[T; 2]; 2] {
    /// Row `i` becomes inner array `i`.
    fn from(m: RowMatrix2<T>) -> (a: Self)
        ensures
            grid(a) == m@,
    {
        let a = [<[T; 2]>::from(m.x), <[T; 2]>::from(m.y)];
        assert(grid(a) =~~= m@);
        a
    }
}

impl<T: Copy> vstd::std_specs::convert::FromSpecImpl<[T; 4]> for RowMatrix2<T> {
    open spec fn obeys_from_spec() -> bool {
        true
    }

    open spec fn from_spec(a: [T; 4]) -> Self {
        RowMatrix2 {
            x: Vector2 { x: a@[0], y: a@[1] },
            y: Vector2 { x: a@[2], y: a@[3] },
        }
    }
}

impl<T: Copy> From<[T; 4]> for RowMatrix2<T> {
    /// The array is cut into rows: its first 2 entries are the
    /// first row, the next 2 the second, and so on.
    fn from(a: [T; 4]) -> (m: Self)
        ensures
            m@ == lines(a@, 2),
            flat(m@) == a@,
    {
        let m = RowMatrix2 {
            x: Vector2 { x: a[0], y: a[1] },
            y: Vector2 { x: a[2], y: a[3] },
        };
        proof {
            assert(m@ =~~= lines(a@, 2));
            lemma_flat_of_lines(a@, 2);
        }
        m
    }
}

impl<T> vstd::std_specs::convert::FromSpecImpl<RowMatrix2<T>> for [T; 4] {
    open spec fn obeys_from_spec() -> bool {
        true
    }

    open spec fn from_spec(m: RowMatrix2<T>) -> Self {
        [m.x.x, m.x.y, m.y.x, m.y.y]
    }
}

impl<T> From<RowMatrix2<T>> for [T; 4] {
    /// The rows one after another, the first row first.
    fn from(m: RowMatrix2<T>) -> (a: Self)
        ensures
            a@ == flat(m@),
            lines(a@, 2) == m@,
    {
        let a = [m.x.x, m.x.y, m.y.x, m.y.y];
        proof {
            assert(lines(a@, 2) =~~= m@);
            lemma_flat_of_lines(a@, 2);
        }
        a
    }
}

impl<T> vstd::std_specs::convert::FromSpecImpl<ColumnMatrix2<T>> for RowMatrix2<T> {
    open spec fn obeys_from_spec() -> bool {
        true
    }

    open spec fn from_spec(m: ColumnMatrix2<T>) -> Self {
        RowMatrix2 {
            x: Vector2 { x: m.x.x, y: m.y.x },
            y: Vector2 { x: m.x.y, y: m.y.y },
        }
    }
}

impl<T> From<ColumnMatrix2<T>> for RowMatrix2<T> {
    /// The same matrix stored by rows: the entry in row `i` and
    /// column `j` stays in row `i` and column `j`.
    fn from(m: ColumnMatrix2<T>) -> (t: Self)
        ensures
            t@ == transpose(m@),
    {
        let t = RowMatrix2 {
            x: Vector2 { x: m.x.x, y: m.y.x },
            y: Vector2 { x: m.x.y, y: m.y.y },
        };
        assert(t@ =~~= transpose(m@));
        t
    }
}

impl<T: Copy> RowMatrix2<T> {
    /// Through the nested array form and back, every matrix is what it
    /// was.
    pub proof fn lemma_nested_round_trip(self)
        ensures
            Self::from_spec(<[[T; 2]; 2]>::from_spec(self)) == self,
    {
    }

    /// From a nested array and back, every array is what it was.
    pub proof fn lemma_nested_recovered(a: [[T; 2]; 2])
        ensures
            <[[T; 2]; 2]>::from_spec(Self::from_spec(a)) == a,
    {
        let b = <[[T; 2]; 2]>::from_spec(Self::from_spec(a));
        assert(b@[0] =~= a@[0]);
        assert(b@[1] =~= a@[1]);
        assert(b =~= a);
    }

    /// Through the flat array form and back, every matrix is what it was.
    pub proof fn lemma_flat_round_trip(self)
        ensures
            Self::from_spec(<[T; 4]>::from_spec(self)) == self,
    {
    }

    /// From a flat array and back, every array is what it was.
    pub proof fn lemma_flat_recovered(a: [T; 4])
        ensures
            <[T; 4]>::from_spec(Self::from_spec(a)) == a,
    {
        assert(<[T; 4]>::from_spec(Self::from_spec(a)) =~= a);
    }
}

impl<T> RowMatrix2<T> {
    /// The view has 2 lines of 2 entries.
    pub proof fn lemma_view_is_grid(self)
        ensures
            is_grid(self@, 2, 2),
    {
    }

    /// The view tells matrices apart: two with the same view are equal.
    pub proof fn lemma_view_injective(self, other: Self)
        requires
            self@ == other@,
        ensures
            self == other,
    {
        self.x.lemma_view_injective(other.x);
        assert(self@[0] == other@[0]);
        self.y.lemma_view_injective(other.y);
        assert(self@[1] == other@[1]);
    }

    /// The two array forms of a matrix hold the same entries, and each can
    /// be had from the other: the flat form is the nested form laid out
    /// flat, and the nested form is the flat form cut into lines.
    pub proof fn lemma_array_forms_agree(self)
        ensures
            <[T; 4]>::from_spec(self)@ == flat(grid(<[[T; 2]; 2]>::from_spec(self))),
            grid(<[[T; 2]; 2]>::from_spec(self)) == lines(<[T; 4]>::from_spec(self)@, 2),
    {
        let nested = <[[T; 2]; 2]>::from_spec(self);
        let flat_form = <[T; 4]>::from_spec(self);
        assert(grid(nested) =~~= self@);
        assert(lines(flat_form@, 2) =~~= self@);
        lemma_flat_of_lines(flat_form@, 2);
    }

    /// Stored by columns and then by rows again, every matrix is what
    /// it was.
    pub proof fn lemma_turn_round_trip(self)
        ensures
            Self::from_spec(ColumnMatrix2::<T>::from_spec(self)) == self,
    {
    }
}

/// A matrix of 2 rows and 3 columns, stored row by row: `x` and `y` are the
/// first and second row.
#[derive(Clone, Copy, Debug, Hash, PartialEq, PartialOrd, Eq, Ord)]
pub struct RowMatrix2x3<T> {
    pub x: Vector3<T>,
    pub y: Vector3<T>,
}

impl<T> View for RowMatrix2x3<T> {
    type V = Seq<Seq<T>>;

    /// The rows in storage order, each as the sequence of its entries.
    open spec fn view(&self) -> Seq<Seq<T>> {
        seq![self.x@, self.y@]
    }
}

impl<T> IntoMint for RowMatrix2x3<T> {
    type MintType = RowMatrix2x3<T>;
}

impl<T: Copy> vstd::std_specs::convert::FromSpecImpl<[[T; 3]; 2]> for RowMatrix2x3<T> {
    open spec fn obeys_from_spec() -> bool {
        true
    }

    open spec fn from_spec(a: [[T; 3]; 2]) -> Self {
        RowMatrix2x3 {
            x: Vector3 { x: a@[0]@[0], y: a@[0]@[1], z: a@[0]@[2] },
            y: Vector3 { x: a@[1]@[0], y: a@[1]@[1], z: a@[1]@[2] },
        }
    }
}

impl<T: Copy> From<[[T; 3]; 2]> for RowMatrix2x3<T> {
    /// Inner array `i` becomes row `i`.
    fn from(a: [[T; 3]; 2]) -> (m: Self)
        ensures
            m@ == grid(a),
    {
        let m = RowMatrix2x3 {
            x: Vector3::from(a[0]),
            y: Vector3::from(a[1]),
        };
        assert(m@ =~~= grid(a));
        m
    }
}

impl<T> vstd::std_specs::convert::FromSpecImpl<RowMatrix2x3<T>> for [[T; 3]; 2] {
    open spec fn obeys_from_spec() -> bool {
        true
    }

    open spec fn from_spec(m: RowMatrix2x3<T>) -> Self {
        [[m.x.x, m.x.y, m.x.z], [m.y.x, m.y.y, m.y.z]]
    }
}

impl<T> From<RowMatrix2x3<T>> for [[T; 3]; 2] {
    /// Row `i` becomes inner array `i`.
    fn from(m: RowMatrix2x3<T>) -> (a: Self)
        ensures
            grid(a) == m@,
    {
        let a = [<[T; 3]>::from(m.x), <[T; 3]>::from(m.y)];
        assert(grid(a) =~~= m@);
        a
    }
}

impl<T: Copy> vstd::std_specs::convert::FromSpecImpl<[T; 6]> for RowMatrix2x3<T> {
    open spec fn obeys_from_spec() -> bool {
        true
    }

    open spec fn from_spec(a: [T; 6]) -> Self {
        RowMatrix2x3 {
            x: Vector3 { x: a@[0], y: a@[1], z: a@[2] },
            y: Vector3 { x: a@[3], y: a@[4], z: a@[5] },
        }
    }
}

impl<T: Copy> From<[T; 6]> for RowMatrix2x3<T> {
    /// The array is cut into rows: its first 3 entries are the
    /// first row, the next 3 the second, and so on.
    fn from(a: [T; 6]) -> (m: Self)
        ensures
            m@ == lines(a@, 3),
            flat(m@) == a@,
    {
        let m = RowMatrix2x3 {
            x: Vector3 { x: a[0], y: a[1], z: a[2] },
            y: Vector3 { x: a[3], y: a[4], z: a[5] },
        };
        proof {
            assert(m@ =~~= lines(a@, 3));
            lemma_flat_of_lines(a@, 3);
        }
        m
    }
}

impl<T> vstd::std_specs::convert::FromSpecImpl<RowMatrix2x3<T>> for [T; 6] {
    open spec fn obeys_from_spec() -> bool {
        true
    }

    open spec fn from_spec(m: RowMatrix2x3<T>) -> Self {
        [m.x.x, m.x.y, m.x.z, m.y.x, m.y.y, m.y.z]
    }
}

impl<T> From<RowMatrix2x3<T>> for [T; 6] {
    /// The rows one after another, the first row first.
    fn from(m: RowMatrix2x3<T>) -> (a: Self)
        ensures
            a@ == flat(m@),
            lines(a@, 3) == m@,
    {
        let a = [m.x.x, m.x.y, m.x.z, m.y.x, m.y.y, m.y.z];
        proof {
            assert(lines(a@, 3) =~~= m@);
            lemma_flat_of_lines(a@, 3);
        }
        a
    }
}

impl<T> vstd::std_specs::convert::FromSpecImpl<ColumnMatrix2x3<T>> for RowMatrix2x3<T> {
    open spec fn obeys_from_spec() -> bool {
        true
    }

    open spec fn from_spec(m: ColumnMatrix2x3<T>) -> Self {
        RowMatrix2x3 {
            x: Vector3 { x: m.x.x, y: m.y.x, z: m.z.x },
            y: Vector3 { x: m.x.y, y: m.y.y, z: m.z.y },
        }
    }
}

impl<T> From<ColumnMatrix2x3<T>> for RowMatrix2x3<T> {
    /// The same matrix stored by rows: the entry in row `i` and
    /// column `j` stays in row `i` and column `j`.
    fn from(m: ColumnMatrix2x3<T>) -> (t: Self)
        ensures
            t@ == transpose(m@),
    {
        let t = RowMatrix2x3 {
            x: Vector3 { x: m.x.x, y: m.y.x, z: m.z.x },
            y: Vector3 { x: m.x.y, y: m.y.y, z: m.z.y },
        };
        assert(t@ =~~= transpose(m@));
        t
    }
}

impl<T: Copy> RowMatrix2x3<T> {
    /// Through the nested array form and back, every matrix is what it
    /// was.
    pub proof fn lemma_nested_round_trip(self)
        ensures
            Self::from_spec(<[[T; 3]; 2]>::from_spec(self)) == self,
    {
    }

    /// From a nested array and back, every array is what it was.
    pub proof fn lemma_nested_recovered(a: [[T; 3]; 2])
        ensures
            <[[T; 3]; 2]>::from_spec(Self::from_spec(a)) == a,
    {
        let b = <[[T; 3]; 2]>::from_spec(Self::from_spec(a));
        assert(b@[0] =~= a@[0]);
        assert(b@[1] =~= a@[1]);
        assert(b =~= a);
    }

    /// Through the flat array form and back, every matrix is what it was.
    pub proof fn lemma_flat_round_trip(self)
        ensures
            Self::from_spec(<[T; 6]>::from_spec(self)) == self,
    {
    }

    /// From a flat array and back, every array is what it was.
    pub proof fn lemma_flat_recovered(a: [T; 6])
        ensures
            <[T; 6]>::from_spec(Self::from_spec(a)) == a,
    {
        assert(<[T; 6]>::from_spec(Self::from_spec(a)) =~= a);
    }
}

impl<T> RowMatrix2x3<T> {
    /// The view has 2 lines of 3 entries.
    pub proof fn lemma_view_is_grid(self)
        ensures
            is_grid(self@, 2, 3),
    {
    }

    /// The view tells matrices apart: two with the same view are equal.
    pub proof fn lemma_view_injective(self, other: Self)
        requires
            self@ == other@,
        ensures
            self == other,
    {
        self.x.lemma_view_injective(other.x);
        assert(self@[0] == other@[0]);
        self.y.lemma_view_injective(other.y);
        assert(self@[1] == other@[1]);
    }

    /// The two array forms of a matrix hold the same entries, and each can
    /// be had from the other: the flat form is the nested form laid out
    /// flat, and the nested form is the flat form cut into lines.
    pub proof fn lemma_array_forms_agree(self)
        ensures
            <[T; 6]>::from_spec(self)@ == flat(grid(<[[T; 3]; 2]>::from_spec(self))),
            grid(<[[T; 3]; 2]>::from_spec(self)) == lines(<[T; 6]>::from_spec(self)@, 3),
    {
        let nested = <[[T; 3]; 2]>::from_spec(self);
        let flat_form = <[T; 6]>::from_spec(self);
        assert(grid(nested) =~~= self@);
        assert(lines(flat_form@, 3) =~~= self@);
        lemma_flat_of_lines(flat_form@, 3);
    }

    /// Stored by columns and then by rows again, every matrix is what
    /// it was.
    pub proof fn lemma_turn_round_trip(self)
        ensures
            Self::from_spec(ColumnMatrix2x3::<T>::from_spec(self)) == self,
    {
    }
}

/// A matrix of 2 rows and 4 columns, stored row by row: `x` and `y` are the
/// first and second row.
#[derive(Clone, Copy, Debug, Hash, PartialEq, PartialOrd, Eq, Ord)]
pub struct RowMatrix2x4<T> {
    pub x: Vector4<T>,
    pub y: Vector4<T>,
}

impl<T> View for RowMatrix2x4<T> {
    type V = Seq<Seq<T>>;

    /// The rows in storage order, each as the sequence of its entries.
    open spec fn view(&self) -> Seq<Seq<T>> {
        seq![self.x@, self.y@]
    }
}

impl<T> IntoMint for RowMatrix2x4<T> {
    type MintType = RowMatrix2x4<T>;
}

impl<T: Copy> vstd::std_specs::convert::FromSpecImpl<[[T; 4]; 2]> for RowMatrix2x4<T> {
    open spec fn obeys_from_spec() -> bool {
        true
    }

    open spec fn from_spec(a: [[T; 4]; 2]) -> Self {
        RowMatrix2x4 {
            x: Vector4 { x: a@[0]@[0], y: a@[0]@[1], z: a@[0]@[2], w: a@[0]@[3] },
            y: Vector4 { x: a@[1]@[0], y: a@[1]@[1], z: a@[1]@[2], w: a@[1]@[3] },
        }
    }
}

impl<T: Copy> From<[[T; 4]; 2]> for RowMatrix2x4<T> {
    /// Inner array `i` becomes row `i`.
    fn from(a: [[T; 4]; 2]) -> (m: Self)
        ensures
            m@ == grid(a),
    {
        let m = RowMatrix2x4 {
            x: Vector4::from(a[0]),
            y: Vector4::from(a[1]),
        };
        assert(m@ =~~= grid(a));
        m
    }
}

impl<T> vstd::std_specs::convert::FromSpecImpl<RowMatrix2x4<T>> for [[T; 4]; 2] {
    open spec fn obeys_from_spec() -> bool {
        true
    }

    open spec fn from_spec(m: RowMatrix2x4<T>) -> Self {
        [[m.x.x, m.x.y, m.x.z, m.x.w], [m.y.x, m.y.y, m.y.z, m.y.w]]
    }
}

impl<T> From<RowMatrix2x4<T>> for [[T; 4]; 2] {
    /// Row `i` becomes inner array `i`.
    fn from(m: RowMatrix2x4<T>) -> (a: Self)
        ensures
            grid(a) == m@,
    {
        let a = [<[T; 4]>::from(m.x), <[T; 4]>::from(m.y)];
        assert(grid(a) =~~= m@);
        a
    }
}

impl<T: Copy> vstd::std_specs::convert::FromSpecImpl<[T; 8]> for RowMatrix2x4<T> {
    open spec fn obeys_from_spec() -> bool {
        true
    }

    open spec fn from_spec(a: [T; 8]) -> Self {
        RowMatrix2x4 {
            x: Vector4 { x: a@[0], y: a@[1], z: a@[2], w: a@[3] },
            y: Vector4 { x: a@[4], y: a@[5], z: a@[6], w: a@[7] },
        }
    }
}

impl<T: Copy> From<[T; 8]> for RowMatrix2x4<T> {
    /// The array is cut into rows: its first 4 entries are the
    /// first row, the next 4 the second, and so on.
    fn from(a: [T; 8]) -> (m: Self)
        ensures
            m@ == lines(a@, 4),
            flat(m@) == a@,
    {
        let m = RowMatrix2x4 {
            x: Vector4 { x: a[0], y: a[1], z: a[2], w: a[3] },
            y: Vector4 { x: a[4], y: a[5], z: a[6], w: a[7] },
        };
        proof {
            assert(m@ =~~= lines(a@, 4));
            lemma_flat_of_lines(a@, 4);
        }
        m
    }
}

impl<T> vstd::std_specs::convert::FromSpecImpl<RowMatrix2x4<T>> for [T; 8] {
    open spec fn obeys_from_spec() -> bool {
        true
    }

    open spec fn from_spec(m: RowMatrix2x4<T>) -> Self {
        [m.x.x, m.x.y, m.x.z, m.x.w, m.y.x, m.y.y, m.y.z, m.y.w]
    }
}

impl<T> From<RowMatrix2x4<T>> for [T; 8] {
    /// The rows one after another, the first row first.
    fn from(m: RowMatrix2x4<T>) -> (a: Self)
        ensures
            a@ == flat(m@),
            lines(a@, 4) == m@,
    {
        let a = [m.x.x, m.x.y, m.x.z, m.x.w, m.y.x, m.y.y, m.y.z, m.y.w];
        proof {
            assert(lines(a@, 4) =~~= m@);
            lemma_flat_of_lines(a@, 4);
        }
        a
    }
}

impl<T> vstd::std_specs::convert::FromSpecImpl<ColumnMatrix2x4<T>> for RowMatrix2x4<T> {
    open spec fn obeys_from_spec() -> bool {
        true
    }

    open spec fn from_spec(m: ColumnMatrix2x4<T>) -> Self {
        RowMatrix2x4 {
            x: Vector4 { x: m.x.x, y: m.y.x, z: m.z.x, w: m.w.x },
            y: Vector4 { x: m.x.y, y: m.y.y, z: m.z.y, w: m.w.y },
        }
    }
}

impl<T> From<ColumnMatrix2x4<T>> for RowMatrix2x4<T> {
    /// The same matrix stored by rows: the entry in row `i` and
    /// column `j` stays in row `i` and column `j`.
    fn from(m: ColumnMatrix2x4<T>) -> (t: Self)
        ensures
            t@ == transpose(m@),
    {
        let t = RowMatrix2x4 {
            x: Vector4 { x: m.x.x, y: m.y.x, z: m.z.x, w: m.w.x },
            y: Vector4 { x: m.x.y, y: m.y.y, z: m.z.y, w: m.w.y },
        };
        assert(t@ =~~= transpose(m@));
        t
    }
}

impl<T: Copy> RowMatrix2x4<T> {
    /// Through the nested array form and back, every matrix is what it
    /// was.
    pub proof fn lemma_nested_round_trip(self)
        ensures
            Self::from_spec(<[[T; 4]; 2]>::from_spec(self)) == self,
    {
    }

    /// From a nested array and back, every array is what it was.
    pub proof fn lemma_nested_recovered(a: [[T; 4]; 2])
        ensures
            <[[T; 4]; 2]>::from_spec(Self::from_spec(a)) == a,
    {
        let b = <[[T; 4]; 2]>::from_spec(Self::from_spec(a));
        assert(b@[0] =~= a@[0]);
        assert(b@[1] =~= a@[1]);
        assert(b =~= a);
    }

    /// Through the flat array form and back, every matrix is what it was.
    pub proof fn lemma_flat_round_trip(self)
        ensures
            Self::from_spec(<[T; 8]>::from_spec(self)) == self,
    {
    }

    /// From a flat array and back, every array is what it was.
    pub proof fn lemma_flat_recovered(a: [T; 8])
        ensures
            <[T; 8]>::from_spec(Self::from_spec(a)) == a,
    {
        assert(<[T; 8]>::from_spec(Self::from_spec(a)) =~= a);
    }
}

impl<T> RowMatrix2x4<T> {
    /// The view has 2 lines of 4 entries.
    pub proof fn lemma_view_is_grid(self)
        ensures
            is_grid(self@, 2, 4),
    {
    }

    /// The view tells matrices apart: two with the same view are equal.
    pub proof fn lemma_view_injective(self, other: Self)
        requires
            self@ == other@,
        ensures
            self == other,
    {
        self.x.lemma_view_injective(other.x);
        assert(self@[0] == other@[0]);
        self.y.lemma_view_injective(other.y);
        assert(self@[1] == other@[1]);
    }

    /// The two array forms of a matrix hold the same entries, and each can
    /// be had from the other: the flat form is the nested form laid out
    /// flat, and the nested form is the flat form cut into lines.
    pub proof fn lemma_array_forms_agree(self)
        ensures
            <[T; 8]>::from_spec(self)@ == flat(grid(<[[T; 4]; 2]>::from_spec(self))),
            grid(<[[T; 4]; 2]>::from_spec(self)) == lines(<[T; 8]>::from_spec(self)@, 4),
    {
        let nested = <[[T; 4]; 2]>::from_spec(self);
        let flat_form = <[T; 8]>::from_spec(self);
        assert(grid(nested) =~~= self@);
        assert(lines(flat_form@, 4) =~~= self@);
        lemma_flat_of_lines(flat_form@, 4);
    }

    /// Stored by columns and then by rows again, every matrix is what
    /// it was.
    pub proof fn lemma_turn_round_trip(self)
        ensures
            Self::from_spec(ColumnMatrix2x4::<T>::from_spec(self)) == self,
    {
    }
}

/// A matrix of 3 rows and 2 columns, stored row by row: `x`, `y` and `z` are
/// the first, second and third row.
#[derive(Clone, Copy, Debug, Hash, PartialEq, PartialOrd, Eq, Ord)]
pub struct RowMatrix3x2<T> {
    pub x: Vector2<T>,
    pub y: Vector2<T>,
    pub z: Vector2<T>,
}

impl<T> View for RowMatrix3x2<T> {
    type V = Seq<Seq<T>>;

    /// The rows in storage order, each as the sequence of its entries.
    open spec fn view(&self) -> Seq<Seq<T>> {
        seq![self.x@, self.y@, self.z@]
    }
}

impl<T> IntoMint for RowMatrix3x2<T> {
    type MintType = RowMatrix3x2<T>;
}

impl<T: Copy> vstd::std_specs::convert::FromSpecImpl<[[T; 2]; 3]> for RowMatrix3x2<T> {
    open spec fn obeys_from_spec() -> bool {
        true
    }

    open spec fn from_spec(a: [[T; 2]; 3]) -> Self {
        RowMatrix3x2 {
            x: Vector2 { x: a@[0]@[0], y: a@[0]@[1] },
            y: Vector2 { x: a@[1]@[0], y: a@[1]@[1] },
            z: Vector2 { x: a@[2]@[0], y: a@[2]@[1] },
        }
    }
}

impl<T: Copy> From<[[T; 2]; 3]> for RowMatrix3x2<T> {
    /// Inner array `i` becomes row `i`.
    fn from(a: [[T; 2]; 3]) -> (m: Self)
        ensures
            m@ == grid(a),
    {
        let m = RowMatrix3x2 {
            x: Vector2::from(a[0]),
            y: Vector2::from(a[1]),
            z: Vector2::from(a[2]),
        };
        assert(m@ =~~= grid(a));
        m
    }
}

impl<T> vstd::std_specs::convert::FromSpecImpl<RowMatrix3x2<T>> for [[T; 2]; 3] {
    open spec fn obeys_from_spec() -> bool {
        true
    }

    open spec fn from_spec(m: RowMatrix3x2<T>) -> Self {
        [[m.x.x, m.x.y], [m.y.x, m.y.y], [m.z.x, m.z.y]]
    }
}

impl<T> From<RowMatrix3x2<T>> for [[T; 2]; 3] {
    /// Row `i` becomes inner array `i`.
    fn from(m: RowMatrix3x2<T>) -> (a: Self)
        ensures
            grid(a) == m@,
    {
        let a = [<[T; 2]>::from(m.x), <[T; 2]>::from(m.y), <[T; 2]>::from(m.z)];
        assert(grid(a) =~~= m@);
        a
    }
}

impl<T: Copy> vstd::std_specs::convert::FromSpecImpl<[T; 6]> for RowMatrix3x2<T> {
    open spec fn obeys_from_spec() -> bool {
        true
    }

    open spec fn from_spec(a: [T; 6]) -> Self {
        RowMatrix3x2 {
            x: Vector2 { x: a@[0], y: a@[1] },
            y: Vector2 { x: a@[2], y: a@[3] },
            z: Vector2 { x: a@[4], y: a@[5] },
        }
    }
}

impl<T: Copy> From<[T; 6]> for RowMatrix3x2<T> {
    /// The array is cut into rows: its first 2 entries are the
    /// first row, the next 2 the second, and so on.
    fn from(a: [T; 6]) -> (m: Self)
        ensures
            m@ == lines(a@, 2),
            flat(m@) == a@,
    {
        let m = RowMatrix3x2 {
            x: Vector2 { x: a[0], y: a[1] },
            y: Vector2 { x: a[2], y: a[3] },
            z: Vector2 { x: a[4], y: a[5] },
        };
        proof {
            assert(m@ =~~= lines(a@, 2));
            lemma_flat_of_lines(a@, 2);
        }
        m
    }
}

impl<T> vstd::std_specs::convert::FromSpecImpl<RowMatrix3x2<T>> for [T; 6] {
    open spec fn obeys_from_spec() -> bool {
        true
    }

    open spec fn from_spec(m: RowMatrix3x2<T>) -> Self {
        [m.x.x, m.x.y, m.y.x, m.y.y, m.z.x, m.z.y]
    }
}

impl<T> From<RowMatrix3x2<T>> for [T; 6] {
    /// The rows one after another, the first row first.
    fn from(m: RowMatrix3x2<T>) -> (a: Self)
        ensures
            a@ == flat(m@),
            lines(a@, 2) == m@,
    {
        let a = [m.x.x, m.x.y, m.y.x, m.y.y, m.z.x, m.z.y];
        proof {
            assert(lines(a@, 2) =~~= m@);
            lemma_flat_of_lines(a@, 2);
        }
        a
    }
}

impl<T> vstd::std_specs::convert::FromSpecImpl<ColumnMatrix3x2<T>> for RowMatrix3x2<T> {
    open spec fn obeys_from_spec() -> bool {
        true
    }

    open spec fn from_spec(m: ColumnMatrix3x2<T>) -> Self {
        RowMatrix3x2 {
            x: Vector2 { x: m.x.x, y: m.y.x },
            y: Vector2 { x: m.x.y, y: m.y.y },
            z: Vector2 { x: m.x.z, y: m.y.z },
        }
    }
}

impl<T> From<ColumnMatrix3x2<T>> for RowMatrix3x2<T> {
    /// The same matrix stored by rows: the entry in row `i` and
    /// column `j` stays in row `i` and column `j`.
    fn from(m: ColumnMatrix3x2<T>) -> (t: Self)
        ensures
            t@ == transpose(m@),
    {
        let t = RowMatrix3x2 {
            x: Vector2 { x: m.x.x, y: m.y.x },
            y: Vector2 { x: m.x.y, y: m.y.y },
            z: Vector2 { x: m.x.z, y: m.y.z },
        };
        assert(t@ =~~= transpose(m@));
        t
    }
}

impl<T: Copy> RowMatrix3x2<T> {
    /// Through the nested array form and back, every matrix is what it
    /// was.
    pub proof fn lemma_nested_round_trip(self)
        ensures
            Self::from_spec(<[[T; 2]; 3]>::from_spec(self)) == self,
    {
    }

    /// From a nested array and back, every array is what it was.
    pub proof fn lemma_nested_recovered(a: [[T; 2]; 3])
        ensures
            <[[T; 2]; 3]>::from_spec(Self::from_spec(a)) == a,
    {
        let b = <[[T; 2]; 3]>::from_spec(Self::from_spec(a));
        assert(b@[0] =~= a@[0]);
        assert(b@[1] =~= a@[1]);
        assert(b@[2] =~= a@[2]);
        assert(b =~= a);
    }

    /// Through the flat array form and back, every matrix is what it was.
    pub proof fn lemma_flat_round_trip(self)
        ensures
            Self::from_spec(<[T; 6]>::from_spec(self)) == self,
    {
    }

    /// From a flat array and back, every array is what it was.
    pub proof fn lemma_flat_recovered(a: [T; 6])
        ensures
            <[T; 6]>::from_spec(Self::from_spec(a)) == a,
    {
        assert(<[T; 6]>::from_spec(Self::from_spec(a)) =~= a);
    }
}

impl<T> RowMatrix3x2<T> {
    /// The view has 3 lines of 2 entries.
    pub proof fn lemma_view_is_grid(self)
        ensures
            is_grid(self@, 3, 2),
    {
    }

    /// The view tells matrices apart: two with the same view are equal.
    pub proof fn lemma_view_injective(self, other: Self)
        requires
            self@ == other@,
        ensures
            self == other,
    {
        self.x.lemma_view_injective(other.x);
        assert(self@[0] == other@[0]);
        self.y.lemma_view_injective(other.y);
        assert(self@[1] == other@[1]);
        self.z.lemma_view_injective(other.z);
        assert(self@[2] == other@[2]);
    }

    /// The two array forms of a matrix hold the same entries, and each can
    /// be had from the other: the flat form is the nested form laid out
    /// flat, and the nested form is the flat form cut into lines.
    pub proof fn lemma_array_forms_agree(self)
        ensures
            <[T; 6]>::from_spec(self)@ == flat(grid(<[[T; 2]; 3]>::from_spec(self))),
            grid(<[[T; 2]; 3]>::from_spec(self)) == lines(<[T; 6]>::from_spec(self)@, 2),
    {
        let nested = <[[T; 2]; 3]>::from_spec(self);
        let flat_form = <[T; 6]>::from_spec(self);
        assert(grid(nested) =~~= self@);
        assert(lines(flat_form@, 2) =~~= self@);
        lemma_flat_of_lines(flat_form@, 2);
    }

    /// Stored by columns and then by rows again, every matrix is what
    /// it was.
    pub proof fn lemma_turn_round_trip(self)
        ensures
            Self::from_spec(ColumnMatrix3x2::<T>::from_spec(self)) == self,
    {
    }
}

/// A matrix of 3 rows and 3 columns, stored row by row: `x`, `y` and `z` are
/// the first, second and third row.
#[derive(Clone, Copy, Debug, Hash, PartialEq, PartialOrd, Eq, Ord)]
pub struct RowMatrix3<T> {
    pub x: Vector3<T>,
    pub y: Vector3<T>,
    pub z: Vector3<T>,
}

impl<T> View for RowMatrix3<T> {
    type V = Seq<Seq<T>>;

    /// The rows in storage order, each as the sequence of its entries.
    open spec fn view(&self) -> Seq<Seq<T>> {
        seq![self.x@, self.y@, self.z@]
    }
}

impl<T> IntoMint for RowMatrix3<T> {
    type MintType = RowMatrix3<T>;
}

impl<T: Copy> vstd::std_specs::convert::FromSpecImpl<[[T; 3]; 3]> for RowMatrix3<T> {
    open spec fn obeys_from_spec() -> bool {
        true
    }

    open spec fn from_spec(a: [[T; 3]; 3]) -> Self {
        RowMatrix3 {
            x: Vector3 { x: a@[0]@[0], y: a@[0]@[1], z: a@[0]@[2] },
            y: Vector3 { x: a@[1]@[0], y: a@[1]@[1], z: a@[1]@[2] },
            z: Vector3 { x: a@[2]@[0], y: a@[2]@[1], z: a@[2]@[2] },
        }
    }
}

impl<T: Copy> From<[[T; 3]; 3]> for RowMatrix3<T> {
    /// Inner array `i` becomes row `i`.
    fn from(a: [[T; 3]; 3]) -> (m: Self)
        ensures
            m@ == grid(a),
    {
        let m = RowMatrix3 {
            x: Vector3::from(a[0]),
            y: Vector3::from(a[1]),
            z: Vector3::from(a[2]),
        };
        assert(m@ =~~= grid(a));
        m
    }
}

impl<T> vstd::std_specs::convert::FromSpecImpl<RowMatrix3<T>> for [[T; 3]; 3] {
    open spec fn obeys_from_spec() -> bool {
        true
    }

    open spec fn from_spec(m: RowMatrix3<T>) -> Self {
        [[m.x.x, m.x.y, m.x.z], [m.y.x, m.y.y, m.y.z], [m.z.x, m.z.y, m.z.z]]
    }
}

impl<T> From<RowMatrix3<T>> for [[T; 3]; 3] {
    /// Row `i` becomes inner array `i`.
    fn from(m: RowMatrix3<T>) -> (a: Self)
        ensures
            grid(a) == m@,
    {
        let a = [<[T; 3]>::from(m.x), <[T; 3]>::from(m.y), <[T; 3]>::from(m.z)];
        assert(grid(a) =~~= m@);
        a
    }
}

impl<T: Copy> vstd::std_specs::convert::FromSpecImpl<[T; 9]> for RowMatrix3<T> {
    open spec fn obeys_from_spec() -> bool {
        true
    }

    open spec fn from_spec(a: [T; 9]) -> Self {
        RowMatrix3 {
            x: Vector3 { x: a@[0], y: a@[1], z: a@[2] },
            y: Vector3 { x: a@[3], y: a@[4], z: a@[5] },
            z: Vector3 { x: a@[6], y: a@[7], z: a@[8] },
        }
    }
}

impl<T: Copy> From<[T; 9]> for RowMatrix3<T> {
    /// The array is cut into rows: its first 3 entries are the
    /// first row, the next 3 the second, and so on.
    fn from(a: [T; 9]) -> (m: Self)
        ensures
            m@ == lines(a@, 3),
            flat(m@) == a@,
    {
        let m = RowMatrix3 {
            x: Vector3 { x: a[0], y: a[1], z: a[2] },
            y: Vector3 { x: a[3], y: a[4], z: a[5] },
            z: Vector3 { x: a[6], y: a[7], z: a[8] },
        };
        proof {
            assert(m@ =~~= lines(a@, 3));
            lemma_flat_of_lines(a@, 3);
        }
        m
    }
}

impl<T> vstd::std_specs::convert::FromSpecImpl<RowMatrix3<T>> for [T; 9] {
    open spec fn obeys_from_spec() -> bool {
        true
    }

    open spec fn from_spec(m: RowMatrix3<T>) -> Self {
        [m.x.x, m.x.y, m.x.z, m.y.x, m.y.y, m.y.z, m.z.x, m.z.y, m.z.z]
    }
}

impl<T> From<RowMatrix3<T>> for [T; 9] {
    /// The rows one after another, the first row first.
    fn from(m: RowMatrix3<T>) -> (a: Self)
        ensures
            a@ == flat(m@),
            lines(a@, 3) == m@,
    {
        let a = [m.x.x, m.x.y, m.x.z, m.y.x, m.y.y, m.y.z, m.z.x, m.z.y, m.z.z];
        proof {
            assert(lines(a@, 3) =~~= m@);
            lemma_flat_of_lines(a@, 3);
        }
        a
    }
}

impl<T> vstd::std_specs::convert::FromSpecImpl<ColumnMatrix3<T>> for RowMatrix3<T> {
    open spec fn obeys_from_spec() -> bool {
        true
    }

    open spec fn from_spec(m: ColumnMatrix3<T>) -> Self {
        RowMatrix3 {
            x: Vector3 { x: m.x.x, y: m.y.x, z: m.z.x },
            y: Vector3 { x: m.x.y, y: m.y.y, z: m.z.y },
            z: Vector3 { x: m.x.z, y: m.y.z, z: m.z.z },
        }
    }
}

impl<T> From<ColumnMatrix3<T>> for RowMatrix3<T> {
    /// The same matrix stored by rows: the entry in row `i` and
    /// column `j` stays in row `i` and column `j`.
    fn from(m: ColumnMatrix3<T>) -> (t: Self)
        ensures
            t@ == transpose(m@),
    {
        let t = RowMatrix3 {
            x: Vector3 { x: m.x.x, y: m.y.x, z: m.z.x },
            y: Vector3 { x: m.x.y, y: m.y.y, z: m.z.y },
            z: Vector3 { x: m.x.z, y: m.y.z, z: m.z.z },
        };
        assert(t@ =~~= transpose(m@));
        t
    }
}

impl<T: Copy> RowMatrix3<T> {
    /// Through the nested array form and back, every matrix is what it
    /// was.
    pub proof fn lemma_nested_round_trip(self)
        ensures
            Self::from_spec(<[[T; 3]; 3]>::from_spec(self)) == self,
    {
    }

    /// From a nested array and back, every array is what it was.
    pub proof fn lemma_nested_recovered(a: [[T; 3]; 3])
        ensures
            <[[T; 3]; 3]>::from_spec(Self::from_spec(a)) == a,
    {
        let b = <[[T; 3]; 3]>::from_spec(Self::from_spec(a));
        assert(b@[0] =~= a@[0]);
        assert(b@[1] =~= a@[1]);
        assert(b@[2] =~= a@[2]);
        assert(b =~= a);
    }

    /// Through the flat array form and back, every matrix is what it was.
    pub proof fn lemma_flat_round_trip(self)
        ensures
            Self::from_spec(<[T; 9]>::from_spec(self)) == self,
    {
    }

    /// From a flat array and back, every array is what it was.
    pub proof fn lemma_flat_recovered(a: [T; 9])
        ensures
            <[T; 9]>::from_spec(Self::from_spec(a)) == a,
    {
        assert(<[T; 9]>::from_spec(Self::from_spec(a)) =~= a);
    }
}

impl<T> RowMatrix3<T> {
    /// The view has 3 lines of 3 entries.
    pub proof fn lemma_view_is_grid(self)
        ensures
            is_grid(self@, 3, 3),
    {
    }

    /// The view tells matrices apart: two with the same view are equal.
    pub proof fn lemma_view_injective(self, other: Self)
        requires
            self@ == other@,
        ensures
            self == other,
    {
        self.x.lemma_view_injective(other.x);
        assert(self@[0] == other@[0]);
        self.y.lemma_view_injective(other.y);
        assert(self@[1] == other@[1]);
        self.z.lemma_view_injective(other.z);
        assert(self@[2] == other@[2]);
    }

    /// The two array forms of a matrix hold the same entries, and each can
    /// be had from the other: the flat form is the nested form laid out
    /// flat, and the nested form is the flat form cut into lines.
    pub proof fn lemma_array_forms_agree(self)
        ensures
            <[T; 9]>::from_spec(self)@ == flat(grid(<[[T; 3]; 3]>::from_spec(self))),
            grid(<[[T; 3]; 3]>::from_spec(self)) == lines(<[T; 9]>::from_spec(self)@, 3),
    {
        let nested = <[[T; 3]; 3]>::from_spec(self);
        let flat_form = <[T; 9]>::from_spec(self);
        assert(grid(nested) =~~= self@);
        assert(lines(flat_form@, 3) =~~= self@);
        lemma_flat_of_lines(flat_form@, 3);
    }

    /// Stored by columns and then by rows again, every matrix is what
    /// it was.
    pub proof fn lemma_turn_round_trip(self)
        ensures
            Self::from_spec(ColumnMatrix3::<T>::from_spec(self)) == self,
    {
    }
}

/// A matrix of 3 rows and 4 columns, stored row by row: `x`, `y` and `z` are
/// the first, second and third row.
#[derive(Clone, Copy, Debug, Hash, PartialEq, PartialOrd, Eq, Ord)]
pub struct RowMatrix3x4<T> {
    pub x: Vector4<T>,
    pub y: Vector4<T>,
    pub z: Vector4<T>,
}

impl<T> View for RowMatrix3x4<T> {
    type V = Seq<Seq<T>>;

    /// The rows in storage order, each as the sequence of its entries.
    open spec fn view(&self) -> Seq<Seq<T>> {
        seq![self.x@, self.y@, self.z@]
    }
}

impl<T> IntoMint for RowMatrix3x4<T> {
    type MintType = RowMatrix3x4<T>;
}

impl<T: Copy> vstd::std_specs::convert::FromSpecImpl<[[T; 4]; 3]> for RowMatrix3x4<T> {
    open spec fn obeys_from_spec() -> bool {
        true
    }

    open spec fn from_spec(a: [[T; 4]; 3]) -> Self {
        RowMatrix3x4 {
            x: Vector4 { x: a@[0]@[0], y: a@[0]@[1], z: a@[0]@[2], w: a@[0]@[3] },
            y: Vector4 { x: a@[1]@[0], y: a@[1]@[1], z: a@[1]@[2], w: a@[1]@[3] },
            z: Vector4 { x: a@[2]@[0], y: a@[2]@[1], z: a@[2]@[2], w: a@[2]@[3] },
        }
    }
}

impl<T: Copy> From<[[T; 4]; 3]> for RowMatrix3x4<T> {
    /// Inner array `i` becomes row `i`.
    fn from(a: [[T; 4]; 3]) -> (m: Self)
        ensures
            m@ == grid(a),
    {
        let m = RowMatrix3x4 {
            x: Vector4::from(a[0]),
            y: Vector4::from(a[1]),
            z: Vector4::from(a[2]),
        };
        assert(m@ =~~= grid(a));
        m
    }
}

impl<T> vstd::std_specs::convert::FromSpecImpl<RowMatrix3x4<T>> for [[T; 4]; 3] {
    open spec fn obeys_from_spec() -> bool {
        true
    }

    open spec fn from_spec(m: RowMatrix3x4<T>) -> Self {
        [
            [m.x.x, m.x.y, m.x.z, m.x.w],
            [m.y.x, m.y.y, m.y.z, m.y.w],
            [m.z.x, m.z.y, m.z.z, m.z.w],
        ]
    }
}

impl<T> From<RowMatrix3x4<T>> for [[T; 4]; 3] {
    /// Row `i` becomes inner array `i`.
    fn from(m: RowMatrix3x4<T>) -> (a: Self)
        ensures
            grid(a) == m@,
    {
        let a = [<[T; 4]>::from(m.x), <[T; 4]>::from(m.y), <[T; 4]>::from(m.z)];
        assert(grid(a) =~~= m@);
        a
    }
}

impl<T: Copy> vstd::std_specs::convert::FromSpecImpl<[T; 12]> for RowMatrix3x4<T> {
    open spec fn obeys_from_spec() -> bool {
        true
    }

    open spec fn from_spec(a: [T; 12]) -> Self {
        RowMatrix3x4 {
            x: Vector4 { x: a@[0], y: a@[1], z: a@[2], w: a@[3] },
            y: Vector4 { x: a@[4], y: a@[5], z: a@[6], w: a@[7] },
            z: Vector4 { x: a@[8], y: a@[9], z: a@[10], w: a@[11] },
        }
    }
}

impl<T: Copy> From<[T; 12]> for RowMatrix3x4<T> {
    /// The array is cut into rows: its first 4 entries are the
    /// first row, the next 4 the second, and so on.
    fn from(a: [T; 12]) -> (m: Self)
        ensures
            m@ == lines(a@, 4),
            flat(m@) == a@,
    {
        let m = RowMatrix3x4 {
            x: Vector4 { x: a[0], y: a[1], z: a[2], w: a[3] },
            y: Vector4 { x: a[4], y: a[5], z: a[6], w: a[7] },
            z: Vector4 { x: a[8], y: a[9], z: a[10], w: a[11] },
        };
        proof {
            assert(m@ =~~= lines(a@, 4));
            lemma_flat_of_lines(a@, 4);
        }
        m
    }
}

impl<T> vstd::std_specs::convert::FromSpecImpl<RowMatrix3x4<T>> for [T; 12] {
    open spec fn obeys_from_spec() -> bool {
        true
    }

    open spec fn from_spec(m: RowMatrix3x4<T>) -> Self {
        [
            m.x.x, m.x.y, m.x.z, m.x.w,
            m.y.x, m.y.y, m.y.z, m.y.w,
            m.z.x, m.z.y, m.z.z, m.z.w,
        ]
    }
}

impl<T> From<RowMatrix3x4<T>> for [T; 12] {
    /// The rows one after another, the first row first.
    fn from(m: RowMatrix3x4<T>) -> (a: Self)
        ensures
            a@ == flat(m@),
            lines(a@, 4) == m@,
    {
        let a = [
            m.x.x, m.x.y, m.x.z, m.x.w,
            m.y.x, m.y.y, m.y.z, m.y.w,
            m.z.x, m.z.y, m.z.z, m.z.w,
        ];
        proof {
            assert(lines(a@, 4) =~~= m@);
            lemma_flat_of_lines(a@, 4);
        }
        a
    }
}

impl<T> vstd::std_specs::convert::FromSpecImpl<ColumnMatrix3x4<T>> for RowMatrix3x4<T> {
    open spec fn obeys_from_spec() -> bool {
        true
    }

    open spec fn from_spec(m: ColumnMatrix3x4<T>) -> Self {
        RowMatrix3x4 {
            x: Vector4 { x: m.x.x, y: m.y.x, z: m.z.x, w: m.w.x },
            y: Vector4 { x: m.x.y, y: m.y.y, z: m.z.y, w: m.w.y },
            z: Vector4 { x: m.x.z, y: m.y.z, z: m.z.z, w: m.w.z },
        }
    }
}

impl<T> From<ColumnMatrix3x4<T>> for RowMatrix3x4<T> {
    /// The same matrix stored by rows: the entry in row `i` and
    /// column `j` stays in row `i` and column `j`.
    fn from(m: ColumnMatrix3x4<T>) -> (t: Self)
        ensures
            t@ == transpose(m@),
    {
        let t = RowMatrix3x4 {
            x: Vector4 { x: m.x.x, y: m.y.x, z: m.z.x, w: m.w.x },
            y: Vector4 { x: m.x.y, y: m.y.y, z: m.z.y, w: m.w.y },
            z: Vector4 { x: m.x.z, y: m.y.z, z: m.z.z, w: m.w.z },
        };
        assert(t@ =~~= transpose(m@));
        t
    }
}

impl<T: Copy> RowMatrix3x4<T> {
    /// Through the nested array form and back, every matrix is what it
    /// was.
    pub proof fn lemma_nested_round_trip(self)
        ensures
            Self::from_spec(<[[T; 4]; 3]>::from_spec(self)) == self,
    {
    }

    /// From a nested array and back, every array is what it was.
    pub proof fn lemma_nested_recovered(a: [[T; 4]; 3])
        ensures
            <[[T; 4]; 3]>::from_spec(Self::from_spec(a)) == a,
    {
        let b = <[[T; 4]; 3]>::from_spec(Self::from_spec(a));
        assert(b@[0] =~= a@[0]);
        assert(b@[1] =~= a@[1]);
        assert(b@[2] =~= a@[2]);
        assert(b =~= a);
    }

    /// Through the flat array form and back, every matrix is what it was.
    pub proof fn lemma_flat_round_trip(self)
        ensures
            Self::from_spec(<[T; 12]>::from_spec(self)) == self,
    {
    }

    /// From a flat array and back, every array is what it was.
    pub proof fn lemma_flat_recovered(a: [T; 12])
        ensures
            <[T; 12]>::from_spec(Self::from_spec(a)) == a,
    {
        assert(<[T; 12]>::from_spec(Self::from_spec(a)) =~= a);
    }
}

impl<T> RowMatrix3x4<T> {
    /// The view has 3 lines of 4 entries.
    pub proof fn lemma_view_is_grid(self)
        ensures
            is_grid(self@, 3, 4),
    {
    }

    /// The view tells matrices apart: two with the same view are equal.
    pub proof fn lemma_view_injective(self, other: Self)
        requires
            self@ == other@,
        ensures
            self == other,
    {
        self.x.lemma_view_injective(other.x);
        assert(self@[0] == other@[0]);
        self.y.lemma_view_injective(other.y);
        assert(self@[1] == other@[1]);
        self.z.lemma_view_injective(other.z);
        assert(self@[2] == other@[2]);
    }

    /// The two array forms of a matrix hold the same entries, and each can
    /// be had from the other: the flat form is the nested form laid out
    /// flat, and the nested form is the flat form cut into lines.
    pub proof fn lemma_array_forms_agree(self)
        ensures
            <[T; 12]>::from_spec(self)@ == flat(grid(<[[T; 4]; 3]>::from_spec(self))),
            grid(<[[T; 4]; 3]>::from_spec(self)) == lines(<[T; 12]>::from_spec(self)@, 4),
    {
        let nested = <[[T; 4]; 3]>::from_spec(self);
        let flat_form = <[T; 12]>::from_spec(self);
        assert(grid(nested) =~~= self@);
        assert(lines(flat_form@, 4) =~~= self@);
        lemma_flat_of_lines(flat_form@, 4);
    }

    /// Stored by columns and then by rows again, every matrix is what
    /// it was.
    pub proof fn lemma_turn_round_trip(self)
        ensures
            Self::from_spec(ColumnMatrix3x4::<T>::from_spec(self)) == self,
    {
    }
}

/// A matrix of 4 rows and 2 columns, stored row by row: `x`, `y`, `z` and `w`
/// are the first, second, third and fourth row.
#[derive(Clone, Copy, Debug, Hash, PartialEq, PartialOrd, Eq, Ord)]
pub struct RowMatrix4x2<T> {
    pub x: Vector2<T>,
    pub y: Vector2<T>,
    pub z: Vector2<T>,
    pub w: Vector2<T>,
}

impl<T> View for RowMatrix4x2<T> {
    type V = Seq<Seq<T>>;

    /// The rows in storage order, each as the sequence of its entries.
    open spec fn view(&self) -> Seq<Seq<T>> {
        seq![self.x@, self.y@, self.z@, self.w@]
    }
}

impl<T> IntoMint for RowMatrix4x2<T> {
    type MintType = RowMatrix4x2<T>;
}

impl<T: Copy> vstd::std_specs::convert::FromSpecImpl<[[T; 2]; 4]> for RowMatrix4x2<T> {
    open spec fn obeys_from_spec() -> bool {
        true
    }

    open spec fn from_spec(a: [[T; 2]; 4]) -> Self {
        RowMatrix4x2 {
            x: Vector2 { x: a@[0]@[0], y: a@[0]@[1] },
            y: Vector2 { x: a@[1]@[0], y: a@[1]@[1] },
            z: Vector2 { x: a@[2]@[0], y: a@[2]@[1] },
            w: Vector2 { x: a@[3]@[0], y: a@[3]@[1] },
        }
    }
}

impl<T: Copy> From<[[T; 2]; 4]> for RowMatrix4x2<T> {
    /// Inner array `i` becomes row `i`.
    fn from(a: [[T; 2]; 4]) -> (m: Self)
        ensures
            m@ == grid(a),
    {
        let m = RowMatrix4x2 {
            x: Vector2::from(a[0]),
            y: Vector2::from(a[1]),
            z: Vector2::from(a[2]),
            w: Vector2::from(a[3]),
        };
        assert(m@ =~~= grid(a));
        m
    }
}

impl<T> vstd::std_specs::convert::FromSpecImpl<RowMatrix4x2<T>> for [[T; 2]; 4] {
    open spec fn obeys_from_spec() -> bool {
        true
    }

    open spec fn from_spec(m: RowMatrix4x2<T>) -> Self {
        [[m.x.x, m.x.y], [m.y.x, m.y.y], [m.z.x, m.z.y], [m.w.x, m.w.y]]
    }
}

impl<T> From<RowMatrix4x2<T>> for [[T; 2]; 4] {
    /// Row `i` becomes inner array `i`.
    fn from(m: RowMatrix4x2<T>) -> (a: Self)
        ensures
            grid(a) == m@,
    {
        let a = [
            <[T; 2]>::from(m.x),
            <[T; 2]>::from(m.y),
            <[T; 2]>::from(m.z),
            <[T; 2]>::from(m.w),
        ];
        assert(grid(a) =~~= m@);
        a
    }
}

impl<T: Copy> vstd::std_specs::convert::FromSpecImpl<[T; 8]> for RowMatrix4x2<T> {
    open spec fn obeys_from_spec() -> bool {
        true
    }

    open spec fn from_spec(a: [T; 8]) -> Self {
        RowMatrix4x2 {
            x: Vector2 { x: a@[0], y: a@[1] },
            y: Vector2 { x: a@[2], y: a@[3] },
            z: Vector2 { x: a@[4], y: a@[5] },
            w: Vector2 { x: a@[6], y: a@[7] },
        }
    }
}

impl<T: Copy> From<[T; 8]> for RowMatrix4x2<T> {
    /// The array is cut into rows: its first 2 entries are the
    /// first row, the next 2 the second, and so on.
    fn from(a: [T; 8]) -> (m: Self)
        ensures
            m@ == lines(a@, 2),
            flat(m@) == a@,
    {
        let m = RowMatrix4x2 {
            x: Vector2 { x: a[0], y: a[1] },
            y: Vector2 { x: a[2], y: a[3] },
            z: Vector2 { x: a[4], y: a[5] },
            w: Vector2 { x: a[6], y: a[7] },
        };
        proof {
            assert(m@ =~~= lines(a@, 2));
            lemma_flat_of_lines(a@, 2);
        }
        m
    }
}

impl<T> vstd::std_specs::convert::FromSpecImpl<RowMatrix4x2<T>> for [T; 8] {
    open spec fn obeys_from_spec() -> bool {
        true
    }

    open spec fn from_spec(m: RowMatrix4x2<T>) -> Self {
        [m.x.x, m.x.y, m.y.x, m.y.y, m.z.x, m.z.y, m.w.x, m.w.y]
    }
}

impl<T> From<RowMatrix4x2<T>> for [T; 8] {
    /// The rows one after another, the first row first.
    fn from(m: RowMatrix4x2<T>) -> (a: Self)
        ensures
            a@ == flat(m@),
            lines(a@, 2) == m@,
    {
        let a = [m.x.x, m.x.y, m.y.x, m.y.y, m.z.x, m.z.y, m.w.x, m.w.y];
        proof {
            assert(lines(a@, 2) =~~= m@);
            lemma_flat_of_lines(a@, 2);
        }
        a
    }
}

impl<T> vstd::std_specs::convert::FromSpecImpl<ColumnMatrix4x2<T>> for RowMatrix4x2<T> {
    open spec fn obeys_from_spec() -> bool {
        true
    }

    open spec fn from_spec(m: ColumnMatrix4x2<T>) -> Self {
        RowMatrix4x2 {
            x: Vector2 { x: m.x.x, y: m.y.x },
            y: Vector2 { x: m.x.y, y: m.y.y },
            z: Vector2 { x: m.x.z, y: m.y.z },
            w: Vector2 { x: m.x.w, y: m.y.w },
        }
    }
}

impl<T> From<ColumnMatrix4x2<T>> for RowMatrix4x2<T> {
    /// The same matrix stored by rows: the entry in row `i` and
    /// column `j` stays in row `i` and column `j`.
    fn from(m: ColumnMatrix4x2<T>) -> (t: Self)
        ensures
            t@ == transpose(m@),
    {
        let t = RowMatrix4x2 {
            x: Vector2 { x: m.x.x, y: m.y.x },
            y: Vector2 { x: m.x.y, y: m.y.y },
            z: Vector2 { x: m.x.z, y: m.y.z },
            w: Vector2 { x: m.x.w, y: m.y.w },
        };
        assert(t@ =~~= transpose(m@));
        t
    }
}

impl<T: Copy> RowMatrix4x2<T> {
    /// Through the nested array form and back, every matrix is what it
    /// was.
    pub proof fn lemma_nested_round_trip(self)
        ensures
            Self::from_spec(<[[T; 2]; 4]>::from_spec(self)) == self,
    {
    }

    /// From a nested array and back, every array is what it was.
    pub proof fn lemma_nested_recovered(a: [[T; 2]; 4])
        ensures
            <[[T; 2]; 4]>::from_spec(Self::from_spec(a)) == a,
    {
        let b = <[[T; 2]; 4]>::from_spec(Self::from_spec(a));
        assert(b@[0] =~= a@[0]);
        assert(b@[1] =~= a@[1]);
        assert(b@[2] =~= a@[2]);
        assert(b@[3] =~= a@[3]);
        assert(b =~= a);
    }

    /// Through the flat array form and back, every matrix is what it was.
    pub proof fn lemma_flat_round_trip(self)
        ensures
            Self::from_spec(<[T; 8]>::from_spec(self)) == self,
    {
    }

    /// From a flat array and back, every array is what it was.
    pub proof fn lemma_flat_recovered(a: [T; 8])
        ensures
            <[T; 8]>::from_spec(Self::from_spec(a)) == a,
    {
        assert(<[T; 8]>::from_spec(Self::from_spec(a)) =~= a);
    }
}

impl<T> RowMatrix4x2<T> {
    /// The view has 4 lines of 2 entries.
    pub proof fn lemma_view_is_grid(self)
        ensures
            is_grid(self@, 4, 2),
    {
    }

    /// The view tells matrices apart: two with the same view are equal.
    pub proof fn lemma_view_injective(self, other: Self)
        requires
            self@ == other@,
        ensures
            self == other,
    {
        self.x.lemma_view_injective(other.x);
        assert(self@[0] == other@[0]);
        self.y.lemma_view_injective(other.y);
        assert(self@[1] == other@[1]);
        self.z.lemma_view_injective(other.z);
        assert(self@[2] == other@[2]);
        self.w.lemma_view_injective(other.w);
        assert(self@[3] == other@[3]);
    }

    /// The two array forms of a matrix hold the same entries, and each can
    /// be had from the other: the flat form is the nested form laid out
    /// flat, and the nested form is the flat form cut into lines.
    pub proof fn lemma_array_forms_agree(self)
        ensures
            <[T; 8]>::from_spec(self)@ == flat(grid(<[[T; 2]; 4]>::from_spec(self))),
            grid(<[[T; 2]; 4]>::from_spec(self)) == lines(<[T; 8]>::from_spec(self)@, 2),
    {
        let nested = <[[T; 2]; 4]>::from_spec(self);
        let flat_form = <[T; 8]>::from_spec(self);
        assert(grid(nested) =~~= self@);
        assert(lines(flat_form@, 2) =~~= self@);
        lemma_flat_of_lines(flat_form@, 2);
    }

    /// Stored by columns and then by rows again, every matrix is what
    /// it was.
    pub proof fn lemma_turn_round_trip(self)
        ensures
            Self::from_spec(ColumnMatrix4x2::<T>::from_spec(self)) == self,
    {
    }
}

/// A matrix of 4 rows and 3 columns, stored row by row: `x`, `y`, `z` and `w`
/// are the first, second, third and fourth row.
#[derive(Clone, Copy, Debug, Hash, PartialEq, PartialOrd, Eq, Ord)]
pub struct RowMatrix4x3<T> {
    pub x: Vector3<T>,
    pub y: Vector3<T>,
    pub z: Vector3<T>,
    pub w: Vector3<T>,
}

impl<T> View for RowMatrix4x3<T> {
    type V = Seq<Seq<T>>;

    /// The rows in storage order, each as the sequence of its entries.
    open spec fn view(&self) -> Seq<Seq<T>> {
        seq![self.x@, self.y@, self.z@, self.w@]
    }
}

impl<T> IntoMint for RowMatrix4x3<T> {
    type MintType = RowMatrix4x3<T>;
}

impl<T: Copy> vstd::std_specs::convert::FromSpecImpl<[[T; 3]; 4]> for RowMatrix4x3<T> {
    open spec fn obeys_from_spec() -> bool {
        true
    }

    open spec fn from_spec(a: [[T; 3]; 4]) -> Self {
        RowMatrix4x3 {
            x: Vector3 { x: a@[0]@[0], y: a@[0]@[1], z: a@[0]@[2] },
            y: Vector3 { x: a@[1]@[0], y: a@[1]@[1], z: a@[1]@[2] },
            z: Vector3 { x: a@[2]@[0], y: a@[2]@[1], z: a@[2]@[2] },
            w: Vector3 { x: a@[3]@[0], y: a@[3]@[1], z: a@[3]@[2] },
        }
    }
}

impl<T: Copy> From<[[T; 3]; 4]> for RowMatrix4x3<T> {
    /// Inner array `i` becomes row `i`.
    fn from(a: [[T; 3]; 4]) -> (m: Self)
        ensures
            m@ == grid(a),
    {
        let m = RowMatrix4x3 {
            x: Vector3::from(a[0]),
            y: Vector3::from(a[1]),
            z: Vector3::from(a[2]),
            w: Vector3::from(a[3]),
        };
        assert(m@ =~~= grid(a));
        m
    }
}

impl<T> vstd::std_specs::convert::FromSpecImpl<RowMatrix4x3<T>> for [[T; 3]; 4] {
    open spec fn obeys_from_spec() -> bool {
        true
    }

    open spec fn from_spec(m: RowMatrix4x3<T>) -> Self {
        [
            [m.x.x, m.x.y, m.x.z],
            [m.y.x, m.y.y, m.y.z],
            [m.z.x, m.z.y, m.z.z],
            [m.w.x, m.w.y, m.w.z],
        ]
    }
}

impl<T> From<RowMatrix4x3<T>> for [[T; 3]; 4] {
    /// Row `i` becomes inner array `i`.
    fn from(m: RowMatrix4x3<T>) -> (a: Self)
        ensures
            grid(a) == m@,
    {
        let a = [
            <[T; 3]>::from(m.x),
            <[T; 3]>::from(m.y),
            <[T; 3]>::from(m.z),
            <[T; 3]>::from(m.w),
        ];
        assert(grid(a) =~~= m@);
        a
    }
}

impl<T: Copy> vstd::std_specs::convert::FromSpecImpl<[T; 12]> for RowMatrix4x3<T> {
    open spec fn obeys_from_spec() -> bool {
        true
    }

    open spec fn from_spec(a: [T; 12]) -> Self {
        RowMatrix4x3 {
            x: Vector3 { x: a@[0], y: a@[1], z: a@[2] },
            y: Vector3 { x: a@[3], y: a@[4], z: a@[5] },
            z: Vector3 { x: a@[6], y: a@[7], z: a@[8] },
            w: Vector3 { x: a@[9], y: a@[10], z: a@[11] },
        }
    }
}

impl<T: Copy> From<[T; 12]> for RowMatrix4x3<T> {
    /// The array is cut into rows: its first 3 entries are the
    /// first row, the next 3 the second, and so on.
    fn from(a: [T; 12]) -> (m: Self)
        ensures
            m@ == lines(a@, 3),
            flat(m@) == a@,
    {
        let m = RowMatrix4x3 {
            x: Vector3 { x: a[0], y: a[1], z: a[2] },
            y: Vector3 { x: a[3], y: a[4], z: a[5] },
            z: Vector3 { x: a[6], y: a[7], z: a[8] },
            w: Vector3 { x: a[9], y: a[10], z: a[11] },
        };
        proof {
            assert(m@ =~~= lines(a@, 3));
            lemma_flat_of_lines(a@, 3);
        }
        m
    }
}

impl<T> vstd::std_specs::convert::FromSpecImpl<RowMatrix4x3<T>> for [T; 12] {
    open spec fn obeys_from_spec() -> bool {
        true
    }

    open spec fn from_spec(m: RowMatrix4x3<T>) -> Self {
        [
            m.x.x, m.x.y, m.x.z,
            m.y.x, m.y.y, m.y.z,
            m.z.x, m.z.y, m.z.z,
            m.w.x, m.w.y, m.w.z,
        ]
    }
}

impl<T> From<RowMatrix4x3<T>> for [T; 12] {
    /// The rows one after another, the first row first.
    fn from(m: RowMatrix4x3<T>) -> (a: Self)
        ensures
            a@ == flat(m@),
            lines(a@, 3) == m@,
    {
        let a = [
            m.x.x, m.x.y, m.x.z,
            m.y.x, m.y.y, m.y.z,
            m.z.x, m.z.y, m.z.z,
            m.w.x, m.w.y, m.w.z,
        ];
        proof {
            assert(lines(a@, 3) =~~= m@);
            lemma_flat_of_lines(a@, 3);
        }
        a
    }
}

impl<T> vstd::std_specs::convert::FromSpecImpl<ColumnMatrix4x3<T>> for RowMatrix4x3<T> {
    open spec fn obeys_from_spec() -> bool {
        true
    }

    open spec fn from_spec(m: ColumnMatrix4x3<T>) -> Self {
        RowMatrix4x3 {
            x: Vector3 { x: m.x.x, y: m.y.x, z: m.z.x },
            y: Vector3 { x: m.x.y, y: m.y.y, z: m.z.y },
            z: Vector3 { x: m.x.z, y: m.y.z, z: m.z.z },
            w: Vector3 { x: m.x.w, y: m.y.w, z: m.z.w },
        }
    }
}

impl<T> From<ColumnMatrix4x3<T>> for RowMatrix4x3<T> {
    /// The same matrix stored by rows: the entry in row `i` and
    /// column `j` stays in row `i` and column `j`.
    fn from(m: ColumnMatrix4x3<T>) -> (t: Self)
        ensures
            t@ == transpose(m@),
    {
        let t = RowMatrix4x3 {
            x: Vector3 { x: m.x.x, y: m.y.x, z: m.z.x },
            y: Vector3 { x: m.x.y, y: m.y.y, z: m.z.y },
            z: Vector3 { x: m.x.z, y: m.y.z, z: m.z.z },
            w: Vector3 { x: m.x.w, y: m.y.w, z: m.z.w },
        };
        assert(t@ =~~= transpose(m@));
        t
    }
}

impl<T: Copy> RowMatrix4x3<T> {
    /// Through the nested array form and back, every matrix is what it
    /// was.
    pub proof fn lemma_nested_round_trip(self)
        ensures
            Self::from_spec(<[[T; 3]; 4]>::from_spec(self)) == self,
    {
    }

    /// From a nested array and back, every array is what it was.
    pub proof fn lemma_nested_recovered(a: [[T; 3]; 4])
        ensures
            <[[T; 3]; 4]>::from_spec(Self::from_spec(a)) == a,
    {
        let b = <[[T; 3]; 4]>::from_spec(Self::from_spec(a));
        assert(b@[0] =~= a@[0]);
        assert(b@[1] =~= a@[1]);
        assert(b@[2] =~= a@[2]);
        assert(b@[3] =~= a@[3]);
        assert(b =~= a);
    }

    /// Through the flat array form and back, every matrix is what it was.
    pub proof fn lemma_flat_round_trip(self)
        ensures
            Self::from_spec(<[T; 12]>::from_spec(self)) == self,
    {
    }

    /// From a flat array and back, every array is what it was.
    pub proof fn lemma_flat_recovered(a: [T; 12])
        ensures
            <[T; 12]>::from_spec(Self::from_spec(a)) == a,
    {
        assert(<[T; 12]>::from_spec(Self::from_spec(a)) =~= a);
    }
}

impl<T> RowMatrix4x3<T> {
    /// The view has 4 lines of 3 entries.
    pub proof fn lemma_view_is_grid(self)
        ensures
            is_grid(self@, 4, 3),
    {
    }

    /// The view tells matrices apart: two with the same view are equal.
    pub proof fn lemma_view_injective(self, other: Self)
        requires
            self@ == other@,
        ensures
            self == other,
    {
        self.x.lemma_view_injective(other.x);
        assert(self@[0] == other@[0]);
        self.y.lemma_view_injective(other.y);
        assert(self@[1] == other@[1]);
        self.z.lemma_view_injective(other.z);
        assert(self@[2] == other@[2]);
        self.w.lemma_view_injective(other.w);
        assert(self@[3] == other@[3]);
    }

    /// The two array forms of a matrix hold the same entries, and each can
    /// be had from the other: the flat form is the nested form laid out
    /// flat, and the nested form is the flat form cut into lines.
    pub proof fn lemma_array_forms_agree(self)
        ensures
            <[T; 12]>::from_spec(self)@ == flat(grid(<[[T; 3]; 4]>::from_spec(self))),
            grid(<[[T; 3]; 4]>::from_spec(self)) == lines(<[T; 12]>::from_spec(self)@, 3),
    {
        let nested = <[[T; 3]; 4]>::from_spec(self);
        let flat_form = <[T; 12]>::from_spec(self);
        assert(grid(nested) =~~= self@);
        assert(lines(flat_form@, 3) =~~= self@);
        lemma_flat_of_lines(flat_form@, 3);
    }

    /// Stored by columns and then by rows again, every matrix is what
    /// it was.
    pub proof fn lemma_turn_round_trip(self)
        ensures
            Self::from_spec(ColumnMatrix4x3::<T>::from_spec(self)) == self,
    {
    }
}

/// A matrix of 4 rows and 4 columns, stored row by row: `x`, `y`, `z` and `w`
/// are the first, second, third and fourth row.
#[derive(Clone, Copy, Debug, Hash, PartialEq, PartialOrd, Eq, Ord)]
pub struct RowMatrix4<T> {
    pub x: Vector4<T>,
    pub y: Vector4<T>,
    pub z: Vector4<T>,
    pub w: Vector4<T>,
}

impl<T> View for RowMatrix4<T> {
    type V = Seq<Seq<T>>;

    /// The rows in storage order, each as the sequence of its entries.
    open spec fn view(&self) -> Seq<Seq<T>> {
        seq![self.x@, self.y@, self.z@, self.w@]
    }
}

impl<T> IntoMint for RowMatrix4<T> {
    type MintType = RowMatrix4<T>;
}

impl<T: Copy> vstd::std_specs::convert::FromSpecImpl<[[T; 4]; 4]> for RowMatrix4<T> {
    open spec fn obeys_from_spec() -> bool {
        true
    }

    open spec fn from_spec(a: [[T; 4]; 4]) -> Self {
        RowMatrix4 {
            x: Vector4 { x: a@[0]@[0], y: a@[0]@[1], z: a@[0]@[2], w: a@[0]@[3] },
            y: Vector4 { x: a@[1]@[0], y: a@[1]@[1], z: a@[1]@[2], w: a@[1]@[3] },
            z: Vector4 { x: a@[2]@[0], y: a@[2]@[1], z: a@[2]@[2], w: a@[2]@[3] },
            w: Vector4 { x: a@[3]@[0], y: a@[3]@[1], z: a@[3]@[2], w: a@[3]@[3] },
        }
    }
}

impl<T: Copy> From<[[T; 4]; 4]> for RowMatrix4<T> {
    /// Inner array `i` becomes row `i`.
    fn from(a: [[T; 4]; 4]) -> (m: Self)
        ensures
            m@ == grid(a),
    {
        let m = RowMatrix4 {
            x: Vector4::from(a[0]),
            y: Vector4::from(a[1]),
            z: Vector4::from(a[2]),
            w: Vector4::from(a[3]),
        };
        assert(m@ =~~= grid(a));
        m
    }
}

impl<T> vstd::std_specs::convert::FromSpecImpl<RowMatrix4<T>> for [[T; 4]; 4] {
    open spec fn obeys_from_spec() -> bool {
        true
    }

    open spec fn from_spec(m: RowMatrix4<T>) -> Self {
        [
            [m.x.x, m.x.y, m.x.z, m.x.w],
            [m.y.x, m.y.y, m.y.z, m.y.w],
            [m.z.x, m.z.y, m.z.z, m.z.w],
            [m.w.x, m.w.y, m.w.z, m.w.w],
        ]
    }
}

impl<T> From<RowMatrix4<T>> for [[T; 4]; 4] {
    /// Row `i` becomes inner array `i`.
    fn from(m: RowMatrix4<T>) -> (a: Self)
        ensures
            grid(a) == m@,
    {
        let a = [
            <[T; 4]>::from(m.x),
            <[T; 4]>::from(m.y),
            <[T; 4]>::from(m.z),
            <[T; 4]>::from(m.w),
        ];
        assert(grid(a) =~~= m@);
        a
    }
}

impl<T: Copy> vstd::std_specs::convert::FromSpecImpl<[T; 16]> for RowMatrix4<T> {
    open spec fn obeys_from_spec() -> bool {
        true
    }

    open spec fn from_spec(a: [T; 16]) -> Self {
        RowMatrix4 {
            x: Vector4 { x: a@[0], y: a@[1], z: a@[2], w: a@[3] },
            y: Vector4 { x: a@[4], y: a@[5], z: a@[6], w: a@[7] },
            z: Vector4 { x: a@[8], y: a@[9], z: a@[10], w: a@[11] },
            w: Vector4 { x: a@[12], y: a@[13], z: a@[14], w: a@[15] },
        }
    }
}

impl<T: Copy> From<[T; 16]> for RowMatrix4<T> {
    /// The array is cut into rows: its first 4 entries are the
    /// first row, the next 4 the second, and so on.
    fn from(a: [T; 16]) -> (m: Self)
        ensures
            m@ == lines(a@, 4),
            flat(m@) == a@,
    {
        let m = RowMatrix4 {
            x: Vector4 { x: a[0], y: a[1], z: a[2], w: a[3] },
            y: Vector4 { x: a[4], y: a[5], z: a[6], w: a[7] },
            z: Vector4 { x: a[8], y: a[9], z: a[10], w: a[11] },
            w: Vector4 { x: a[12], y: a[13], z: a[14], w: a[15] },
        };
        proof {
            assert(m@ =~~= lines(a@, 4));
            lemma_flat_of_lines(a@, 4);
        }
        m
    }
}

impl<T> vstd::std_specs::convert::FromSpecImpl<RowMatrix4<T>> for [T; 16] {
    open spec fn obeys_from_spec() -> bool {
        true
    }

    open spec fn from_spec(m: RowMatrix4<T>) -> Self {
        [
            m.x.x, m.x.y, m.x.z, m.x.w,
            m.y.x, m.y.y, m.y.z, m.y.w,
            m.z.x, m.z.y, m.z.z, m.z.w,
            m.w.x, m.w.y, m.w.z, m.w.w,
        ]
    }
}

impl<T> From<RowMatrix4<T>> for [T; 16] {
    /// The rows one after another, the first row first.
    fn from(m: RowMatrix4<T>) -> (a: Self)
        ensures
            a@ == flat(m@),
            lines(a@, 4) == m@,
    {
        let a = [
            m.x.x, m.x.y, m.x.z, m.x.w,
            m.y.x, m.y.y, m.y.z, m.y.w,
            m.z.x, m.z.y, m.z.z, m.z.w,
            m.w.x, m.w.y, m.w.z, m.w.w,
        ];
        proof {
            assert(lines(a@, 4) =~~= m@);
            lemma_flat_of_lines(a@, 4);
        }
        a
    }
}

impl<T> vstd::std_specs::convert::FromSpecImpl<ColumnMatrix4<T>> for RowMatrix4<T> {
    open spec fn obeys_from_spec() -> bool {
        true
    }

    open spec fn from_spec(m: ColumnMatrix4<T>) -> Self {
        RowMatrix4 {
            x: Vector4 { x: m.x.x, y: m.y.x, z: m.z.x, w: m.w.x },
            y: Vector4 { x: m.x.y, y: m.y.y, z: m.z.y, w: m.w.y },
            z: Vector4 { x: m.x.z, y: m.y.z, z: m.z.z, w: m.w.z },
            w: Vector4 { x: m.x.w, y: m.y.w, z: m.z.w, w: m.w.w },
        }
    }
}

impl<T> From<ColumnMatrix4<T>> for RowMatrix4<T> {
    /// The same matrix stored by rows: the entry in row `i` and
    /// column `j` stays in row `i` and column `j`.
    fn from(m: ColumnMatrix4<T>) -> (t: Self)
        ensures
            t@ == transpose(m@),
    {
        let t = RowMatrix4 {
            x: Vector4 { x: m.x.x, y: m.y.x, z: m.z.x, w: m.w.x },
            y: Vector4 { x: m.x.y, y: m.y.y, z: m.z.y, w: m.w.y },
            z: Vector4 { x: m.x.z, y: m.y.z, z: m.z.z, w: m.w.z },
            w: Vector4 { x: m.x.w, y: m.y.w, z: m.z.w, w: m.w.w },
        };
        assert(t@ =~~= transpose(m@));
        t
    }
}

impl<T: Copy> RowMatrix4<T> {
    /// Through the nested array form and back, every matrix is what it
    /// was.
    pub proof fn lemma_nested_round_trip(self)
        ensures
            Self::from_spec(<[[T; 4]; 4]>::from_spec(self)) == self,
    {
    }

    /// From a nested array and back, every array is what it was.
    pub proof fn lemma_nested_recovered(a: [[T; 4]; 4])
        ensures
            <[[T; 4]; 4]>::from_spec(Self::from_spec(a)) == a,
    {
        let b = <[[T; 4]; 4]>::from_spec(Self::from_spec(a));
        assert(b@[0] =~= a@[0]);
        assert(b@[1] =~= a@[1]);
        assert(b@[2] =~= a@[2]);
        assert(b@[3] =~= a@[3]);
        assert(b =~= a);
    }

    /// Through the flat array form and back, every matrix is what it was.
    pub proof fn lemma_flat_round_trip(self)
        ensures
            Self::from_spec(<[T; 16]>::from_spec(self)) == self,
    {
    }

    /// From a flat array and back, every array is what it was.
    pub proof fn lemma_flat_recovered(a: [T; 16])
        ensures
            <[T; 16]>::from_spec(Self::from_spec(a)) == a,
    {
        assert(<[T; 16]>::from_spec(Self::from_spec(a)) =~= a);
    }
}

impl<T> RowMatrix4<T> {
    /// The view has 4 lines of 4 entries.
    pub proof fn lemma_view_is_grid(self)
        ensures
            is_grid(self@, 4, 4),
    {
    }

    /// The view tells matrices apart: two with the same view are equal.
    pub proof fn lemma_view_injective(self, other: Self)
        requires
            self@ == other@,
        ensures
            self == other,
    {
        self.x.lemma_view_injective(other.x);
        assert(self@[0] == other@[0]);
        self.y.lemma_view_injective(other.y);
        assert(self@[1] == other@[1]);
        self.z.lemma_view_injective(other.z);
        assert(self@[2] == other@[2]);
        self.w.lemma_view_injective(other.w);
        assert(self@[3] == other@[3]);
    }

    /// The two array forms of a matrix hold the same entries, and each can
    /// be had from the other: the flat form is the nested form laid out
    /// flat, and the nested form is the flat form cut into lines.
    pub proof fn lemma_array_forms_agree(self)
        ensures
            <[T; 16]>::from_spec(self)@ == flat(grid(<[[T; 4]; 4]>::from_spec(self))),
            grid(<[[T; 4]; 4]>::from_spec(self)) == lines(<[T; 16]>::from_spec(self)@, 4),
    {
        let nested = <[[T; 4]; 4]>::from_spec(self);
        let flat_form = <[T; 16]>::from_spec(self);
        assert(grid(nested) =~~= self@);
        assert(lines(flat_form@, 4) =~~= self@);
        lemma_flat_of_lines(flat_form@, 4);
    }

    /// Stored by columns and then by rows again, every matrix is what
    /// it was.
    pub proof fn lemma_turn_round_trip(self)
        ensures
            Self::from_spec(ColumnMatrix4::<T>::from_spec(self)) == self,
    {
    }
}

} // verus!
