//! Plain data types for exchanging vectors, points, matrices and rotations
//! between math libraries, with the conversions between each type and its
//! array forms. The types hold values and do no arithmetic.
pub mod into_mint;
pub mod layout;
pub mod matrix;
pub mod rotation;
pub mod vector;

pub use into_mint::IntoMint;
pub use matrix::column::{
    ColumnMatrix2, ColumnMatrix2x3, ColumnMatrix2x4, ColumnMatrix3, ColumnMatrix3x2,
    ColumnMatrix3x4, ColumnMatrix4, ColumnMatrix4x2, ColumnMatrix4x3,
};
pub use matrix::row::{
    RowMatrix2, RowMatrix2x3, RowMatrix2x4, RowMatrix3, RowMatrix3x2, RowMatrix3x4, RowMatrix4,
    RowMatrix4x2, RowMatrix4x3,
};
pub use rotation::{
    EulerAngles, ExtraXYZ, ExtraZXZ, ExtraZYX, IntraXYZ, IntraZXZ, IntraZYX, Quaternion,
};
pub use vector::{Axis, Point2, Point3, SliceTooShort, Vector2, Vector3, Vector4};
