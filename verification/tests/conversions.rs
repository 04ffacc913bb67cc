use mint::{
    Axis, ColumnMatrix2x3, ColumnMatrix3, ColumnMatrix4x2, EulerAngles, ExtraXYZ, ExtraZXZ,
    ExtraZYX, IntoMint, IntraXYZ, IntraZXZ, IntraZYX, Point2, Point3, Quaternion, RowMatrix2x3,
    RowMatrix3, RowMatrix4x2, SliceTooShort, Vector2, Vector3, Vector4,
};

#[test]
fn vector_components_follow_array_order() {
    let v = Vector4::from([10u8, 20, 30, 40]);
    assert_eq!(v, Vector4 { x: 10, y: 20, z: 30, w: 40 });
    let p = Point3::from([7i64, 8, 9]);
    assert_eq!(p, Point3 { x: 7, y: 8, z: 9 });
}

#[test]
fn vector_round_trip_from_array() {
    let a = [3u16, 1, 2];
    let back: [u16; 3] = Vector3::from(a).into();
    assert_eq!(back, a);
    let b = [5i8, -6];
    let back: [i8; 2] = Point2::from(b).into();
    assert_eq!(back, b);
}

#[test]
fn point_and_vector_share_components() {
    let p = Point3 { x: 1.5f64, y: -2.0, z: 0.25 };
    let v: Vector3<f64> = p.into();
    assert_eq!(v, Vector3 { x: 1.5, y: -2.0, z: 0.25 });
    let q: Point3<f64> = v.into();
    assert_eq!(q, p);
    let w = Vector2 { x: 4u32, y: 9 };
    let r: Point2<u32> = w.into();
    assert_eq!(r, Point2 { x: 4, y: 9 });
    assert_eq!(Vector2::from(r), w);
}

#[test]
fn from_slice_takes_exactly_the_needed_entries() {
    assert_eq!(Vector2::from_slice(&[1, 2]), Ok(Vector2 { x: 1, y: 2 }));
    assert_eq!(Vector3::from_slice(&[1, 2, 3]), Ok(Vector3 { x: 1, y: 2, z: 3 }));
    assert_eq!(
        Vector4::from_slice(&[1, 2, 3, 4, 5, 6]),
        Ok(Vector4 { x: 1, y: 2, z: 3, w: 4 })
    );
    assert_eq!(Point2::from_slice(&[8, 9, 10]), Ok(Point2 { x: 8, y: 9 }));
    assert_eq!(Point3::from_slice(&[8, 9, 10]), Ok(Point3 { x: 8, y: 9, z: 10 }));
}

#[test]
fn from_slice_names_the_first_missing_component() {
    let none: [i32; 0] = [];
    assert_eq!(Vector2::from_slice(&none), Err(SliceTooShort { missing: Axis::X }));
    assert_eq!(Vector2::from_slice(&[1]), Err(SliceTooShort { missing: Axis::Y }));
    assert_eq!(Vector3::from_slice(&none), Err(SliceTooShort { missing: Axis::X }));
    assert_eq!(Vector3::from_slice(&[1, 2]), Err(SliceTooShort { missing: Axis::Z }));
    assert_eq!(Vector4::from_slice(&[0.0]), Err(SliceTooShort { missing: Axis::Y }));
    assert_eq!(Vector4::from_slice(&[1, 2]), Err(SliceTooShort { missing: Axis::Z }));
    assert_eq!(Vector4::from_slice(&[1, 2, 3]), Err(SliceTooShort { missing: Axis::W }));
    assert_eq!(Point2::from_slice(&[1]), Err(SliceTooShort { missing: Axis::Y }));
    assert_eq!(Point3::from_slice(&[1]), Err(SliceTooShort { missing: Axis::Y }));
}

#[test]
fn slice_error_message_names_the_component() {
    assert_eq!(SliceTooShort { missing: Axis::X }.message(), "Missing x-axis in slice.");
    assert_eq!(SliceTooShort { missing: Axis::Y }.message(), "Missing y-axis in slice.");
    assert_eq!(SliceTooShort { missing: Axis::Z }.message(), "Missing z-axis in slice.");
    assert_eq!(SliceTooShort { missing: Axis::W }.message(), "Missing w-axis in slice.");
}

#[test]
fn quaternion_is_vector_then_scalar() {
    let q = Quaternion::from([1, 2, 3, 4]);
    assert_eq!(q.v, Vector3 { x: 1, y: 2, z: 3 });
    assert_eq!(q.s, 4);
    let a: [i32; 4] = Quaternion { v: Vector3 { x: 9, y: 8, z: 7 }, s: 6 }.into();
    assert_eq!(a, [9, 8, 7, 6]);
}

#[test]
fn euler_angles_keep_array_order() {
    let e: EulerAngles<i32, IntraZXZ> = EulerAngles::from([1, 3, 5]);
    assert_eq!((e.a, e.b, e.c), (1, 3, 5));
    let a: [i32; 3] = e.into();
    assert_eq!(a, [1, 3, 5]);
}

#[test]
fn euler_mirror_reverses_the_angles() {
    let e: EulerAngles<i32, IntraXYZ> = EulerAngles::from([1, 3, 5]);
    let m: EulerAngles<i32, ExtraZYX> = e.into();
    assert_eq!(<[i32; 3]>::from(m), [5, 3, 1]);
    let e: EulerAngles<i32, IntraZXZ> = EulerAngles::from([1, 3, 5]);
    let m: EulerAngles<i32, ExtraZXZ> = e.into();
    assert_eq!(<[i32; 3]>::from(m), [5, 3, 1]);
    let e: EulerAngles<i32, IntraZYX> = EulerAngles::from([1, 3, 5]);
    let m: EulerAngles<i32, ExtraXYZ> = e.into();
    assert_eq!(<[i32; 3]>::from(m), [5, 3, 1]);
    let e: EulerAngles<i32, ExtraZYX> = EulerAngles::from([2, 4, 6]);
    let m: EulerAngles<i32, IntraXYZ> = e.into();
    assert_eq!(<[i32; 3]>::from(m), [6, 4, 2]);
    let e: EulerAngles<i32, ExtraZXZ> = EulerAngles::from([2, 4, 6]);
    let m: EulerAngles<i32, IntraZXZ> = e.into();
    assert_eq!(<[i32; 3]>::from(m), [6, 4, 2]);
    let e: EulerAngles<i32, ExtraXYZ> = EulerAngles::from([2, 4, 6]);
    let m: EulerAngles<i32, IntraZYX> = e.into();
    assert_eq!(<[i32; 3]>::from(m), [6, 4, 2]);
}

#[test]
fn euler_mirror_round_trip() {
    let e: EulerAngles<f32, IntraXYZ> = EulerAngles::from([0.5, -400.0, 7.25]);
    let there: EulerAngles<f32, ExtraZYX> = e.into();
    let back: EulerAngles<f32, IntraXYZ> = there.into();
    assert_eq!(back, e);
    let e: EulerAngles<i32, ExtraZXZ> = EulerAngles::from([1, 2, 3]);
    let there: EulerAngles<i32, IntraZXZ> = e.into();
    let back: EulerAngles<i32, ExtraZXZ> = there.into();
    assert_eq!(back, e);
    let e: EulerAngles<i32, IntraZYX> = EulerAngles::from([1, 2, 3]);
    let there: EulerAngles<i32, ExtraXYZ> = e.into();
    let back: EulerAngles<i32, IntraZYX> = there.into();
    assert_eq!(back, e);
}

#[test]
fn matrix_fields_follow_nested_array() {
    let m = RowMatrix2x3::from([[1, 2, 3], [4, 5, 6]]);
    assert_eq!(m.x, Vector3 { x: 1, y: 2, z: 3 });
    assert_eq!(m.y, Vector3 { x: 4, y: 5, z: 6 });
    let c = ColumnMatrix2x3::from([[1, 2], [3, 4], [5, 6]]);
    assert_eq!(c.x, Vector2 { x: 1, y: 2 });
    assert_eq!(c.y, Vector2 { x: 3, y: 4 });
    assert_eq!(c.z, Vector2 { x: 5, y: 6 });
}

#[test]
fn matrix_flat_form_is_field_after_field() {
    let m = RowMatrix2x3::from([10, 20, 30, 40, 50, 60]);
    assert_eq!(m, RowMatrix2x3::from([[10, 20, 30], [40, 50, 60]]));
    let flat: [i32; 6] = m.into();
    assert_eq!(flat, [10, 20, 30, 40, 50, 60]);
    let c = ColumnMatrix4x2::from([1, 2, 3, 4, 5, 6, 7, 8]);
    assert_eq!(c.x, Vector4 { x: 1, y: 2, z: 3, w: 4 });
    assert_eq!(c.y, Vector4 { x: 5, y: 6, z: 7, w: 8 });
    let nested: [[i32; 4]; 2] = c.into();
    assert_eq!(nested, [[1, 2, 3, 4], [5, 6, 7, 8]]);
}

#[test]
fn matrix_array_round_trip_from_array() {
    let nested = [[1u8, 2], [3, 4], [5, 6], [7, 8]];
    let back: [[u8; 2]; 4] = RowMatrix4x2::from(nested).into();
    assert_eq!(back, nested);
    let flat = [9u8, 8, 7, 6, 5, 4, 3, 2, 1];
    let back: [u8; 9] = ColumnMatrix3::from(flat).into();
    assert_eq!(back, flat);
}

#[test]
fn turn_keeps_entries_in_place() {
    let rows = RowMatrix3::from([[1, 2, 3], [4, 5, 6], [7, 8, 9]]);
    let columns: ColumnMatrix3<i32> = rows.into();
    assert_eq!(columns, ColumnMatrix3::from([[1, 4, 7], [2, 5, 8], [3, 6, 9]]));
    assert_eq!(columns.y.x, rows.x.y);
    assert_eq!(columns.z.y, rows.y.z);
    assert_eq!(RowMatrix3::from(columns), rows);
}

#[test]
fn turn_round_trip_from_columns() {
    let columns = ColumnMatrix2x3::from([[1, 2], [3, 4], [5, 6]]);
    let rows: RowMatrix2x3<i32> = columns.into();
    assert_eq!(rows, RowMatrix2x3::from([[1, 3, 5], [2, 4, 6]]));
    assert_eq!(ColumnMatrix2x3::from(rows), columns);
}

#[derive(Clone, Copy, Debug, PartialEq)]
struct Velocity {
    east: f32,
    north: f32,
    up: f32,
}

impl From<Velocity> for Vector3<f32> {
    fn from(v: Velocity) -> Self {
        Vector3 { x: v.east, y: v.north, z: v.up }
    }
}

impl IntoMint for Velocity {
    type MintType = Vector3<f32>;
}

fn length_squared<V: IntoMint<MintType = Vector3<f32>>>(v: V) -> f32 {
    let v: Vector3<f32> = v.into();
    v.x * v.x + v.y * v.y + v.z * v.z
}

#[test]
fn into_mint_links_a_foreign_type() {
    let v = Velocity { east: 1.0, north: 2.0, up: 2.0 };
    assert_eq!(length_squared(v), 9.0);
    assert_eq!(length_squared(Vector3 { x: 3.0, y: 0.0, z: 4.0 }), 25.0);
}

fn as_itself<V: IntoMint<MintType = V>>(v: V) -> V {
    v.into()
}

#[test]
fn into_mint_is_reflexive() {
    let v = Vector4 { x: 1, y: 2, z: 3, w: 4 };
    assert_eq!(as_itself(v), v);
    let p = Point2 { x: 1, y: 2 };
    assert_eq!(as_itself(p), p);
    let q = Quaternion::from([1, 2, 3, 4]);
    assert_eq!(as_itself(q), q);
    let e: EulerAngles<i32, ExtraXYZ> = EulerAngles::from([1, 2, 3]);
    assert_eq!(as_itself(e), e);
    let m = RowMatrix4x2::from([[1, 2], [3, 4], [5, 6], [7, 8]]);
    assert_eq!(as_itself(m), m);
    let c = ColumnMatrix3::from([1, 2, 3, 4, 5, 6, 7, 8, 9]);
    assert_eq!(as_itself(c), c);
}

#[test]
fn euler_angles_copy_and_clone_keep_the_angles() {
    let e: EulerAngles<i32, IntraZYX> = EulerAngles::from([7, 8, 9]);
    let copied = e;
    let cloned = e.clone();
    assert_eq!(copied, e);
    assert_eq!(<[i32; 3]>::from(cloned), [7, 8, 9]);
}
