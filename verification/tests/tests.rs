use mint::{
    ColumnMatrix2, ColumnMatrix2x3, ColumnMatrix2x4, ColumnMatrix3, ColumnMatrix3x2,
    ColumnMatrix3x4, ColumnMatrix4, ColumnMatrix4x2, ColumnMatrix4x3,
};
use mint::{EulerAngles, Point2, Point3, Quaternion, Vector2, Vector3, Vector4};
use mint::{
    RowMatrix2, RowMatrix2x3, RowMatrix2x4, RowMatrix3, RowMatrix3x2, RowMatrix3x4, RowMatrix4,
    RowMatrix4x2, RowMatrix4x3,
};

#[test]
fn vector() {
    {
        let v1 = Vector2 { x: 1, y: 3 };
        let a: [i32; 2] = v1.into();
        let v2 = Vector2::from(a);
        assert_eq!(v1, v2);
        assert_eq!(a, [1, 3]);
    }
    {
        let v1 = Vector3 { x: 1, y: 3, z: 5 };
        let a: [i32; 3] = v1.into();
        let v2 = Vector3::from(a);
        assert_eq!(v1, v2);
        assert_eq!(a, [1, 3, 5]);
    }
    {
        let v1 = Vector4 { x: 1, y: 3, z: 5, w: 7 };
        let a: [i32; 4] = v1.into();
        let v2 = Vector4::from(a);
        assert_eq!(v1, v2);
        assert_eq!(a, [1, 3, 5, 7]);
    }
    {
        let v1 = Point2 { x: 1, y: 3 };
        let a: [i32; 2] = v1.into();
        let v2 = Point2::from(a);
        assert_eq!(v1, v2);
        assert_eq!(a, [1, 3]);
    }
    {
        let v1 = Point3 { x: 1, y: 3, z: 5 };
        let a: [i32; 3] = v1.into();
        let v2 = Point3::from(a);
        assert_eq!(v1, v2);
        assert_eq!(a, [1, 3, 5]);
    }
    {
        let v1 = Point2 { x: 1, y: 3 };
        let a: Vector2<i32> = v1.into();
        let v2 = Point2::from(a);
        assert_eq!(v1, v2);
        assert_eq!(a, Vector2 { x: 1, y: 3 });
    }
    {
        let v1 = Point3 { x: 1, y: 3, z: 5 };
        let a: Vector3<i32> = v1.into();
        let v2 = Point3::from(a);
        assert_eq!(v1, v2);
        assert_eq!(a, Vector3 { x: 1, y: 3, z: 5 });
    }
}

#[test]
fn rotation() {
    {
        let v1 = Quaternion { s: 1, v: Vector3 { x: 1, y: 3, z: 5 } };
        let a: [i32; 4] = v1.into();
        let v2 = Quaternion::from(a);
        assert_eq!(v1, v2);
    }
    let a1: [i32; 3] = [1, 3, 5];
    let e: EulerAngles<_, mint::ExtraXYZ> = EulerAngles::from(a1);
    let a2: [i32; 3] = e.into();
    assert_eq!(a1, a2);
}

#[test]
fn row_matrix() {
    {
        let v1 = RowMatrix2 {
            x: Vector2::from([1, 2]),
            y: Vector2::from([3, 4]),
        };
        let a: [[i32; 2]; 2] = v1.into();
        let v2 = RowMatrix2::from(a);
        assert_eq!(v1, v2);
        assert_eq!(a, [[1, 2], [3, 4]]);
    }
    {
        let v1 = RowMatrix2 {
            x: Vector2::from([1, 2]),
            y: Vector2::from([3, 4]),
        };
        let a: [i32; 4] = v1.into();
        let v2 = RowMatrix2::from(a);
        assert_eq!(v1, v2);
        assert_eq!(a, [1, 2, 3, 4]);
    }
    {
        let v1 = RowMatrix2x3 {
            x: Vector3::from([1, 2, 3]),
            y: Vector3::from([4, 5, 6]),
        };
        let a: [[i32; 3]; 2] = v1.into();
        let v2 = RowMatrix2x3::from(a);
        assert_eq!(v1, v2);
        assert_eq!(a, [[1, 2, 3], [4, 5, 6]]);
    }
    {
        let v1 = RowMatrix2x3 {
            x: Vector3::from([1, 2, 3]),
            y: Vector3::from([4, 5, 6]),
        };
        let a: [i32; 6] = v1.into();
        let v2 = RowMatrix2x3::from(a);
        assert_eq!(v1, v2);
        assert_eq!(a, [1, 2, 3, 4, 5, 6]);
    }
    {
        let v1 = RowMatrix2x4 {
            x: Vector4::from([1, 2, 3, 4]),
            y: Vector4::from([5, 6, 7, 8]),
        };
        let a: [[i32; 4]; 2] = v1.into();
        let v2 = RowMatrix2x4::from(a);
        assert_eq!(v1, v2);
        assert_eq!(a, [[1, 2, 3, 4], [5, 6, 7, 8]]);
    }
    {
        let v1 = RowMatrix2x4 {
            x: Vector4::from([1, 2, 3, 4]),
            y: Vector4::from([5, 6, 7, 8]),
        };
        let a: [i32; 8] = v1.into();
        let v2 = RowMatrix2x4::from(a);
        assert_eq!(v1, v2);
        assert_eq!(a, [1, 2, 3, 4, 5, 6, 7, 8]);
    }
    {
        let v1 = RowMatrix3x2 {
            x: Vector2::from([1, 2]),
            y: Vector2::from([3, 4]),
            z: Vector2::from([5, 6]),
        };
        let a: [[i32; 2]; 3] = v1.into();
        let v2 = RowMatrix3x2::from(a);
        assert_eq!(v1, v2);
        assert_eq!(a, [[1, 2], [3, 4], [5, 6]]);
    }
    {
        let v1 = RowMatrix3x2 {
            x: Vector2::from([1, 2]),
            y: Vector2::from([3, 4]),
            z: Vector2::from([5, 6]),
        };
        let a: [i32; 6] = v1.into();
        let v2 = RowMatrix3x2::from(a);
        assert_eq!(v1, v2);
        assert_eq!(a, [1, 2, 3, 4, 5, 6]);
    }
    {
        let v1 = RowMatrix3 {
            x: Vector3::from([1, 2, 3]),
            y: Vector3::from([4, 5, 6]),
            z: Vector3::from([7, 8, 9]),
        };
        let a: [[i32; 3]; 3] = v1.into();
        let v2 = RowMatrix3::from(a);
        assert_eq!(v1, v2);
        assert_eq!(a, [[1, 2, 3], [4, 5, 6], [7, 8, 9]]);
    }
    {
        let v1 = RowMatrix3 {
            x: Vector3::from([1, 2, 3]),
            y: Vector3::from([4, 5, 6]),
            z: Vector3::from([7, 8, 9]),
        };
        let a: [i32; 9] = v1.into();
        let v2 = RowMatrix3::from(a);
        assert_eq!(v1, v2);
        assert_eq!(a, [1, 2, 3, 4, 5, 6, 7, 8, 9]);
    }
    {
        let v1 = RowMatrix3x4 {
            x: Vector4::from([1, 2, 3, 4]),
            y: Vector4::from([5, 6, 7, 8]),
            z: Vector4::from([9, 10, 11, 12]),
        };
        let a: [[i32; 4]; 3] = v1.into();
        let v2 = RowMatrix3x4::from(a);
        assert_eq!(v1, v2);
        assert_eq!(a, [[1, 2, 3, 4], [5, 6, 7, 8], [9, 10, 11, 12]]);
    }
    {
        let v1 = RowMatrix3x4 {
            x: Vector4::from([1, 2, 3, 4]),
            y: Vector4::from([5, 6, 7, 8]),
            z: Vector4::from([9, 10, 11, 12]),
        };
        let a: [i32; 12] = v1.into();
        let v2 = RowMatrix3x4::from(a);
        assert_eq!(v1, v2);
        assert_eq!(a, [1, 2, 3, 4, 5, 6, 7, 8, 9, 10, 11, 12]);
    }
    {
        let v1 = RowMatrix4x2 {
            x: Vector2::from([1, 2]),
            y: Vector2::from([3, 4]),
            z: Vector2::from([5, 6]),
            w: Vector2::from([7, 8]),
        };
        let a: [[i32; 2]; 4] = v1.into();
        let v2 = RowMatrix4x2::from(a);
        assert_eq!(v1, v2);
        assert_eq!(a, [[1, 2], [3, 4], [5, 6], [7, 8]]);
    }
    {
        let v1 = RowMatrix4x2 {
            x: Vector2::from([1, 2]),
            y: Vector2::from([3, 4]),
            z: Vector2::from([5, 6]),
            w: Vector2::from([7, 8]),
        };
        let a: [i32; 8] = v1.into();
        let v2 = RowMatrix4x2::from(a);
        assert_eq!(v1, v2);
        assert_eq!(a, [1, 2, 3, 4, 5, 6, 7, 8]);
    }
    {
        let v1 = RowMatrix4x3 {
            x: Vector3::from([1, 2, 3]),
            y: Vector3::from([4, 5, 6]),
            z: Vector3::from([7, 8, 9]),
            w: Vector3::from([10, 11, 12]),
        };
        let a: [[i32; 3]; 4] = v1.into();
        let v2 = RowMatrix4x3::from(a);
        assert_eq!(v1, v2);
        assert_eq!(a, [[1, 2, 3], [4, 5, 6], [7, 8, 9], [10, 11, 12]]);
    }
    {
        let v1 = RowMatrix4x3 {
            x: Vector3::from([1, 2, 3]),
            y: Vector3::from([4, 5, 6]),
            z: Vector3::from([7, 8, 9]),
            w: Vector3::from([10, 11, 12]),
        };
        let a: [i32; 12] = v1.into();
        let v2 = RowMatrix4x3::from(a);
        assert_eq!(v1, v2);
        assert_eq!(a, [1, 2, 3, 4, 5, 6, 7, 8, 9, 10, 11, 12]);
    }
    {
        let v1 = RowMatrix4 {
            x: Vector4::from([1, 2, 3, 4]),
            y: Vector4::from([5, 6, 7, 8]),
            z: Vector4::from([9, 10, 11, 12]),
            w: Vector4::from([13, 14, 15, 16]),
        };
        let a: [[i32; 4]; 4] = v1.into();
        let v2 = RowMatrix4::from(a);
        assert_eq!(v1, v2);
        assert_eq!(a, [[1, 2, 3, 4], [5, 6, 7, 8], [9, 10, 11, 12], [13, 14, 15, 16]]);
    }
    {
        let v1 = RowMatrix4 {
            x: Vector4::from([1, 2, 3, 4]),
            y: Vector4::from([5, 6, 7, 8]),
            z: Vector4::from([9, 10, 11, 12]),
            w: Vector4::from([13, 14, 15, 16]),
        };
        let a: [i32; 16] = v1.into();
        let v2 = RowMatrix4::from(a);
        assert_eq!(v1, v2);
        assert_eq!(a, [1, 2, 3, 4, 5, 6, 7, 8, 9, 10, 11, 12, 13, 14, 15, 16]);
    }
}

#[test]
fn column_matrix() {
    {
        let v1 = ColumnMatrix2 {
            x: Vector2::from([1, 2]),
            y: Vector2::from([3, 4]),
        };
        let a: [[i32; 2]; 2] = v1.into();
        let v2 = ColumnMatrix2::from(a);
        assert_eq!(v1, v2);
        assert_eq!(a, [[1, 2], [3, 4]]);
    }
    {
        let v1 = ColumnMatrix2 {
            x: Vector2::from([1, 2]),
            y: Vector2::from([3, 4]),
        };
        let a: [i32; 4] = v1.into();
        let v2 = ColumnMatrix2::from(a);
        assert_eq!(v1, v2);
        assert_eq!(a, [1, 2, 3, 4]);
    }
    {
        let v1 = ColumnMatrix2x3 {
            x: Vector2::from([1, 2]),
            y: Vector2::from([3, 4]),
            z: Vector2::from([5, 6]),
        };
        let a: [[i32; 2]; 3] = v1.into();
        let v2 = ColumnMatrix2x3::from(a);
        assert_eq!(v1, v2);
        assert_eq!(a, [[1, 2], [3, 4], [5, 6]]);
    }
    {
        let v1 = ColumnMatrix2x3 {
            x: Vector2::from([1, 2]),
            y: Vector2::from([3, 4]),
            z: Vector2::from([5, 6]),
        };
        let a: [i32; 6] = v1.into();
        let v2 = ColumnMatrix2x3::from(a);
        assert_eq!(v1, v2);
        assert_eq!(a, [1, 2, 3, 4, 5, 6]);
    }
    {
        let v1 = ColumnMatrix2x4 {
            x: Vector2::from([1, 2]),
            y: Vector2::from([3, 4]),
            z: Vector2::from([5, 6]),
            w: Vector2::from([7, 8]),
        };
        let a: [[i32; 2]; 4] = v1.into();
        let v2 = ColumnMatrix2x4::from(a);
        assert_eq!(v1, v2);
        assert_eq!(a, [[1, 2], [3, 4], [5, 6], [7, 8]]);
    }
    {
        let v1 = ColumnMatrix2x4 {
            x: Vector2::from([1, 2]),
            y: Vector2::from([3, 4]),
            z: Vector2::from([5, 6]),
            w: Vector2::from([7, 8]),
        };
        let a: [i32; 8] = v1.into();
        let v2 = ColumnMatrix2x4::from(a);
        assert_eq!(v1, v2);
        assert_eq!(a, [1, 2, 3, 4, 5, 6, 7, 8]);
    }
    {
        let v1 = ColumnMatrix3x2 {
            x: Vector3::from([1, 2, 3]),
            y: Vector3::from([4, 5, 6]),
        };
        let a: [[i32; 3]; 2] = v1.into();
        let v2 = ColumnMatrix3x2::from(a);
        assert_eq!(v1, v2);
        assert_eq!(a, [[1, 2, 3], [4, 5, 6]]);
    }
    {
        let v1 = ColumnMatrix3x2 {
            x: Vector3::from([1, 2, 3]),
            y: Vector3::from([4, 5, 6]),
        };
        let a: [i32; 6] = v1.into();
        let v2 = ColumnMatrix3x2::from(a);
        assert_eq!(v1, v2);
        assert_eq!(a, [1, 2, 3, 4, 5, 6]);
    }
    {
        let v1 = ColumnMatrix3 {
            x: Vector3::from([1, 2, 3]),
            y: Vector3::from([4, 5, 6]),
            z: Vector3::from([7, 8, 9]),
        };
        let a: [[i32; 3]; 3] = v1.into();
        let v2 = ColumnMatrix3::from(a);
        assert_eq!(v1, v2);
        assert_eq!(a, [[1, 2, 3], [4, 5, 6], [7, 8, 9]]);
    }
    {
        let v1 = ColumnMatrix3 {
            x: Vector3::from([1, 2, 3]),
            y: Vector3::from([4, 5, 6]),
            z: Vector3::from([7, 8, 9]),
        };
        let a: [i32; 9] = v1.into();
        let v2 = ColumnMatrix3::from(a);
        assert_eq!(v1, v2);
        assert_eq!(a, [1, 2, 3, 4, 5, 6, 7, 8, 9]);
    }
    {
        let v1 = ColumnMatrix3x4 {
            x: Vector3::from([1, 2, 3]),
            y: Vector3::from([4, 5, 6]),
            z: Vector3::from([7, 8, 9]),
            w: Vector3::from([10, 11, 12]),
        };
        let a: [[i32; 3]; 4] = v1.into();
        let v2 = ColumnMatrix3x4::from(a);
        assert_eq!(v1, v2);
        assert_eq!(a, [[1, 2, 3], [4, 5, 6], [7, 8, 9], [10, 11, 12]]);
    }
    {
        let v1 = ColumnMatrix3x4 {
            x: Vector3::from([1, 2, 3]),
            y: Vector3::from([4, 5, 6]),
            z: Vector3::from([7, 8, 9]),
            w: Vector3::from([10, 11, 12]),
        };
        let a: [i32; 12] = v1.into();
        let v2 = ColumnMatrix3x4::from(a);
        assert_eq!(v1, v2);
        assert_eq!(a, [1, 2, 3, 4, 5, 6, 7, 8, 9, 10, 11, 12]);
    }
    {
        let v1 = ColumnMatrix4x2 {
            x: Vector4::from([1, 2, 3, 4]),
            y: Vector4::from([5, 6, 7, 8]),
        };
        let a: [[i32; 4]; 2] = v1.into();
        let v2 = ColumnMatrix4x2::from(a);
        assert_eq!(v1, v2);
        assert_eq!(a, [[1, 2, 3, 4], [5, 6, 7, 8]]);
    }
    {
        let v1 = ColumnMatrix4x2 {
            x: Vector4::from([1, 2, 3, 4]),
            y: Vector4::from([5, 6, 7, 8]),
        };
        let a: [i32; 8] = v1.into();
        let v2 = ColumnMatrix4x2::from(a);
        assert_eq!(v1, v2);
        assert_eq!(a, [1, 2, 3, 4, 5, 6, 7, 8]);
    }
    {
        let v1 = ColumnMatrix4x3 {
            x: Vector4::from([1, 2, 3, 4]),
            y: Vector4::from([5, 6, 7, 8]),
            z: Vector4::from([9, 10, 11, 12]),
        };
        let a: [[i32; 4]; 3] = v1.into();
        let v2 = ColumnMatrix4x3::from(a);
        assert_eq!(v1, v2);
        assert_eq!(a, [[1, 2, 3, 4], [5, 6, 7, 8], [9, 10, 11, 12]]);
    }
    {
        let v1 = ColumnMatrix4x3 {
            x: Vector4::from([1, 2, 3, 4]),
            y: Vector4::from([5, 6, 7, 8]),
            z: Vector4::from([9, 10, 11, 12]),
        };
        let a: [i32; 12] = v1.into();
        let v2 = ColumnMatrix4x3::from(a);
        assert_eq!(v1, v2);
        assert_eq!(a, [1, 2, 3, 4, 5, 6, 7, 8, 9, 10, 11, 12]);
    }
    {
        let v1 = ColumnMatrix4 {
            x: Vector4::from([1, 2, 3, 4]),
            y: Vector4::from([5, 6, 7, 8]),
            z: Vector4::from([9, 10, 11, 12]),
            w: Vector4::from([13, 14, 15, 16]),
        };
        let a: [[i32; 4]; 4] = v1.into();
        let v2 = ColumnMatrix4::from(a);
        assert_eq!(v1, v2);
        assert_eq!(a, [[1, 2, 3, 4], [5, 6, 7, 8], [9, 10, 11, 12], [13, 14, 15, 16]]);
    }
    {
        let v1 = ColumnMatrix4 {
            x: Vector4::from([1, 2, 3, 4]),
            y: Vector4::from([5, 6, 7, 8]),
            z: Vector4::from([9, 10, 11, 12]),
            w: Vector4::from([13, 14, 15, 16]),
        };
        let a: [i32; 16] = v1.into();
        let v2 = ColumnMatrix4::from(a);
        assert_eq!(v1, v2);
        assert_eq!(a, [1, 2, 3, 4, 5, 6, 7, 8, 9, 10, 11, 12, 13, 14, 15, 16]);
    }
}

#[test]
fn turn() {
    {
        let transposed = [[1, 3], [2, 4]];
        let m1 = RowMatrix2::from([[1, 2], [3, 4]]);
        let m2: ColumnMatrix2<_> = m1.into();
        assert_eq!(m1, RowMatrix2::from(m2));
        assert_eq!(m2, ColumnMatrix2::from(transposed));
    }
    {
        let transposed = [[1, 2], [3, 4], [5, 6]];
        let m1 = RowMatrix2x3::from([[1, 3, 5], [2, 4, 6]]);
        let m2: ColumnMatrix2x3<_> = m1.into();
        assert_eq!(m1, RowMatrix2x3::from(m2));
        assert_eq!(m2, ColumnMatrix2x3::from(transposed));
    }
    {
        let transposed = [[1, 2], [3, 4], [5, 6], [7, 8]];
        let m1 = RowMatrix2x4::from([[1, 3, 5, 7], [2, 4, 6, 8]]);
        let m2: ColumnMatrix2x4<_> = m1.into();
        assert_eq!(m1, RowMatrix2x4::from(m2));
        assert_eq!(m2, ColumnMatrix2x4::from(transposed));
    }
    {
        let transposed = [[1, 3, 5], [2, 4, 6]];
        let m1 = RowMatrix3x2::from([[1, 2], [3, 4], [5, 6]]);
        let m2: ColumnMatrix3x2<_> = m1.into();
        assert_eq!(m1, RowMatrix3x2::from(m2));
        assert_eq!(m2, ColumnMatrix3x2::from(transposed));
    }
    {
        let transposed = [[1, 4, 7], [2, 5, 8], [3, 6, 9]];
        let m1 = RowMatrix3::from([[1, 2, 3], [4, 5, 6], [7, 8, 9]]);
        let m2: ColumnMatrix3<_> = m1.into();
        assert_eq!(m1, RowMatrix3::from(m2));
        assert_eq!(m2, ColumnMatrix3::from(transposed));
    }
    {
        let transposed = [[1, 2, 3], [4, 5, 6], [7, 8, 9], [10, 11, 12]];
        let m1 = RowMatrix3x4::from([[1, 4, 7, 10], [2, 5, 8, 11], [3, 6, 9, 12]]);
        let m2: ColumnMatrix3x4<_> = m1.into();
        assert_eq!(m1, RowMatrix3x4::from(m2));
        assert_eq!(m2, ColumnMatrix3x4::from(transposed));
    }
    {
        let transposed = [[1, 3, 5, 7], [2, 4, 6, 8]];
        let m1 = RowMatrix4x2::from([[1, 2], [3, 4], [5, 6], [7, 8]]);
        let m2: ColumnMatrix4x2<_> = m1.into();
        assert_eq!(m1, RowMatrix4x2::from(m2));
        assert_eq!(m2, ColumnMatrix4x2::from(transposed));
    }
    {
        let transposed = [[1, 4, 7, 10], [2, 5, 8, 11], [3, 6, 9, 12]];
        let m1 = RowMatrix4x3::from([[1, 2, 3], [4, 5, 6], [7, 8, 9], [10, 11, 12]]);
        let m2: ColumnMatrix4x3<_> = m1.into();
        assert_eq!(m1, RowMatrix4x3::from(m2));
        assert_eq!(m2, ColumnMatrix4x3::from(transposed));
    }
    {
        let transposed = [[1, 5, 9, 13], [2, 6, 10, 14], [3, 7, 11, 15], [4, 8, 12, 16]];
        let m1 = RowMatrix4::from([[1, 2, 3, 4], [5, 6, 7, 8], [9, 10, 11, 12], [13, 14, 15, 16]]);
        let m2: ColumnMatrix4<_> = m1.into();
        assert_eq!(m1, RowMatrix4::from(m2));
        assert_eq!(m2, ColumnMatrix4::from(transposed));
    }
}

#[test]
fn vector_from_slice_success() {
    let v = Vector3::from_slice(&[0.0f32, 1.0, 2.0, 3.0]);
    assert_eq!(
        v,
        Ok(Vector3 {
            x: 0.0,
            y: 1.0,
            z: 2.0
        })
    );
}

#[test]
#[should_panic(expected = "Missing y-axis in slice.")]
fn vector_from_slice_fail() {
    let _ = match Vector4::from_slice(&[0.0]) {
        Ok(v) => v,
        Err(e) => panic!("{}", e.message()),
    };
}

#[test]
fn quaternion_layout() {
    let q = Quaternion {
        v: Vector3::from([0, 1, 2]),
        s: 3,
    };
    let expected = [0, 1, 2, 3];

    let a: [i32; 4] = q.into();
    assert_eq!(a, expected);
}
