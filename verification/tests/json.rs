use mint::{ColumnMatrix2x3, EulerAngles, IntraXYZ, Quaternion, RowMatrix2, Vector3};

#[test]
fn vector_array_form_as_json() {
    let v = Vector3 { x: 1, y: 2, z: 3 };
    let text = serde_json::to_string(&<[i32; 3]>::from(v)).unwrap();
    assert_eq!(text, "[1,2,3]");
    let read: [i32; 3] = serde_json::from_str(&text).unwrap();
    assert_eq!(Vector3::from(read), v);
}

#[test]
fn quaternion_array_form_as_json() {
    let q = Quaternion { v: Vector3 { x: 0.0f32, y: 1.0, z: 2.0 }, s: 3.0 };
    let text = serde_json::to_string(&<[f32; 4]>::from(q)).unwrap();
    assert_eq!(text, "[0.0,1.0,2.0,3.0]");
    let read: [f32; 4] = serde_json::from_str(&text).unwrap();
    assert_eq!(Quaternion::from(read), q);
}

#[test]
fn euler_angles_array_form_as_json() {
    let read: [i32; 3] = serde_json::from_str("[1,3,5]").unwrap();
    let e: EulerAngles<i32, IntraXYZ> = EulerAngles::from(read);
    assert_eq!((e.a, e.b, e.c), (1, 3, 5));
    assert_eq!(serde_json::to_string(&<[i32; 3]>::from(e)).unwrap(), "[1,3,5]");
}

#[test]
fn matrix_array_forms_as_json() {
    let zero: [[f32; 2]; 2] = Default::default();
    let text = serde_json::to_string(&zero).unwrap();
    let m = RowMatrix2::from(zero);
    assert_eq!(serde_json::to_string(&<[[f32; 2]; 2]>::from(m)).unwrap(), text);
    let read: [[f32; 2]; 2] = serde_json::from_str(&text).unwrap();
    assert_eq!(RowMatrix2::from(read), m);

    let read: [[i32; 2]; 3] = serde_json::from_str("[[1,2],[3,4],[5,6]]").unwrap();
    let c = ColumnMatrix2x3::from(read);
    assert_eq!(serde_json::to_string(&<[i32; 6]>::from(c)).unwrap(), "[1,2,3,4,5,6]");
}
