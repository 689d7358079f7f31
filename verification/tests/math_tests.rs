use va::matrix3x3::Mat3x3;
use va::matrix4x4::Mat4x4;
use va::vector2::Vec2;
use va::vector3::Vec3;
use va::vector4::Vec4;

fn add_two_numbers(a: i32, b: i32) -> i32 {
    a + b
}

#[test]
fn number_test() {
    assert_eq!(add_two_numbers(10, 20), 30);
}

#[test]
fn vector2d_initialization() {
    let vector = Vec2::new(1, 2);
    assert_eq!(vector, Vec2 { x: 1, y: 2 });

    let tmp = Vec2::from(1);
    assert_eq!(tmp, Vec2::new(1, 1));

    let tmp: Vec2<i32> = Vec2::from(Vec2::new(1i8, 2));
    assert_eq!(tmp, vector);

    let tmp: Vec2<i32> = Vec2::try_from(Vec2::new(1i64, 2)).unwrap();
    assert_eq!(tmp, vector);

    let tmp: Result<Vec2<u8>, ()> = Vec2::try_from(Vec2::new(-1i32, 2));
    assert!(tmp.is_err());

    let tmp = Vec2::from((1, 2));
    assert_eq!(tmp, vector);

    let (x, y) = tmp.into();
    assert_eq!(Vec2::new(x, y), vector);

    let tmp = Vec2::from([1, 2]);
    assert_eq!(tmp, vector);

    let array = [1, 2, 3, 4, 5, 6];
    let tmp = Vec2::from(&array[0..2]);
    assert_eq!(tmp, vector);
}

#[test]
fn vector2d_indices_and_iterators() {
    let vector = Vec2::new(1, 2);

    assert_eq!(vector.get(0), 1);
    assert_eq!(vector.get(1), 2);

    let mut tmp = vector;
    assert_eq!(tmp.get(0), 1);
    assert_eq!(tmp.get(1), 2);
    tmp = vector;
    assert_eq!(tmp, vector);

    let mut iter = vector.into_iter();
    assert_eq!(iter.next().unwrap(), 1);
    assert_eq!(iter.next().unwrap(), 2);
    assert!(iter.next().is_none());
}

#[test]
fn vector2d_operations() {
    let vector = Vec2::new(2, 4);

    assert_eq!(vector + 1, Vec2::new(3, 5));
    assert_eq!(1 + vector, Vec2::new(3, 5));
    assert_eq!(vector + Vec2::new(1, 2), Vec2::new(3, 6));

    assert_eq!(vector - 1, Vec2::new(1, 3));
    assert_eq!(vector - Vec2::new(1, 2), Vec2::new(1, 2));

    assert_eq!(vector * 2, Vec2::new(4, 8));
    assert_eq!(2 * vector, Vec2::new(4, 8));
    assert_eq!(vector / 2, Vec2::new(1, 2));
    assert_eq!(vector % 2, Vec2::new(0, 0));

    let mut tmp = vector;
    tmp = tmp + 1;
    assert_eq!(tmp, Vec2::new(3, 5));

    let mut tmp = vector;
    tmp = tmp + Vec2::new(1, 2);
    assert_eq!(tmp, Vec2::new(3, 6));

    let mut tmp = vector;
    tmp = tmp - 1;
    assert_eq!(tmp, Vec2::new(1, 3));

    let mut tmp = vector;
    tmp = tmp - Vec2::new(1, 2);
    assert_eq!(tmp, Vec2::new(1, 2));

    let mut tmp = vector;
    tmp = tmp * 2;
    assert_eq!(tmp, Vec2::new(4, 8));

    let mut tmp = vector;
    tmp = tmp / 2;
    assert_eq!(tmp, Vec2::new(1, 2));

    let mut tmp = vector;
    tmp = tmp % 2;
    assert_eq!(tmp, Vec2::new(0, 0));

    let tmp = -vector;
    assert_eq!(tmp, Vec2::new(-2, -4));
}

#[test]
fn vector3d_initialization() {
    let vector = Vec3::new(1, 2, 3);
    assert_eq!(vector, Vec3 { x: 1, y: 2, z: 3 });

    let tmp = Vec3::from(1);
    assert_eq!(tmp, Vec3::new(1, 1, 1));

    let tmp: Vec3<i32> = Vec3::from(Vec3::new(1i8, 2, 3));
    assert_eq!(tmp, vector);

    let tmp: Vec3<i32> = Vec3::try_from(Vec3::new(1i64, 2, 3)).unwrap();
    assert_eq!(tmp, vector);

    let tmp: Result<Vec3<u8>, ()> = Vec3::try_from(Vec3::new(-1i32, 2, 3));
    assert!(tmp.is_err());

    let tmp = Vec3::from((1, 2, 3));
    assert_eq!(tmp, vector);

    let (x, y, z) = tmp.into();
    assert_eq!(Vec3::new(x, y, z), vector);

    let tmp = Vec3::from([1, 2, 3]);
    assert_eq!(tmp, vector);

    let array = [1, 2, 3, 4, 5, 6];
    let tmp = Vec3::from(&array[0..3]);
    assert_eq!(tmp, vector);

    assert_eq!(Vec3::from(i32::MIN), Vec3::new(i32::MIN, i32::MIN, i32::MIN));
    assert_eq!(Vec3::from(i32::MAX), Vec3::new(i32::MAX, i32::MAX, i32::MAX));
}

#[test]
fn vector3d_indices_and_iterators() {
    let vector = Vec3::new(1, 2, 3);

    assert_eq!(vector.get(0), 1);
    assert_eq!(vector.get(1), 2);
    assert_eq!(vector.get(2), 3);

    let tmp = vector;
    assert_eq!(tmp.get(0), 1);
    assert_eq!(tmp.get(1), 2);
    assert_eq!(tmp.get(2), 3);

    let mut iter = vector.into_iter();
    assert_eq!(iter.next().unwrap(), 1);
    assert_eq!(iter.next().unwrap(), 2);
    assert_eq!(iter.next().unwrap(), 3);
    assert!(iter.next().is_none());
}

#[test]
fn vector3d_operations() {
    let vector = Vec3::new(2, 4, 6);

    assert_eq!(vector + 1, Vec3::new(3, 5, 7));
    assert_eq!(1 + vector, Vec3::new(3, 5, 7));
    assert_eq!(vector + Vec3::new(1, 2, 3), Vec3::new(3, 6, 9));

    assert_eq!(vector - 1, Vec3::new(1, 3, 5));
    assert_eq!(vector - Vec3::new(1, 2, 3), Vec3::new(1, 2, 3));

    assert_eq!(vector * 2, Vec3::new(4, 8, 12));
    assert_eq!(2 * vector, Vec3::new(4, 8, 12));
    assert_eq!(vector / 2, Vec3::new(1, 2, 3));
    assert_eq!(vector % 2, Vec3::new(0, 0, 0));

    let tmp = -vector;
    assert_eq!(tmp, Vec3::new(-2, -4, -6));
}

#[test]
fn vector4d_initialization() {
    let vector = Vec4::new(1, 2, 3, 4);
    assert_eq!(vector, Vec4 { x: 1, y: 2, z: 3, w: 4 });

    let tmp = Vec4::from(1);
    assert_eq!(tmp, Vec4::new(1, 1, 1, 1));

    let tmp: Vec4<i32> = Vec4::from(Vec4::new(1i8, 2, 3, 4));
    assert_eq!(tmp, vector);

    let tmp: Vec4<i32> = Vec4::try_from(Vec4::new(1i64, 2, 3, 4)).unwrap();
    assert_eq!(tmp, vector);

    let tmp: Result<Vec4<u8>, ()> = Vec4::try_from(Vec4::new(-1i32, 2, 3, 4));
    assert!(tmp.is_err());

    let tmp = Vec4::from((1, 2, 3, 4));
    assert_eq!(tmp, vector);

    let (x, y, z, w) = tmp.into();
    assert_eq!(Vec4::new(x, y, z, w), vector);

    let tmp = Vec4::from([1, 2, 3, 4]);
    assert_eq!(tmp, vector);

    let tmp2: [i32; 4] = tmp.into();
    assert_eq!(tmp2, [1, 2, 3, 4]);

    let array = [1, 2, 3, 4, 5, 6];
    let tmp = Vec4::from(&array[0..4]);
    assert_eq!(tmp, vector);

    assert_eq!(
        Vec4::from(i32::MIN),
        Vec4::new(i32::MIN, i32::MIN, i32::MIN, i32::MIN)
    );
    assert_eq!(
        Vec4::from(i32::MAX),
        Vec4::new(i32::MAX, i32::MAX, i32::MAX, i32::MAX)
    );
}

#[test]
fn vector4d_indices_and_iterators() {
    let vector = Vec4::new(1, 2, 3, 4);

    assert_eq!(vector.get(0), 1);
    assert_eq!(vector.get(1), 2);
    assert_eq!(vector.get(2), 3);
    assert_eq!(vector.get(3), 4);

    let tmp = vector;
    assert_eq!(tmp.get(0), 1);
    assert_eq!(tmp.get(1), 2);
    assert_eq!(tmp.get(2), 3);
    assert_eq!(tmp.get(3), 4);

    let mut iter = vector.into_iter();
    assert_eq!(iter.next().unwrap(), 1);
    assert_eq!(iter.next().unwrap(), 2);
    assert_eq!(iter.next().unwrap(), 3);
    assert_eq!(iter.next().unwrap(), 4);
    assert!(iter.next().is_none());
}

#[test]
fn vector4d_operations() {
    let vector = Vec4::new(2, 4, 6, 8);

    assert_eq!(vector + 1, Vec4::new(3, 5, 7, 9));
    assert_eq!(1 + vector, Vec4::new(3, 5, 7, 9));
    assert_eq!(vector + Vec4::new(1, 2, 3, 4), Vec4::new(3, 6, 9, 12));

    assert_eq!(vector - 1, Vec4::new(1, 3, 5, 7));
    assert_eq!(vector - Vec4::new(1, 2, 3, 4), Vec4::new(1, 2, 3, 4));

    assert_eq!(vector * 2, Vec4::new(4, 8, 12, 16));
    assert_eq!(2 * vector, Vec4::new(4, 8, 12, 16));
    assert_eq!(vector / 2, Vec4::new(1, 2, 3, 4));
    assert_eq!(vector % 2, Vec4::new(0, 0, 0, 0));

    let tmp = -vector;
    assert_eq!(tmp, Vec4::new(-2, -4, -6, -8));
}

#[test]
fn vector_swizzles() {
    let v3 = Vec3::new(1, 2, 3);
    assert_eq!(v3.xy(), Vec2::new(1, 2));
    assert_eq!(v3.xz(), Vec2::new(1, 3));
    assert_eq!(v3.yz(), Vec2::new(2, 3));

    let v4 = Vec4::new(1, 2, 3, 4);
    assert_eq!(v4.xy(), Vec2::new(1, 2));
    assert_eq!(v4.xw(), Vec2::new(1, 4));
    assert_eq!(v4.zw(), Vec2::new(3, 4));
    assert_eq!(v4.xyz(), Vec3::new(1, 2, 3));
    assert_eq!(v4.yzw(), Vec3::new(2, 3, 4));

    let a = Vec3::new(1, 0, 0);
    let b = Vec3::new(0, 1, 0);
    assert_eq!(a.cross(b), Vec3::new(0, 0, 1));
}

#[test]
fn matrix3x3_matrix4x4_initialization() {
    let matrix = Mat3x3::from(1);
    assert_eq!(matrix, Mat3x3::new([1, 1, 1, 1, 1, 1, 1, 1, 1]));
}

#[test]
fn matrix3x3_matrix4x4_indices_and_iterators() {
    let matrix: Mat3x3<i32> = Mat3x3::default();
    assert_eq!(matrix.data[0], matrix.get(0, 0));
    assert_eq!(matrix.data[4], matrix.get(1, 1));
}

#[test]
fn matrix3x3_matrix4x4_methods() {
    let matrix: Mat3x3<i32> = Mat3x3::default();
    assert_eq!(matrix + 1, Mat3x3::new([2, 1, 1, 1, 2, 1, 1, 1, 2]));

    let tmp = Mat3x3::from(1);
    assert_eq!(matrix + tmp, Mat3x3::new([2, 1, 1, 1, 2, 1, 1, 1, 2]));

    assert_eq!(matrix - 1, Mat3x3::new([0, -1, -1, -1, 0, -1, -1, -1, 0]));

    let tmp = Mat3x3::from(1);
    assert_eq!(matrix - tmp, Mat3x3::new([0, -1, -1, -1, 0, -1, -1, -1, 0]));

    let test_mul_matrix = Mat3x3::new([3, 4, 1, 2, 4, 3, 2, 1, 7]);
    let test_mul_matrix_2 = Mat3x3::new([5, 4, 3, 4, 5, 2, 2, 3, 1]);
    assert_eq!(
        test_mul_matrix * test_mul_matrix_2,
        Mat3x3::new([33, 35, 18, 32, 37, 17, 28, 34, 15])
    );
}

#[test]
fn matrix4x4_matrix4x4_initialization() {
    let matrix = Mat4x4::from(1);
    assert_eq!(
        matrix,
        Mat4x4::new([1, 1, 1, 1, 1, 1, 1, 1, 1, 1, 1, 1, 1, 1, 1, 1])
    );
}

#[test]
fn matrix4x4_matrix4x4_indices_and_iterators() {
    let matrix: Mat4x4<i32> = Mat4x4::default();
    assert_eq!(matrix.data[0], matrix.get(0, 0));
    assert_eq!(matrix.data[10], matrix.get(2, 2));
}

#[test]
fn matrix4x4_matrix4x4_methods() {
    let matrix: Mat4x4<i32> = Mat4x4::default();
    assert_eq!(
        matrix + 1,
        Mat4x4::new([2, 1, 1, 1, 1, 2, 1, 1, 1, 1, 2, 1, 1, 1, 1, 2])
    );

    let tmp = Mat4x4::from(1);
    assert_eq!(
        matrix + tmp,
        Mat4x4::new([2, 1, 1, 1, 1, 2, 1, 1, 1, 1, 2, 1, 1, 1, 1, 2])
    );

    assert_eq!(
        matrix - 1,
        Mat4x4::new([0, -1, -1, -1, -1, 0, -1, -1, -1, -1, 0, -1, -1, -1, -1, 0])
    );

    let tmp = Mat4x4::from(1);
    assert_eq!(
        matrix - tmp,
        Mat4x4::new([0, -1, -1, -1, -1, 0, -1, -1, -1, -1, 0, -1, -1, -1, -1, 0])
    );

    let test_mul_matrix = Mat4x4::new([3, 4, 1, 4, 2, 4, 3, 1, 2, 1, 7, 7, 9, 6, 4, 5]);
    let test_mul_matrix_2 = Mat4x4::new([5, 4, 3, 4, 4, 5, 2, 3, 2, 3, 1, 5, 7, 6, 1, 2]);
    assert_eq!(
        test_mul_matrix * test_mul_matrix_2,
        Mat4x4::new([61, 59, 22, 37, 39, 43, 18, 37, 77, 76, 22, 60, 112, 108, 48, 84])
    );
}
