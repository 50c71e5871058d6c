use clblast::DeviceBuffer;
use clblast::Float32;
use clblast::Float64;
use clblast::LayoutColMajor;
use clblast::LayoutRowMajor;
use clblast::MatrixBuffer;
use clblast::MatrixLayout;
use clblast::VectorBuffer;

#[test]
fn test_vector_fits_boundaries() {
    let buf: DeviceBuffer<Float32> = DeviceBuffer::new(10);
    let v = VectorBuffer::new(buf);
    assert!(v.check_fits(10, 1));
    assert!(!v.check_fits(11, 1));
    assert!(v.check_fits(5, 2));
    assert!(!v.check_fits(5, 3));
    assert!(v.check_fits(0, 1));
    // A zero stride sweeps one element over and over.
    assert!(v.check_fits(10, 0));

    let off = v.offset(1);
    assert!(off.check_fits(9, 1));
    assert!(!off.check_fits(10, 1));
}

#[test]
fn test_vector_fits_never_overflows() {
    let buf: DeviceBuffer<Float64> = DeviceBuffer::new(usize::MAX);
    let v = VectorBuffer::new(buf);
    assert!(v.check_fits(usize::MAX, 1));
    assert!(!v.check_fits(usize::MAX, 2));
    assert!(!v.offset(1).check_fits(usize::MAX, 1));
}

#[test]
fn test_default_strides() {
    assert_eq!(LayoutRowMajor::default_stride(7, 3), 7);
    assert_eq!(LayoutColMajor::default_stride(7, 3), 3);
}

#[test]
fn test_matrix_try_new() {
    let buf: DeviceBuffer<Float32> = DeviceBuffer::new(12);
    let m = MatrixBuffer::try_new(4, 3, buf, LayoutRowMajor).unwrap();
    assert_eq!(m.rows(), 3);
    assert_eq!(m.columns(), 4);
    assert_eq!(m.size(), 12);
    assert_eq!(m.offset(), 0);
    assert_eq!(m.stride(), 4);

    let small: DeviceBuffer<Float32> = DeviceBuffer::new(11);
    assert!(MatrixBuffer::try_new(4, 3, small, LayoutRowMajor).is_none());

    let col: DeviceBuffer<Float32> = DeviceBuffer::new(12);
    let mc = MatrixBuffer::try_new(4, 3, col, LayoutColMajor).unwrap();
    assert_eq!(mc.stride(), 3);
}

#[test]
fn test_matrix_try_new_overflowing_shape() {
    let buf: DeviceBuffer<Float32> = DeviceBuffer::new(usize::MAX);
    assert!(MatrixBuffer::try_new(usize::MAX, 2, buf, LayoutRowMajor).is_none());
}
