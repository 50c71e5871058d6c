use clblast::gemm::Gemm;
use clblast::gemm::GemmCall;
use clblast::gemm::RunGemm;
use clblast::symm::Symm;
use clblast::Complex64;
use clblast::DeviceBuffer;
use clblast::Float32;
use clblast::LayoutColMajor;
use clblast::LayoutRowMajor;
use clblast::MatrixBuffer;
use clblast::MatrixTranspose;
use clblast::MultiplicationSide;
use clblast::TriangleLayout;

fn mat32(columns: usize, rows: usize) -> MatrixBuffer<Float32, LayoutRowMajor> {
    MatrixBuffer::new(columns, rows, DeviceBuffer::new(columns * rows), LayoutRowMajor)
}

#[test]
fn test_gemm_defaults_are_neutral() {
    let g = Gemm::new(mat32(3, 2), mat32(2, 3), mat32(2, 2));
    assert_eq!(f32::from_bits(g.alpha.bits), 1.0);
    assert_eq!(f32::from_bits(g.beta.bits), 0.0);
    assert_eq!(g.transpose_a, MatrixTranspose::No);
    assert_eq!(g.transpose_b, MatrixTranspose::No);
}

#[test]
fn test_gemm_call_record() {
    // A is 2 by 3, B is 3 by 4, C is 2 by 4.
    let alpha = Float32 { bits: 1.0f32.to_bits() };
    let beta = Float32 { bits: 0.0f32.to_bits() };
    let call = Gemm::new(mat32(3, 2), mat32(4, 3), mat32(4, 2)).try_run().unwrap();
    assert_eq!(
        call,
        GemmCall {
            layout_code: 101,
            a_transpose_code: 111,
            b_transpose_code: 111,
            m: 2,
            n: 4,
            k: 3,
            alpha,
            a_offset: 0,
            a_stride: 3,
            b_offset: 0,
            b_stride: 4,
            beta,
            c_offset: 0,
            c_stride: 4,
        }
    );
}

#[test]
fn test_gemm_column_major_call() {
    let a = MatrixBuffer::new(3, 2, DeviceBuffer::<Float32>::new(6), LayoutColMajor);
    let b = MatrixBuffer::new(4, 3, DeviceBuffer::<Float32>::new(12), LayoutColMajor);
    let c = MatrixBuffer::new(4, 2, DeviceBuffer::<Float32>::new(8), LayoutColMajor);
    let call = Gemm::new(a, b, c).transpose_a(MatrixTranspose::Yes).try_run().unwrap();
    assert_eq!(call.layout_code, 102);
    assert_eq!(call.a_transpose_code, 112);
    // Column-major default strides are the row counts.
    assert_eq!(call.a_stride, 2);
    assert_eq!(call.b_stride, 3);
    assert_eq!(call.c_stride, 2);
}

#[test]
fn test_gemm_rejects_mismatched_shapes() {
    // A's width disagrees with B's height.
    assert!(Gemm::new(mat32(3, 2), mat32(4, 2), mat32(4, 2)).try_run().is_none());
    // C's width disagrees with B's width.
    assert!(Gemm::new(mat32(3, 2), mat32(4, 3), mat32(3, 2)).try_run().is_none());
    // C's height disagrees with A's height.
    assert!(Gemm::new(mat32(3, 2), mat32(4, 3), mat32(4, 3)).try_run().is_none());
}

#[test]
fn test_symm_call_record() {
    let a = mat32(2, 2);
    let b = mat32(4, 2);
    let c = mat32(4, 2);
    let call = Symm::new(MultiplicationSide::Left, TriangleLayout::Upper, a, b, c)
        .try_run()
        .unwrap();
    assert_eq!(call.layout_code, 101);
    assert_eq!(call.side_code, 141);
    assert_eq!(call.triangle_code, 121);
    assert_eq!(call.m, 2);
    assert_eq!(call.n, 4);
    assert_eq!(f32::from_bits(call.alpha.bits), 1.0);
    assert_eq!(f32::from_bits(call.beta.bits), 0.0);
}

#[test]
fn test_symm_side_decides_square_side() {
    // On the right, A must match C's width, not its height.
    let a = mat32(4, 4);
    let b = mat32(4, 2);
    let c = mat32(4, 2);
    let call = Symm::new(MultiplicationSide::Right, TriangleLayout::Lower, a, b, c)
        .try_run()
        .unwrap();
    assert_eq!(call.side_code, 142);
    assert_eq!(call.triangle_code, 122);

    let a2 = mat32(4, 4);
    let b2 = mat32(4, 2);
    let c2 = mat32(4, 2);
    assert!(Symm::new(MultiplicationSide::Left, TriangleLayout::Lower, a2, b2, c2)
        .try_run()
        .is_none());
}

#[test]
fn test_symm_complex_coefficients() {
    let a = MatrixBuffer::new(2, 2, DeviceBuffer::<Complex64>::new(4), LayoutRowMajor);
    let b = MatrixBuffer::new(3, 2, DeviceBuffer::<Complex64>::new(6), LayoutRowMajor);
    let c = MatrixBuffer::new(3, 2, DeviceBuffer::<Complex64>::new(6), LayoutRowMajor);
    let alpha = Complex64 { re: 2.0f64.to_bits(), im: (-1.0f64).to_bits() };
    let call = Symm::new(MultiplicationSide::Left, TriangleLayout::Upper, a, b, c)
        .alpha(alpha)
        .try_run()
        .unwrap();
    assert_eq!(call.alpha, alpha);
    assert_eq!(f64::from_bits(call.beta.re), 0.0);
}

// The host-side reference the device result of the generalized product
// is compared against: a naive triple loop over row-major data.
fn reference_implementation(
    no_samples: usize,
    no_streams: usize,
    samples: &Vec<f32>,
    matrix: &Vec<f32>,
) -> Vec<Vec<f32>> {
    let mut out = vec![0.0; no_samples * no_streams];

    for x in 0..no_samples {
        for y in 0..no_streams {
            let mut sum = 0.0_f64;
            for k in 0..no_streams {
                sum += (samples[x + no_samples * k] * matrix[y * no_streams + k]) as f64;
            }
            out[x + y * no_samples] = sum as f32;
        }
    }
    out.chunks_exact(no_samples).map(|r| r.to_vec()).collect()
}

#[test]
fn test_reference_1_3() {
    let res = reference_implementation(3, 1, &vec![1.0, 2.0, 3.0], &vec![1.0]);
    println!("{:?}", res);
    let expected_result = vec![vec![1.0, 2.0, 3.0]];
    assert_eq!(res, expected_result);
}

#[test]
fn test_reference_3_5() {
    let res = reference_implementation(
        3,
        5,
        &vec![
            1.0, 2.0, 3.0, //
            4.0, 5.0, 6.0, //
            7.0, 8.0, 9.0, //
            7.0, 8.0, 9.0, //
            7.0, 8.0, 9.0, //
        ],
        &vec![
            0.0, 2.0, 1.0, 0.0, 2.0, //
            0.0, 1.0, 1.0, 2.0, 3.0, //
            1.0, 2.0, 3.0, 4.0, 5.0, //
            0.0, 0.0, 0.0, 0.0, 0.0, //
            0.0, 1.0, 3.0, 9.0, 2.0, //
        ],
    );
    println!("{:?}", res);
    let expected_result = vec![
        vec![29., 34., 39.],
        vec![46., 53., 60.],
        vec![93., 108., 123.],
        vec![0., 0., 0.],
        vec![102., 117., 132.],
    ];
    assert_eq!(res, expected_result);
}

#[test]
fn test_gemm_plan_for_reference_shape() {
    // The plan behind the worked reference example: A holds the 5 by 5
    // configuration, B the 5 by 3 samples, C the 5 by 3 result.
    let call = Gemm::new(mat32(5, 5), mat32(3, 5), mat32(3, 5)).try_run().unwrap();
    assert_eq!((call.m, call.n, call.k), (5, 3, 5));
    assert_eq!((call.a_stride, call.b_stride, call.c_stride), (5, 3, 3));
}
