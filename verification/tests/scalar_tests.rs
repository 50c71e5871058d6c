use clblast::ClDouble2;
use clblast::ClFloat2;
use clblast::Complex32;
use clblast::Complex64;
use clblast::Float32;
use clblast::Float64;
use clblast::LayoutColMajor;
use clblast::LayoutRowMajor;
use clblast::MatrixTranspose;
use clblast::MultiplicationSide;
use clblast::NeutralAdd;
use clblast::NeutralMul;
use clblast::ReprSys;
use clblast::TriangleLayout;
use clblast::FLOAT32_ONE_BITS;
use clblast::FLOAT32_ZERO_BITS;
use clblast::FLOAT64_ONE_BITS;
use clblast::FLOAT64_ZERO_BITS;

#[test]
fn test_complex32_to_wire_exact() {
    let samples: Vec<(f32, f32)> = vec![
        (0.0, 0.0),
        (1.0, -1.0),
        (1.5, -2.25),
        (f32::MIN_POSITIVE, f32::MAX),
        (-0.0, 3.0e-40),
    ];
    for (re, im) in samples {
        let z = Complex32 { re: re.to_bits(), im: im.to_bits() };
        let wire = z.to_c();
        assert_eq!(wire, ClFloat2 { s0: re.to_bits(), s1: im.to_bits() });
        // The components survive the round trip bit for bit.
        assert_eq!(f32::from_bits(wire.s0), re);
        assert_eq!(f32::from_bits(wire.s1).to_bits(), im.to_bits());
    }
}

#[test]
fn test_complex64_to_wire_exact() {
    let samples: Vec<(f64, f64)> = vec![
        (0.0, 0.0),
        (1.0, -1.0),
        (0.1, -1.0e300),
        (f64::MIN_POSITIVE, f64::MAX),
    ];
    for (re, im) in samples {
        let z = Complex64 { re: re.to_bits(), im: im.to_bits() };
        let wire = z.to_c();
        assert_eq!(wire, ClDouble2 { s0: re.to_bits(), s1: im.to_bits() });
        assert_eq!(f64::from_bits(wire.s0), re);
        assert_eq!(f64::from_bits(wire.s1).to_bits(), im.to_bits());
    }
}

#[test]
fn test_neutral_scalars_are_zero_and_one() {
    assert_eq!(f32::from_bits(FLOAT32_ZERO_BITS), 0.0f32);
    assert_eq!(f32::from_bits(FLOAT32_ONE_BITS), 1.0f32);
    assert_eq!(f64::from_bits(FLOAT64_ZERO_BITS), 0.0f64);
    assert_eq!(f64::from_bits(FLOAT64_ONE_BITS), 1.0f64);

    assert_eq!(Float32::zero(), Float32 { bits: 0.0f32.to_bits() });
    assert_eq!(Float32::one(), Float32 { bits: 1.0f32.to_bits() });
    assert_eq!(Float64::zero(), Float64 { bits: 0.0f64.to_bits() });
    assert_eq!(Float64::one(), Float64 { bits: 1.0f64.to_bits() });
    assert_eq!(
        Complex32::zero(),
        Complex32 { re: 0.0f32.to_bits(), im: 0.0f32.to_bits() }
    );
    assert_eq!(
        Complex32::one(),
        Complex32 { re: 1.0f32.to_bits(), im: 0.0f32.to_bits() }
    );
    assert_eq!(
        Complex64::zero(),
        Complex64 { re: 0.0f64.to_bits(), im: 0.0f64.to_bits() }
    );
    assert_eq!(
        Complex64::one(),
        Complex64 { re: 1.0f64.to_bits(), im: 0.0f64.to_bits() }
    );
}

#[test]
fn test_enum_codes() {
    assert_eq!(LayoutRowMajor.to_c(), 101);
    assert_eq!(LayoutColMajor.to_c(), 102);
    assert_eq!(MatrixTranspose::No.to_c(), 111);
    assert_eq!(MatrixTranspose::Yes.to_c(), 112);
    assert_eq!(MatrixTranspose::Conjugate.to_c(), 113);
    assert_eq!(TriangleLayout::Upper.to_c(), 121);
    assert_eq!(TriangleLayout::Lower.to_c(), 122);
    assert_eq!(MultiplicationSide::Left.to_c(), 141);
    assert_eq!(MultiplicationSide::Right.to_c(), 142);
}
