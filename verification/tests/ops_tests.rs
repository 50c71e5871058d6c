use clblast::amax::VectorAbsoluteMaxIndex;
use clblast::amin::VectorAbsoluteMinIndex;
use clblast::asum::VectorAbsoluteSum;
use clblast::axpy::AxpyCall;
use clblast::axpy::VectorAxpy;
use clblast::copy::CopyCall;
use clblast::copy::VectorCopy;
use clblast::dot::DotCall;
use clblast::dot::VectorDot;
use clblast::dotc::VectorDotConjugate;
use clblast::max::MaxIndexCall;
use clblast::max::VectorMaxIndex;
use clblast::min::VectorMinIndex;
use clblast::nrm2::VectorEuclidianNorm;
use clblast::scal::ScalCall;
use clblast::scal::VectorScale;
use clblast::sum::SumCall;
use clblast::sum::VectorSum;
use clblast::swap::SwapCall;
use clblast::swap::VectorSwap;
use clblast::Complex32;
use clblast::Complex64;
use clblast::DeviceBuffer;
use clblast::Float32;
use clblast::Float64;
use clblast::VectorBuffer;

fn vec32(len: usize) -> VectorBuffer<Float32> {
    VectorBuffer::new(DeviceBuffer::new(len))
}

fn vec64(len: usize) -> VectorBuffer<Float64> {
    VectorBuffer::new(DeviceBuffer::new(len))
}

fn vecc32(len: usize) -> VectorBuffer<Complex32> {
    VectorBuffer::new(DeviceBuffer::new(len))
}

fn vecc64(len: usize) -> VectorBuffer<Complex64> {
    VectorBuffer::new(DeviceBuffer::new(len))
}

#[test]
fn test_swap_call_record() {
    let call = VectorSwap::new(10, vec32(20).offset(2), vec32(20))
        .x_stride(1)
        .y_stride(2)
        .try_run()
        .unwrap();
    assert_eq!(
        call,
        SwapCall { n: 10, x_offset: 2, x_stride: 1, y_offset: 0, y_stride: 2 }
    );
}

#[test]
fn test_swap_rejects_short_buffer() {
    // 10 elements with stride 2 from offset 1 need 21; only 20 are there.
    assert!(VectorSwap::new(10, vec32(20).offset(1), vec32(20))
        .x_stride(2)
        .try_run()
        .is_none());
}

#[test]
fn test_copy_call_record() {
    let call = VectorCopy::new(10, vec64(10), vec64(10)).try_run().unwrap();
    assert_eq!(
        call,
        CopyCall { n: 10, x_offset: 0, x_stride: 1, y_offset: 0, y_stride: 1 }
    );
}

#[test]
fn test_copy_from_unchanged_source_is_same_call() {
    // Re-issuing a copy from the same unchanged source produces the
    // identical native call; what the device then writes is the same
    // destination contents.
    let first = VectorCopy::new(8, vec32(10), vec32(10).offset(2)).try_run().unwrap();
    let second = VectorCopy::new(8, vec32(10), vec32(10).offset(2)).try_run().unwrap();
    assert_eq!(first, second);
}

#[test]
fn test_copy_rejects_short_destination() {
    assert!(VectorCopy::new(10, vec32(10), vec32(9)).try_run().is_none());
}

#[test]
fn test_axpy_call_record() {
    let alpha = Float32 { bits: 2.0f32.to_bits() };
    let call = VectorAxpy::new(alpha, 10, vec32(20), vec32(20)).try_run().unwrap();
    assert_eq!(
        call,
        AxpyCall { alpha, n: 10, x_offset: 0, x_stride: 1, y_offset: 0, y_stride: 1 }
    );
}

#[test]
fn test_axpy_with_zero_alpha_keeps_coefficient_exact() {
    // alpha = 0 is the additive identity: the call record carries the
    // exact zero bit pattern, so the device computes y := 0*x + y = y.
    let alpha = Float32 { bits: 0.0f32.to_bits() };
    let call = VectorAxpy::new(alpha, 4, vec32(4), vec32(4)).try_run().unwrap();
    assert_eq!(f32::from_bits(call.alpha.bits), 0.0);
}

#[test]
fn test_axpy_rejects_bad_dimensions() {
    let alpha = Float32 { bits: 1.0f32.to_bits() };
    assert!(VectorAxpy::new(alpha, 21, vec32(20), vec32(30)).try_run().is_none());
    assert!(VectorAxpy::new(alpha, 21, vec32(30), vec32(20)).try_run().is_none());
}

#[test]
fn test_scal_call_record() {
    let alpha = Float64 { bits: 0.5f64.to_bits() };
    let call = VectorScale::new(alpha, 7, vec64(15).offset(1))
        .x_stride(2)
        .try_run()
        .unwrap();
    assert_eq!(call, ScalCall { alpha, n: 7, x_offset: 1, x_stride: 2 });
    assert!(VectorScale::new(alpha, 8, vec64(15).offset(1)).x_stride(2).try_run().is_none());
}

#[test]
fn test_sum_call_record() {
    let call = VectorSum::new(10, vec32(1), vec32(10)).try_run().unwrap();
    assert_eq!(call, SumCall { n: 10, sum_offset: 0, x_offset: 0, x_stride: 1 });
}

#[test]
fn test_sum_rejects_full_result_buffer() {
    // The one-element result does not fit a buffer whose offset is at
    // its end.
    assert!(VectorSum::new(10, vec32(1).offset(1), vec32(10)).try_run().is_none());
}

#[test]
fn test_asum_call_record() {
    let call = VectorAbsoluteSum::new(5, vec32(2).offset(1), vec32(10))
        .x_stride(2)
        .try_run()
        .unwrap();
    assert_eq!(call.asum_offset, 1);
    assert_eq!(call.x_stride, 2);
    assert!(VectorAbsoluteSum::new(6, vec32(2), vec32(10)).x_stride(2).try_run().is_none());
}

#[test]
fn test_nrm2_call_record() {
    let call = VectorEuclidianNorm::new(9, vec64(1), vec64(9)).try_run().unwrap();
    assert_eq!(call.n, 9);
    assert_eq!(call.nrm2_offset, 0);
    assert!(VectorEuclidianNorm::new(10, vec64(1), vec64(9)).try_run().is_none());
}

#[test]
fn test_max_index_call_record() {
    let call = VectorMaxIndex::new(10, vec32(1), vec32(10)).try_run().unwrap();
    assert_eq!(
        call,
        MaxIndexCall { n: 10, imax_offset: 0, x_offset: 0, x_stride: 1 }
    );
    assert!(VectorMaxIndex::new(11, vec32(1), vec32(10)).try_run().is_none());
}

#[test]
fn test_min_index_call_record() {
    let call = VectorMinIndex::new(10, vec64(1), vec64(30).offset(5))
        .x_stride(2)
        .try_run()
        .unwrap();
    assert_eq!(call.x_offset, 5);
    assert_eq!(call.imin_offset, 0);
    assert!(VectorMinIndex::new(13, vec64(1), vec64(30).offset(5)).x_stride(2).try_run().is_none());
}

#[test]
fn test_abs_max_index_call_record() {
    let call = VectorAbsoluteMaxIndex::new(10, vecc32(1), vecc32(10)).try_run().unwrap();
    assert_eq!(call.n, 10);
    assert!(VectorAbsoluteMaxIndex::new(11, vecc32(1), vecc32(10)).try_run().is_none());
}

#[test]
fn test_abs_min_index_call_record() {
    let call = VectorAbsoluteMinIndex::new(10, vecc64(1), vecc64(10)).try_run().unwrap();
    assert_eq!(call.imin_offset, 0);
    assert!(VectorAbsoluteMinIndex::new(10, vecc64(1).offset(1), vecc64(10)).try_run().is_none());
}

#[test]
fn test_dot_call_record() {
    let call = VectorDot::new(10, vec32(1), vec32(20).offset(3), vec32(10))
        .x_stride(1)
        .y_stride(1)
        .try_run()
        .unwrap();
    assert_eq!(
        call,
        DotCall { n: 10, dot_offset: 0, x_offset: 3, x_stride: 1, y_offset: 0, y_stride: 1 }
    );
    assert!(VectorDot::new(11, vec32(1), vec32(20).offset(3), vec32(10)).try_run().is_none());
}

#[test]
fn test_dotc_call_record() {
    let call = VectorDotConjugate::new(6, vecc32(1), vecc32(6), vecc32(12))
        .y_stride(2)
        .try_run()
        .unwrap();
    assert_eq!(call.n, 6);
    assert_eq!(call.y_stride, 2);
    assert!(VectorDotConjugate::new(7, vecc32(1), vecc32(6), vecc32(12)).try_run().is_none());
}
