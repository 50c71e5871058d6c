//! The conjugate dot product of two complex vectors.

use vstd::prelude::*;

use crate::VectorBuffer;

verus! {

/// Descriptor of the operation: takes the dot product of the complex conjugate of `n` elements
/// of `x` with `n` elements of `y` and writes the resulting scalar
/// into the element of `dot_buffer` at its offset.
///
/// The command queue and the device buffers stay with the caller, who
/// pairs this descriptor's views with the handles they stand for.
pub struct VectorDotConjugate<T> {
    /// Number of elements the operation reads from each vector.
    pub n: usize,
    /// View of the one-element output buffer that receives the result.
    pub dot_buffer: VectorBuffer<T>,
    /// View of the x vector.
    pub x_vector: VectorBuffer<T>,
    /// View of the y vector.
    pub y_vector: VectorBuffer<T>,
    /// Stride of the x vector; one means contiguous.
    pub x_stride: usize,
    /// Stride of the y vector; one means contiguous.
    pub y_stride: usize,
}

/// The argument record of the native call this descriptor prepares:
/// extent, offsets and strides in elements, exactly as the native
/// entry point takes them.
#[derive(Clone, Copy, Debug, PartialEq, Eq, Structural)]
pub struct DotcCall {
    pub n: usize,
    pub dot_offset: usize,
    pub x_offset: usize,
    pub x_stride: usize,
    pub y_offset: usize,
    pub y_stride: usize,
}

impl<T> VectorDotConjugate<T> {
    /// The dimensional invariant: both input vectors fit their
    /// buffers, and the output buffer holds at least one element at
    /// its offset.
    pub open spec fn dims_ok(self) -> bool {
        self.x_vector.fits(self.n, self.x_stride) && self.y_vector.fits(self.n, self.y_stride)
            && self.dot_buffer.fits(1, 1)
    }

    /// The argument record `run` produces.
    pub open spec fn call_spec(self) -> DotcCall {
        DotcCall {
            n: self.n,
            dot_offset: self.dot_buffer.offset,
            x_offset: self.x_vector.offset,
            x_stride: self.x_stride,
            y_offset: self.y_vector.offset,
            y_stride: self.y_stride,
        }
    }

    /// A descriptor over whole vectors: both strides default to one.
    pub fn new(
        n: usize,
        dot_buffer: VectorBuffer<T>,
        x_vector: VectorBuffer<T>,
        y_vector: VectorBuffer<T>,
    ) -> (r: VectorDotConjugate<T>)
        ensures
            r.n == n,
            r.dot_buffer == dot_buffer,
            r.x_vector == x_vector,
            r.y_vector == y_vector,
            r.x_stride == 1,
            r.y_stride == 1,
    {
        VectorDotConjugate { n, dot_buffer, x_vector, y_vector, x_stride: 1, y_stride: 1 }
    }

    /// The same descriptor with the given x stride.
    pub fn x_stride(self, x_stride: usize) -> (r: VectorDotConjugate<T>)
        ensures
            r == (VectorDotConjugate { x_stride, ..self }),
    {
        VectorDotConjugate { x_stride, ..self }
    }

    /// The same descriptor with the given y stride.
    pub fn y_stride(self, y_stride: usize) -> (r: VectorDotConjugate<T>)
        ensures
            r == (VectorDotConjugate { y_stride, ..self }),
    {
        VectorDotConjugate { y_stride, ..self }
    }

    /// Decides the dimensional invariant.
    pub fn check_dimensions(&self) -> (r: bool)
        ensures
            r == self.dims_ok(),
    {
        self.x_vector.check_fits(self.n, self.x_stride) && self.y_vector.check_fits(
            self.n,
            self.y_stride,
        ) && self.dot_buffer.check_fits(1, 1)
    }

    /// Consumes the descriptor and produces the argument record of the
    /// native call, for a descriptor whose invariant holds.
    pub fn run(self) -> (c: DotcCall)
        requires
            self.dims_ok(),
        ensures
            c == self.call_spec(),
    {
        DotcCall {
            n: self.n,
            dot_offset: self.dot_buffer.offset,
            x_offset: self.x_vector.offset,
            x_stride: self.x_stride,
            y_offset: self.y_vector.offset,
            y_stride: self.y_stride,
        }
    }

    /// `run`, deciding the invariant first: an argument record comes
    /// back exactly when the invariant holds, so no native call can be
    /// issued from a descriptor that violates it.
    pub fn try_run(self) -> (r: Option<DotcCall>)
        ensures
            self.dims_ok() ==> r == Some(self.call_spec()),
            !self.dims_ok() ==> r is None,
    {
        if self.check_dimensions() {
            Some(self.run())
        } else {
            None
        }
    }
}

} // verus!
