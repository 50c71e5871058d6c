//! The index of the element of largest absolute value of a vector.

use vstd::prelude::*;

use crate::VectorBuffer;

verus! {

/// Descriptor of the operation: finds the index of the element of largest absolute value
/// (magnitude, for complex elements) among `n` elements of `x` and
/// writes it into the element of `imax_vector` at its offset.  Ties
/// are broken by the native library, in a way it leaves unspecified.
///
/// The command queue and the device buffers stay with the caller, who
/// pairs this descriptor's views with the handles they stand for.
pub struct VectorAbsoluteMaxIndex<T> {
    /// Number of elements the operation reads from `x`.
    pub n: usize,
    /// View of the one-element output buffer that receives the index.
    pub imax_vector: VectorBuffer<T>,
    /// View of the x vector.
    pub x_vector: VectorBuffer<T>,
    /// Stride of the x vector; one means contiguous.
    pub x_stride: usize,
}

/// The argument record of the native call this descriptor prepares:
/// extent, offsets and stride in elements, exactly as the native entry
/// point takes them.
#[derive(Clone, Copy, Debug, PartialEq, Eq, Structural)]
pub struct AbsMaxIndexCall {
    pub n: usize,
    pub imax_offset: usize,
    pub x_offset: usize,
    pub x_stride: usize,
}

impl<T> VectorAbsoluteMaxIndex<T> {
    /// The dimensional invariant: the input vector fits its buffer,
    /// and the output buffer holds at least one element at its offset.
    pub open spec fn dims_ok(self) -> bool {
        self.x_vector.fits(self.n, self.x_stride) && self.imax_vector.fits(1, 1)
    }

    /// The argument record `run` produces.
    pub open spec fn call_spec(self) -> AbsMaxIndexCall {
        AbsMaxIndexCall {
            n: self.n,
            imax_offset: self.imax_vector.offset,
            x_offset: self.x_vector.offset,
            x_stride: self.x_stride,
        }
    }

    /// A descriptor over the whole input vector: the stride defaults
    /// to one.
    pub fn new(n: usize, imax_vector: VectorBuffer<T>, x_vector: VectorBuffer<T>) -> (r:
        VectorAbsoluteMaxIndex<T>)
        ensures
            r.n == n,
            r.imax_vector == imax_vector,
            r.x_vector == x_vector,
            r.x_stride == 1,
    {
        VectorAbsoluteMaxIndex { n, imax_vector, x_vector, x_stride: 1 }
    }

    /// The same descriptor with the given x stride.
    pub fn x_stride(self, x_stride: usize) -> (r: VectorAbsoluteMaxIndex<T>)
        ensures
            r == (VectorAbsoluteMaxIndex { x_stride, ..self }),
    {
        VectorAbsoluteMaxIndex { x_stride, ..self }
    }

    /// Decides the dimensional invariant.
    pub fn check_dimensions(&self) -> (r: bool)
        ensures
            r == self.dims_ok(),
    {
        self.x_vector.check_fits(self.n, self.x_stride) && self.imax_vector.check_fits(1, 1)
    }

    /// Consumes the descriptor and produces the argument record of the
    /// native call, for a descriptor whose invariant holds.
    pub fn run(self) -> (c: AbsMaxIndexCall)
        requires
            self.dims_ok(),
        ensures
            c == self.call_spec(),
    {
        AbsMaxIndexCall {
            n: self.n,
            imax_offset: self.imax_vector.offset,
            x_offset: self.x_vector.offset,
            x_stride: self.x_stride,
        }
    }

    /// `run`, deciding the invariant first: an argument record comes
    /// back exactly when the invariant holds, so no native call can be
    /// issued from a descriptor that violates it.
    pub fn try_run(self) -> (r: Option<AbsMaxIndexCall>)
        ensures
            self.dims_ok() ==> r == Some(self.call_spec()),
            !self.dims_ok() ==> r is None,
    {
        if self.check_dimensions() {
            Some(self.run())
        } else {
            None
        }
    }
}

} // verus!
