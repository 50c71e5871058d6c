//! The euclidean norm of a vector.

use vstd::prelude::*;

use crate::VectorBuffer;

verus! {

/// Descriptor of the operation: takes the euclidean norm of `n` elements of `x` (complex
/// elements contribute their squared magnitude) and writes the
/// resulting scalar into the element of `nrm2_vector` at its offset.
///
/// The command queue and the device buffers stay with the caller, who
/// pairs this descriptor's views with the handles they stand for.
pub struct VectorEuclidianNorm<T> {
    /// Number of elements the operation reads from `x`.
    pub n: usize,
    /// View of the one-element output buffer that receives the norm.
    pub nrm2_vector: VectorBuffer<T>,
    /// View of the x vector.
    pub x_vector: VectorBuffer<T>,
    /// Stride of the x vector; one means contiguous.
    pub x_stride: usize,
}

/// The argument record of the native call this descriptor prepares:
/// extent, offsets and stride in elements, exactly as the native entry
/// point takes them.
#[derive(Clone, Copy, Debug, PartialEq, Eq, Structural)]
pub struct Nrm2Call {
    pub n: usize,
    pub nrm2_offset: usize,
    pub x_offset: usize,
    pub x_stride: usize,
}

impl<T> VectorEuclidianNorm<T> {
    /// The dimensional invariant: the input vector fits its buffer,
    /// and the output buffer holds at least one element at its offset.
    pub open spec fn dims_ok(self) -> bool {
        self.x_vector.fits(self.n, self.x_stride) && self.nrm2_vector.fits(1, 1)
    }

    /// The argument record `run` produces.
    pub open spec fn call_spec(self) -> Nrm2Call {
        Nrm2Call {
            n: self.n,
            nrm2_offset: self.nrm2_vector.offset,
            x_offset: self.x_vector.offset,
            x_stride: self.x_stride,
        }
    }

    /// A descriptor over the whole input vector: the stride defaults
    /// to one.
    pub fn new(n: usize, nrm2_vector: VectorBuffer<T>, x_vector: VectorBuffer<T>) -> (r:
        VectorEuclidianNorm<T>)
        ensures
            r.n == n,
            r.nrm2_vector == nrm2_vector,
            r.x_vector == x_vector,
            r.x_stride == 1,
    {
        VectorEuclidianNorm { n, nrm2_vector, x_vector, x_stride: 1 }
    }

    /// The same descriptor with the given x stride.
    pub fn x_stride(self, x_stride: usize) -> (r: VectorEuclidianNorm<T>)
        ensures
            r == (VectorEuclidianNorm { x_stride, ..self }),
    {
        VectorEuclidianNorm { x_stride, ..self }
    }

    /// Decides the dimensional invariant.
    pub fn check_dimensions(&self) -> (r: bool)
        ensures
            r == self.dims_ok(),
    {
        self.x_vector.check_fits(self.n, self.x_stride) && self.nrm2_vector.check_fits(1, 1)
    }

    /// Consumes the descriptor and produces the argument record of the
    /// native call, for a descriptor whose invariant holds.
    pub fn run(self) -> (c: Nrm2Call)
        requires
            self.dims_ok(),
        ensures
            c == self.call_spec(),
    {
        Nrm2Call {
            n: self.n,
            nrm2_offset: self.nrm2_vector.offset,
            x_offset: self.x_vector.offset,
            x_stride: self.x_stride,
        }
    }

    /// `run`, deciding the invariant first: an argument record comes
    /// back exactly when the invariant holds, so no native call can be
    /// issued from a descriptor that violates it.
    pub fn try_run(self) -> (r: Option<Nrm2Call>)
        ensures
            self.dims_ok() ==> r == Some(self.call_spec()),
            !self.dims_ok() ==> r is None,
    {
        if self.check_dimensions() {
            Some(self.run())
        } else {
            None
        }
    }
}

} // verus!
