//! Scaling of a vector in place.

use vstd::prelude::*;

use crate::VectorBuffer;

verus! {

/// Descriptor of the operation: performs `x := alpha * x` over `n`
/// elements.
///
/// The command queue and the device buffer stay with the caller, who
/// pairs this descriptor's view with the handle it stands for.
pub struct VectorScale<T> {
    /// Input scalar coefficient.
    pub alpha: T,
    /// Number of elements the operation touches.
    pub n: usize,
    /// View of the x vector.
    pub x_vector: VectorBuffer<T>,
    /// Stride of the x vector; one means contiguous.
    pub x_stride: usize,
}

/// The argument record of the native call this descriptor prepares:
/// extent, offset and stride in elements, exactly as the native entry
/// point takes them.
#[derive(Clone, Copy, Debug, PartialEq, Eq, Structural)]
pub struct ScalCall<T> {
    /// The scalar coefficient, in the host representation; real
    /// scalars cross the boundary unchanged and complex ones through
    /// their wire form.
    pub alpha: T,
    pub n: usize,
    pub x_offset: usize,
    pub x_stride: usize,
}

impl<T> VectorScale<T> {
    /// The dimensional invariant: the vector fits its buffer.
    pub open spec fn dims_ok(self) -> bool {
        self.x_vector.fits(self.n, self.x_stride)
    }

    /// The argument record `run` produces.
    pub open spec fn call_spec(self) -> ScalCall<T> {
        ScalCall {
            alpha: self.alpha,
            n: self.n,
            x_offset: self.x_vector.offset,
            x_stride: self.x_stride,
        }
    }

    /// A descriptor over the whole vector: the stride defaults to one.
    pub fn new(alpha: T, n: usize, x_vector: VectorBuffer<T>) -> (r: VectorScale<T>)
        ensures
            r.alpha == alpha,
            r.n == n,
            r.x_vector == x_vector,
            r.x_stride == 1,
    {
        VectorScale { alpha, n, x_vector, x_stride: 1 }
    }

    /// The same descriptor with the given x stride.
    pub fn x_stride(self, x_stride: usize) -> (r: VectorScale<T>)
        ensures
            r == (VectorScale { x_stride, ..self }),
    {
        VectorScale { x_stride, ..self }
    }

    /// Decides the dimensional invariant.
    pub fn check_dimensions(&self) -> (r: bool)
        ensures
            r == self.dims_ok(),
    {
        self.x_vector.check_fits(self.n, self.x_stride)
    }

    /// Consumes the descriptor and produces the argument record of the
    /// native call, for a descriptor whose invariant holds.
    pub fn run(self) -> (c: ScalCall<T>)
        requires
            self.dims_ok(),
        ensures
            c == self.call_spec(),
    {
        ScalCall {
            alpha: self.alpha,
            n: self.n,
            x_offset: self.x_vector.offset,
            x_stride: self.x_stride,
        }
    }

    /// `run`, deciding the invariant first: an argument record comes
    /// back exactly when the invariant holds, so no native call can be
    /// issued from a descriptor that violates it.
    pub fn try_run(self) -> (r: Option<ScalCall<T>>)
        ensures
            self.dims_ok() ==> r == Some(self.call_spec()),
            !self.dims_ok() ==> r is None,
    {
        if self.check_dimensions() {
            Some(self.run())
        } else {
            None
        }
    }
}

} // verus!
