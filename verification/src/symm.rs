//! Symmetric matrix multiply.

use vstd::prelude::*;

use crate::MatrixBuffer;
use crate::MatrixLayout;
use crate::MultiplicationSide;
use crate::NeutralAdd;
use crate::NeutralMul;
use crate::ReprSys;
use crate::TriangleLayout;

verus! {

/// Descriptor of the symmetric matrix multiply, over matrices of one
/// element order and one scalar type:
///
/// - with `side` left, `A` is a symmetric `m` by `m` matrix and
///   `C := alpha * A * B + beta * C` is performed;
/// - with `side` right, `A` is a symmetric `n` by `n` matrix and
///   `C := alpha * B * A + beta * C` is performed;
/// - `B` and `C` are `m` rows by `n` columns either way, and only the
///   `triangle` of `A` named by the descriptor is read.
///
/// The command queue and the device buffers stay with the caller, who
/// pairs this descriptor's views with the handles they stand for.
pub struct Symm<T, L: MatrixLayout> {
    /// View of the symmetric operand matrix.
    pub a: MatrixBuffer<T, L>,
    /// View of the other operand matrix.
    pub b: MatrixBuffer<T, L>,
    /// View of the accumulator matrix the product is written to.
    pub c: MatrixBuffer<T, L>,
    /// Coefficient of the product; defaults to the multiplicative
    /// identity.
    pub alpha: T,
    /// Coefficient of the accumulator; defaults to the additive
    /// identity, which discards the previous contents of `C`.
    pub beta: T,
    /// Which side `A` is multiplied on.
    pub side: MultiplicationSide,
    /// Which triangle of `A` holds its stored elements.
    pub triangle: TriangleLayout,
}

/// The argument record of the native symmetric-multiply call: layout,
/// side and triangle codes, the two problem sizes, the coefficients,
/// and each operand's offset and leading dimension in elements,
/// exactly as the native entry point takes them.
#[derive(Clone, Copy, Debug, PartialEq, Eq, Structural)]
pub struct SymmCall<T> {
    pub layout_code: u32,
    pub side_code: u32,
    pub triangle_code: u32,
    pub m: usize,
    pub n: usize,
    pub alpha: T,
    pub a_offset: usize,
    pub a_stride: usize,
    pub b_offset: usize,
    pub b_stride: usize,
    pub beta: T,
    pub c_offset: usize,
    pub c_stride: usize,
}

impl<T: NeutralAdd + NeutralMul, L: MatrixLayout> Symm<T, L> {
    /// A descriptor with the neutral defaults: `alpha` the
    /// multiplicative identity and `beta` the additive identity.
    pub fn new(
        side: MultiplicationSide,
        triangle: TriangleLayout,
        a: MatrixBuffer<T, L>,
        b: MatrixBuffer<T, L>,
        c: MatrixBuffer<T, L>,
    ) -> (r: Symm<T, L>)
        ensures
            r.a == a,
            r.b == b,
            r.c == c,
            r.alpha == T::one_spec(),
            r.beta == T::zero_spec(),
            r.side == side,
            r.triangle == triangle,
    {
        Symm { a, b, c, alpha: T::one(), beta: T::zero(), side, triangle }
    }
}

impl<T, L: MatrixLayout> Symm<T, L> {
    /// The dimensional invariant: `B` and `C` agree in shape, and `A`
    /// is square with the side of `C` it is multiplied on.
    pub open spec fn dims_ok(self) -> bool {
        self.b.spec_rows() == self.c.spec_rows() && self.b.spec_columns() == self.c.spec_columns()
            && self.a.spec_rows() == self.a.spec_columns() && match self.side {
            MultiplicationSide::Left => self.a.spec_rows() == self.c.spec_rows(),
            MultiplicationSide::Right => self.a.spec_rows() == self.c.spec_columns(),
        }
    }

    /// The argument record `run` produces.
    pub open spec fn call_spec(self) -> SymmCall<T> {
        SymmCall {
            layout_code: self.a.spec_layout().repr_spec(),
            side_code: self.side.repr_spec(),
            triangle_code: self.triangle.repr_spec(),
            m: self.c.spec_rows(),
            n: self.c.spec_columns(),
            alpha: self.alpha,
            a_offset: self.a.spec_offset(),
            a_stride: self.a.spec_stride(),
            b_offset: self.b.spec_offset(),
            b_stride: self.b.spec_stride(),
            beta: self.beta,
            c_offset: self.c.spec_offset(),
            c_stride: self.c.spec_stride(),
        }
    }

    /// The same descriptor with the given product coefficient.
    pub fn alpha(self, alpha: T) -> (r: Symm<T, L>)
        ensures
            r == (Symm { alpha, ..self }),
    {
        Symm { alpha, ..self }
    }

    /// The same descriptor with the given accumulator coefficient.
    pub fn beta(self, beta: T) -> (r: Symm<T, L>)
        ensures
            r == (Symm { beta, ..self }),
    {
        Symm { beta, ..self }
    }

    /// Decides the dimensional invariant.
    pub fn check_dimensions(&self) -> (r: bool)
        ensures
            r == self.dims_ok(),
    {
        self.b.rows() == self.c.rows() && self.b.columns() == self.c.columns() && self.a.rows()
            == self.a.columns() && match self.side {
            MultiplicationSide::Left => self.a.rows() == self.c.rows(),
            MultiplicationSide::Right => self.a.rows() == self.c.columns(),
        }
    }

    /// Consumes the descriptor and produces the argument record of the
    /// native call, for a descriptor whose invariant holds.
    pub fn run(self) -> (c: SymmCall<T>)
        requires
            self.dims_ok(),
        ensures
            c == self.call_spec(),
    {
        SymmCall {
            layout_code: self.a.layout().to_c(),
            side_code: self.side.to_c(),
            triangle_code: self.triangle.to_c(),
            m: self.c.rows(),
            n: self.c.columns(),
            alpha: self.alpha,
            a_offset: self.a.offset(),
            a_stride: self.a.stride(),
            b_offset: self.b.offset(),
            b_stride: self.b.stride(),
            beta: self.beta,
            c_offset: self.c.offset(),
            c_stride: self.c.stride(),
        }
    }

    /// `run`, deciding the invariant first: an argument record comes
    /// back exactly when the invariant holds, so no native call can be
    /// issued from a descriptor that violates it.
    pub fn try_run(self) -> (r: Option<SymmCall<T>>)
        ensures
            self.dims_ok() ==> r == Some(self.call_spec()),
            !self.dims_ok() ==> r is None,
    {
        if self.check_dimensions() {
            Some(self.run())
        } else {
            None
        }
    }
}

} // verus!
