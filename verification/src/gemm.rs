//! Generalized matrix multiply.

use vstd::prelude::*;

use crate::MatrixBuffer;
use crate::MatrixLayout;
use crate::MatrixTranspose;
use crate::NeutralAdd;
use crate::NeutralMul;
use crate::ReprSys;

verus! {

/// Descriptor of the generalized matrix multiply
/// `C := alpha * A * B + beta * C`, over matrices of one element order
/// and one scalar type:
///
/// - `A` is `m` rows by `k` columns,
/// - `B` is `k` rows by `n` columns,
/// - `C` is `m` rows by `n` columns.
///
/// The shape check applies to the stored shapes: the transpose flags
/// are forwarded to the native call but do not change which shapes are
/// checked.  The command queue and the device buffers stay with the
/// caller, who pairs this descriptor's views with the handles they
/// stand for.
pub struct Gemm<T, L: MatrixLayout> {
    /// View of the left operand matrix.
    pub a: MatrixBuffer<T, L>,
    /// View of the right operand matrix.
    pub b: MatrixBuffer<T, L>,
    /// View of the accumulator matrix the product is written to.
    pub c: MatrixBuffer<T, L>,
    /// Coefficient of the product; defaults to the multiplicative
    /// identity.
    pub alpha: T,
    /// Coefficient of the accumulator; defaults to the additive
    /// identity, which discards the previous contents of `C`.
    pub beta: T,
    /// Whether `A` is used transposed.
    pub transpose_a: MatrixTranspose,
    /// Whether `B` is used transposed.
    pub transpose_b: MatrixTranspose,
}

/// The argument record of the native matrix-multiply call: layout and
/// transpose codes, the three problem sizes, the coefficients, and
/// each operand's offset and leading dimension in elements, exactly as
/// the native entry point takes them.
#[derive(Clone, Copy, Debug, PartialEq, Eq, Structural)]
pub struct GemmCall<T> {
    pub layout_code: u32,
    pub a_transpose_code: u32,
    pub b_transpose_code: u32,
    pub m: usize,
    pub n: usize,
    pub k: usize,
    pub alpha: T,
    pub a_offset: usize,
    pub a_stride: usize,
    pub b_offset: usize,
    pub b_stride: usize,
    pub beta: T,
    pub c_offset: usize,
    pub c_stride: usize,
}

/// Production of a matrix-multiply call record from a descriptor.
pub trait RunGemm<T>: Sized {
    /// The dimensional invariant of the product.
    spec fn dims_ok(self) -> bool;

    /// The argument record `run` produces.
    spec fn call_spec(self) -> GemmCall<T>;

    /// Consumes the descriptor and produces the argument record of the
    /// native call, for a descriptor whose invariant holds.
    fn run(self) -> (c: GemmCall<T>)
        requires
            self.dims_ok(),
        ensures
            c == self.call_spec(),
    ;

    /// `run`, deciding the invariant first: an argument record comes
    /// back exactly when the invariant holds, so no native call can be
    /// issued from a descriptor that violates it.
    fn try_run(self) -> (r: Option<GemmCall<T>>)
        ensures
            self.dims_ok() ==> r == Some(self.call_spec()),
            !self.dims_ok() ==> r is None,
    ;
}

impl<T: NeutralAdd + NeutralMul, L: MatrixLayout> Gemm<T, L> {
    /// A descriptor with the neutral defaults: `alpha` the
    /// multiplicative identity, `beta` the additive identity, and
    /// neither operand transposed.
    pub fn new(a: MatrixBuffer<T, L>, b: MatrixBuffer<T, L>, c: MatrixBuffer<T, L>) -> (r: Gemm<
        T,
        L,
    >)
        ensures
            r.a == a,
            r.b == b,
            r.c == c,
            r.alpha == T::one_spec(),
            r.beta == T::zero_spec(),
            r.transpose_a == MatrixTranspose::No,
            r.transpose_b == MatrixTranspose::No,
    {
        Gemm {
            a,
            b,
            c,
            alpha: T::one(),
            beta: T::zero(),
            transpose_a: MatrixTranspose::No,
            transpose_b: MatrixTranspose::No,
        }
    }
}

impl<T, L: MatrixLayout> Gemm<T, L> {
    /// The same descriptor with the given product coefficient.
    pub fn alpha(self, alpha: T) -> (r: Gemm<T, L>)
        ensures
            r == (Gemm { alpha, ..self }),
    {
        Gemm { alpha, ..self }
    }

    /// The same descriptor with the given accumulator coefficient.
    pub fn beta(self, beta: T) -> (r: Gemm<T, L>)
        ensures
            r == (Gemm { beta, ..self }),
    {
        Gemm { beta, ..self }
    }

    /// The same descriptor with the given transpose flag for `A`.
    pub fn transpose_a(self, transpose_a: MatrixTranspose) -> (r: Gemm<T, L>)
        ensures
            r == (Gemm { transpose_a, ..self }),
    {
        Gemm { transpose_a, ..self }
    }

    /// The same descriptor with the given transpose flag for `B`.
    pub fn transpose_b(self, transpose_b: MatrixTranspose) -> (r: Gemm<T, L>)
        ensures
            r == (Gemm { transpose_b, ..self }),
    {
        Gemm { transpose_b, ..self }
    }

    /// Decides the dimensional invariant.
    pub fn check_dimensions(&self) -> (r: bool)
        ensures
            r == RunGemm::dims_ok(*self),
    {
        self.a.columns() == self.b.rows() && self.b.columns() == self.c.columns()
            && self.c.rows() == self.a.rows()
    }
}

impl<T, L: MatrixLayout> RunGemm<T> for Gemm<T, L> {
    /// The chaining invariant of the product: `A` is as wide as `B` is
    /// high, and `C` has the height of `A` and the width of `B`.
    open spec fn dims_ok(self) -> bool {
        self.a.spec_columns() == self.b.spec_rows() && self.b.spec_columns()
            == self.c.spec_columns() && self.c.spec_rows() == self.a.spec_rows()
    }

    open spec fn call_spec(self) -> GemmCall<T> {
        GemmCall {
            layout_code: self.a.spec_layout().repr_spec(),
            a_transpose_code: self.transpose_a.repr_spec(),
            b_transpose_code: self.transpose_b.repr_spec(),
            m: self.c.spec_rows(),
            n: self.b.spec_columns(),
            k: self.a.spec_columns(),
            alpha: self.alpha,
            a_offset: self.a.spec_offset(),
            a_stride: self.a.spec_stride(),
            b_offset: self.b.spec_offset(),
            b_stride: self.b.spec_stride(),
            beta: self.beta,
            c_offset: self.c.spec_offset(),
            c_stride: self.c.spec_stride(),
        }
    }

    fn run(self) -> GemmCall<T> {
        GemmCall {
            layout_code: self.a.layout().to_c(),
            a_transpose_code: self.transpose_a.to_c(),
            b_transpose_code: self.transpose_b.to_c(),
            m: self.c.rows(),
            n: self.b.columns(),
            k: self.a.columns(),
            alpha: self.alpha,
            a_offset: self.a.offset(),
            a_stride: self.a.stride(),
            b_offset: self.b.offset(),
            b_stride: self.b.stride(),
            beta: self.beta,
            c_offset: self.c.offset(),
            c_stride: self.c.stride(),
        }
    }

    fn try_run(self) -> Option<GemmCall<T>> {
        if self.check_dimensions() {
            Some(self.run())
        } else {
            None
        }
    }
}

} // verus!
