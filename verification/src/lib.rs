//! Typed, shape-checked dispatch layer for an OpenCL BLAS accelerator
//! library.
//!
//! The numeric work itself runs on a device, reached through a native
//! call boundary that this crate never crosses: every routine here is
//! host-side bookkeeping.  The crate
//!
//! - models the device-resident buffers by the one attribute the host
//!   may rely on, their length in elements, and wraps them in typed
//!   vector and matrix views carrying shape metadata;
//! - validates the dimensional invariants of each operation before the
//!   corresponding native call may be issued, and assembles the exact
//!   argument record for that call;
//! - converts host scalars to the bit-layout the call boundary expects;
//! - translates the raw status code a native call returns into a
//!   structured error taxonomy.
//!
//! Scalar components are carried as IEEE-754 bit patterns (`u32` for
//! single precision, `u64` for double precision), so conversions are
//! bit-exact by construction.  The caller owning the real device
//! handles pairs each view with its buffer, issues the prepared call,
//! and hands the returned status code back to [`result::Error::from_c_either`].

use vstd::prelude::*;

pub mod amax;
pub mod amin;
pub mod asum;
pub mod axpy;
pub mod copy;
pub mod dot;
pub mod dotc;
pub mod gemm;
pub mod max;
pub mod min;
pub mod nrm2;
pub mod result;
pub mod scal;
pub mod sum;
pub mod swap;
pub mod symm;

pub use result::Error;

verus! {

/// Conversion of a host-side value to the representation the native
/// call boundary expects.
pub trait ReprSys: Sized {
    type Representation;

    /// The representation `to_c` produces.
    spec fn repr_spec(&self) -> Self::Representation;

    fn to_c(&self) -> (r: Self::Representation)
        ensures
            r == self.repr_spec(),
    ;
}

/// Code for row-major element order at the native call boundary.
pub const LAYOUT_ROW_MAJOR_CODE: u32 = 101;
/// Code for column-major element order at the native call boundary.
pub const LAYOUT_COL_MAJOR_CODE: u32 = 102;
/// Code for using a matrix as stored.
pub const TRANSPOSE_NO_CODE: u32 = 111;
/// Code for using a matrix transposed.
pub const TRANSPOSE_YES_CODE: u32 = 112;
/// Code for using a matrix conjugate-transposed.
pub const TRANSPOSE_CONJUGATE_CODE: u32 = 113;
/// Code for reading the upper triangle of a symmetric matrix.
pub const TRIANGLE_UPPER_CODE: u32 = 121;
/// Code for reading the lower triangle of a symmetric matrix.
pub const TRIANGLE_LOWER_CODE: u32 = 122;
/// Code for multiplying the symmetric matrix from the left.
pub const SIDE_LEFT_CODE: u32 = 141;
/// Code for multiplying the symmetric matrix from the right.
pub const SIDE_RIGHT_CODE: u32 = 142;

/// Element order of a matrix view, chosen at the type level so that a
/// view and the operations over it agree on it at compile time.
pub trait MatrixLayout: ReprSys<Representation = u32> + Copy {
    /// The stride a freshly made view of this layout gets: the minor
    /// dimension, `columns` for row-major and `rows` for column-major.
    spec fn default_stride_spec(columns: usize, rows: usize) -> usize;

    fn default_stride(columns: usize, rows: usize) -> (r: usize)
        ensures
            r == Self::default_stride_spec(columns, rows),
    ;
}

/// Column-major element order: consecutive elements of a column are
/// adjacent in the buffer.
#[derive(Clone, Copy, Debug, PartialEq, Eq, Structural)]
pub struct LayoutColMajor;

impl ReprSys for LayoutColMajor {
    type Representation = u32;

    open spec fn repr_spec(&self) -> u32 {
        LAYOUT_COL_MAJOR_CODE
    }

    fn to_c(&self) -> u32 {
        LAYOUT_COL_MAJOR_CODE
    }
}

impl MatrixLayout for LayoutColMajor {
    open spec fn default_stride_spec(columns: usize, rows: usize) -> usize {
        rows
    }

    fn default_stride(columns: usize, rows: usize) -> usize {
        rows
    }
}

/// Row-major element order: consecutive elements of a row are adjacent
/// in the buffer.
#[derive(Clone, Copy, Debug, PartialEq, Eq, Structural)]
pub struct LayoutRowMajor;

impl ReprSys for LayoutRowMajor {
    type Representation = u32;

    open spec fn repr_spec(&self) -> u32 {
        LAYOUT_ROW_MAJOR_CODE
    }

    fn to_c(&self) -> u32 {
        LAYOUT_ROW_MAJOR_CODE
    }
}

impl MatrixLayout for LayoutRowMajor {
    open spec fn default_stride_spec(columns: usize, rows: usize) -> usize {
        columns
    }

    fn default_stride(columns: usize, rows: usize) -> usize {
        columns
    }
}

/// Whether a matrix operand is used as stored, transposed, or
/// conjugate-transposed.
#[derive(Clone, Copy, Debug, PartialEq, Eq, Structural)]
pub enum MatrixTranspose {
    Yes,
    No,
    Conjugate,
}

impl MatrixTranspose {
    /// The code of this flag at the native call boundary.
    pub fn to_c(&self) -> (r: u32)
        ensures
            r == self.repr_spec(),
    {
        match self {
            MatrixTranspose::Yes => TRANSPOSE_YES_CODE,
            MatrixTranspose::No => TRANSPOSE_NO_CODE,
            MatrixTranspose::Conjugate => TRANSPOSE_CONJUGATE_CODE,
        }
    }
}

impl ReprSys for MatrixTranspose {
    type Representation = u32;

    open spec fn repr_spec(&self) -> u32 {
        match self {
            MatrixTranspose::Yes => TRANSPOSE_YES_CODE,
            MatrixTranspose::No => TRANSPOSE_NO_CODE,
            MatrixTranspose::Conjugate => TRANSPOSE_CONJUGATE_CODE,
        }
    }

    fn to_c(&self) -> u32 {
        MatrixTranspose::to_c(self)
    }
}

/// Which side the symmetric operand of a symmetric multiply stands on.
#[derive(Clone, Copy, Debug, PartialEq, Eq, Structural)]
pub enum MultiplicationSide {
    Left,
    Right,
}

impl MultiplicationSide {
    /// The code of this flag at the native call boundary.
    pub fn to_c(&self) -> (r: u32)
        ensures
            r == self.repr_spec(),
    {
        match self {
            MultiplicationSide::Left => SIDE_LEFT_CODE,
            MultiplicationSide::Right => SIDE_RIGHT_CODE,
        }
    }
}

impl ReprSys for MultiplicationSide {
    type Representation = u32;

    open spec fn repr_spec(&self) -> u32 {
        match self {
            MultiplicationSide::Left => SIDE_LEFT_CODE,
            MultiplicationSide::Right => SIDE_RIGHT_CODE,
        }
    }

    fn to_c(&self) -> u32 {
        MultiplicationSide::to_c(self)
    }
}

/// Which triangle of a symmetric matrix holds the stored elements.
#[derive(Clone, Copy, Debug, PartialEq, Eq, Structural)]
pub enum TriangleLayout {
    Upper,
    Lower,
}

impl TriangleLayout {
    /// The code of this flag at the native call boundary.
    pub fn to_c(&self) -> (r: u32)
        ensures
            r == self.repr_spec(),
    {
        match self {
            TriangleLayout::Upper => TRIANGLE_UPPER_CODE,
            TriangleLayout::Lower => TRIANGLE_LOWER_CODE,
        }
    }
}

impl ReprSys for TriangleLayout {
    type Representation = u32;

    open spec fn repr_spec(&self) -> u32 {
        match self {
            TriangleLayout::Upper => TRIANGLE_UPPER_CODE,
            TriangleLayout::Lower => TRIANGLE_LOWER_CODE,
        }
    }

    fn to_c(&self) -> u32 {
        TriangleLayout::to_c(self)
    }
}

/// IEEE-754 bit pattern of positive zero, single precision.
pub const FLOAT32_ZERO_BITS: u32 = 0;
/// IEEE-754 bit pattern of one, single precision.
pub const FLOAT32_ONE_BITS: u32 = 0x3F80_0000;
/// IEEE-754 bit pattern of positive zero, double precision.
pub const FLOAT64_ZERO_BITS: u64 = 0;
/// IEEE-754 bit pattern of one, double precision.
pub const FLOAT64_ONE_BITS: u64 = 0x3FF0_0000_0000_0000;

/// A single-precision real scalar, carried as its IEEE-754 bit
/// pattern.  The native call boundary takes the value itself, so no
/// wire conversion exists for it.
#[derive(Clone, Copy, Debug, PartialEq, Eq, Structural)]
pub struct Float32 {
    pub bits: u32,
}

/// A double-precision real scalar, carried as its IEEE-754 bit
/// pattern.
#[derive(Clone, Copy, Debug, PartialEq, Eq, Structural)]
pub struct Float64 {
    pub bits: u64,
}

/// A single-precision complex scalar; each component is carried as its
/// IEEE-754 bit pattern.
#[derive(Clone, Copy, Debug, PartialEq, Eq, Structural)]
pub struct Complex32 {
    pub re: u32,
    pub im: u32,
}

/// A double-precision complex scalar; each component is carried as its
/// IEEE-754 bit pattern.
#[derive(Clone, Copy, Debug, PartialEq, Eq, Structural)]
pub struct Complex64 {
    pub re: u64,
    pub im: u64,
}

/// The two-element vector a single-precision complex scalar becomes at
/// the native call boundary: components in the order real part first,
/// imaginary part second, each as its IEEE-754 bit pattern.
#[derive(Clone, Copy, Debug, PartialEq, Eq, Structural)]
pub struct ClFloat2 {
    pub s0: u32,
    pub s1: u32,
}

/// The two-element vector a double-precision complex scalar becomes at
/// the native call boundary: real part first, imaginary part second.
#[derive(Clone, Copy, Debug, PartialEq, Eq, Structural)]
pub struct ClDouble2 {
    pub s0: u64,
    pub s1: u64,
}

impl ReprSys for Complex32 {
    type Representation = ClFloat2;

    open spec fn repr_spec(&self) -> ClFloat2 {
        ClFloat2 { s0: self.re, s1: self.im }
    }

    fn to_c(&self) -> ClFloat2 {
        ClFloat2 { s0: self.re, s1: self.im }
    }
}

impl ReprSys for Complex64 {
    type Representation = ClDouble2;

    open spec fn repr_spec(&self) -> ClDouble2 {
        ClDouble2 { s0: self.re, s1: self.im }
    }

    fn to_c(&self) -> ClDouble2 {
        ClDouble2 { s0: self.re, s1: self.im }
    }
}

/// A scalar type with an additive identity, the default for the `beta`
/// coefficient of the matrix products.
pub trait NeutralAdd: Sized {
    /// The additive identity of the type.
    spec fn zero_spec() -> Self;

    fn zero() -> (r: Self)
        ensures
            r == Self::zero_spec(),
    ;
}

/// A scalar type with a multiplicative identity, the default for the
/// `alpha` coefficient of the matrix products.
pub trait NeutralMul: Sized {
    /// The multiplicative identity of the type.
    spec fn one_spec() -> Self;

    fn one() -> (r: Self)
        ensures
            r == Self::one_spec(),
    ;
}

impl NeutralAdd for Float32 {
    open spec fn zero_spec() -> Float32 {
        Float32 { bits: FLOAT32_ZERO_BITS }
    }

    fn zero() -> Float32 {
        Float32 { bits: FLOAT32_ZERO_BITS }
    }
}

impl NeutralMul for Float32 {
    open spec fn one_spec() -> Float32 {
        Float32 { bits: FLOAT32_ONE_BITS }
    }

    fn one() -> Float32 {
        Float32 { bits: FLOAT32_ONE_BITS }
    }
}

impl NeutralAdd for Float64 {
    open spec fn zero_spec() -> Float64 {
        Float64 { bits: FLOAT64_ZERO_BITS }
    }

    fn zero() -> Float64 {
        Float64 { bits: FLOAT64_ZERO_BITS }
    }
}

impl NeutralMul for Float64 {
    open spec fn one_spec() -> Float64 {
        Float64 { bits: FLOAT64_ONE_BITS }
    }

    fn one() -> Float64 {
        Float64 { bits: FLOAT64_ONE_BITS }
    }
}

impl NeutralAdd for Complex32 {
    open spec fn zero_spec() -> Complex32 {
        Complex32 { re: FLOAT32_ZERO_BITS, im: FLOAT32_ZERO_BITS }
    }

    fn zero() -> Complex32 {
        Complex32 { re: FLOAT32_ZERO_BITS, im: FLOAT32_ZERO_BITS }
    }
}

impl NeutralMul for Complex32 {
    open spec fn one_spec() -> Complex32 {
        Complex32 { re: FLOAT32_ONE_BITS, im: FLOAT32_ZERO_BITS }
    }

    fn one() -> Complex32 {
        Complex32 { re: FLOAT32_ONE_BITS, im: FLOAT32_ZERO_BITS }
    }
}

impl NeutralAdd for Complex64 {
    open spec fn zero_spec() -> Complex64 {
        Complex64 { re: FLOAT64_ZERO_BITS, im: FLOAT64_ZERO_BITS }
    }

    fn zero() -> Complex64 {
        Complex64 { re: FLOAT64_ZERO_BITS, im: FLOAT64_ZERO_BITS }
    }
}

impl NeutralMul for Complex64 {
    open spec fn one_spec() -> Complex64 {
        Complex64 { re: FLOAT64_ONE_BITS, im: FLOAT64_ZERO_BITS }
    }

    fn one() -> Complex64 {
        Complex64 { re: FLOAT64_ONE_BITS, im: FLOAT64_ZERO_BITS }
    }
}

/// The host-side record of a device memory allocation: the one
/// attribute the host may rely on is its length in elements.  The
/// allocation itself is owned by the external queue library; the
/// caller pairs each record with the handle it stands for.
#[derive(Debug)]
pub struct DeviceBuffer<T> {
    len: usize,
    element: std::marker::PhantomData<T>,
}

impl<T> Clone for DeviceBuffer<T> {
    fn clone(&self) -> (r: Self)
        ensures
            r == *self,
    {
        DeviceBuffer { len: self.len, element: std::marker::PhantomData }
    }
}

impl<T> Copy for DeviceBuffer<T> {

}

impl<T> DeviceBuffer<T> {
    /// Length of the allocation, in elements.
    pub closed spec fn spec_len(self) -> usize {
        self.len
    }

    /// Records an allocation of `len` elements.
    pub fn new(len: usize) -> (r: DeviceBuffer<T>)
        ensures
            r.spec_len() == len,
    {
        DeviceBuffer { len, element: std::marker::PhantomData }
    }

    pub fn len(&self) -> (r: usize)
        ensures
            r == self.spec_len(),
    {
        self.len
    }
}

/// A typed vector view into a device buffer: the buffer record and the
/// element index where the vector starts.
#[derive(Debug)]
pub struct VectorBuffer<T> {
    /// The buffer the vector lives in.
    pub buffer: DeviceBuffer<T>,
    /// Element index where the vector starts.
    pub offset: usize,
}

impl<T> Clone for VectorBuffer<T> {
    fn clone(&self) -> (r: Self)
        ensures
            r == *self,
    {
        VectorBuffer { buffer: self.buffer, offset: self.offset }
    }
}

impl<T> Copy for VectorBuffer<T> {

}

impl<T> VectorBuffer<T> {
    /// The dimensional invariant of a vector operand: `n` elements,
    /// `stride` apart, starting at the offset, all lie within the
    /// buffer.
    pub open spec fn fits(self, n: usize, stride: usize) -> bool {
        self.offset + n * stride <= self.buffer.spec_len()
    }

    /// A view of the whole buffer, starting at its first element.
    pub fn new(buffer: DeviceBuffer<T>) -> (r: VectorBuffer<T>)
        ensures
            r.buffer == buffer,
            r.offset == 0,
    {
        VectorBuffer { buffer, offset: 0 }
    }

    /// The same view starting at element `offset` instead.
    pub fn offset(self, offset: usize) -> (r: VectorBuffer<T>)
        ensures
            r.buffer == self.buffer,
            r.offset == offset,
    {
        VectorBuffer { buffer: self.buffer, offset }
    }

    /// Decides the dimensional invariant; no arithmetic here can
    /// overflow, and an extent too large for the address space never
    /// fits.
    pub fn check_fits(&self, n: usize, stride: usize) -> (r: bool)
        ensures
            r == self.fits(n, stride),
    {
        match n.checked_mul(stride) {
            Some(span) => match self.offset.checked_add(span) {
                Some(end) => end <= self.buffer.len(),
                None => false,
            },
            None => false,
        }
    }
}

/// A typed matrix view into a device buffer: shape, start offset,
/// stride (leading dimension) and element order.
///
/// Invariant: the matrix fits its buffer (`rows * columns` no longer
/// than the buffer) and the stride spans at least the minor dimension
/// (`columns` for row-major, `rows` for column-major).
#[derive(Debug)]
pub struct MatrixBuffer<T, L: MatrixLayout> {
    buffer: DeviceBuffer<T>,
    rows: usize,
    columns: usize,
    offset: usize,
    stride: usize,
    layout: L,
}

impl<T, L: MatrixLayout> Clone for MatrixBuffer<T, L> {
    fn clone(&self) -> (r: Self)
        ensures
            r == *self,
    {
        proof {
            use_type_invariant(self);
        }
        MatrixBuffer {
            buffer: self.buffer,
            rows: self.rows,
            columns: self.columns,
            offset: self.offset,
            stride: self.stride,
            layout: self.layout,
        }
    }
}

impl<T, L: MatrixLayout> Copy for MatrixBuffer<T, L> {

}

impl<T, L: MatrixLayout> MatrixBuffer<T, L> {
    #[verifier::type_invariant]
    spec fn well_formed(self) -> bool {
        self.rows * self.columns <= self.buffer.spec_len() && self.stride
            >= L::default_stride_spec(self.columns, self.rows)
    }

    /// Length of the underlying buffer, in elements.
    pub closed spec fn spec_buffer_len(self) -> usize {
        self.buffer.spec_len()
    }

    pub closed spec fn spec_rows(self) -> usize {
        self.rows
    }

    pub closed spec fn spec_columns(self) -> usize {
        self.columns
    }

    /// Element index where the matrix starts in the buffer.
    pub closed spec fn spec_offset(self) -> usize {
        self.offset
    }

    /// The leading dimension: element distance between successive
    /// rows (row-major) or columns (column-major).
    pub closed spec fn spec_stride(self) -> usize {
        self.stride
    }

    pub closed spec fn spec_layout(self) -> L {
        self.layout
    }

    /// A matrix view over the start of `buffer`, with the layout's
    /// default stride.
    pub fn new(columns: usize, rows: usize, buffer: DeviceBuffer<T>, layout: L) -> (r:
        MatrixBuffer<T, L>)
        requires
            rows * columns <= buffer.spec_len(),
        ensures
            r.spec_buffer_len() == buffer.spec_len(),
            r.spec_rows() == rows,
            r.spec_columns() == columns,
            r.spec_offset() == 0,
            r.spec_stride() == L::default_stride_spec(columns, rows),
            r.spec_layout() == layout,
    {
        let stride = L::default_stride(columns, rows);
        MatrixBuffer { buffer, rows, columns, offset: 0, stride, layout }
    }

    /// `new`, deciding first whether the matrix fits the buffer; no
    /// view is made when it does not.
    pub fn try_new(columns: usize, rows: usize, buffer: DeviceBuffer<T>, layout: L) -> (r: Option<
        MatrixBuffer<T, L>,
    >)
        ensures
            rows * columns <= buffer.spec_len() ==> (r matches Some(m) && m.spec_buffer_len()
                == buffer.spec_len() && m.spec_rows() == rows && m.spec_columns() == columns
                && m.spec_offset() == 0 && m.spec_stride() == L::default_stride_spec(columns, rows)
                && m.spec_layout() == layout),
            rows * columns > buffer.spec_len() ==> r is None,
    {
        match rows.checked_mul(columns) {
            Some(size) => {
                if size <= buffer.len() {
                    Some(MatrixBuffer::new(columns, rows, buffer, layout))
                } else {
                    None
                }
            },
            None => None,
        }
    }

    /// The record of the buffer the matrix lives in.
    pub fn buffer(&self) -> (r: DeviceBuffer<T>)
        ensures
            r.spec_len() == self.spec_buffer_len(),
    {
        self.buffer
    }

    /// Number of elements of the matrix itself; never more than the
    /// buffer holds.
    pub fn size(&self) -> (r: usize)
        ensures
            r == self.spec_rows() * self.spec_columns(),
            r <= self.spec_buffer_len(),
    {
        proof {
            use_type_invariant(self);
        }
        self.rows * self.columns
    }

    pub fn rows(&self) -> (r: usize)
        ensures
            r == self.spec_rows(),
    {
        self.rows
    }

    pub fn columns(&self) -> (r: usize)
        ensures
            r == self.spec_columns(),
    {
        self.columns
    }

    pub fn offset(&self) -> (r: usize)
        ensures
            r == self.spec_offset(),
    {
        self.offset
    }

    pub fn stride(&self) -> (r: usize)
        ensures
            r == self.spec_stride(),
            r >= L::default_stride_spec(self.spec_columns(), self.spec_rows()),
    {
        proof {
            use_type_invariant(self);
        }
        self.stride
    }

    pub fn layout(&self) -> (r: L)
        ensures
            r == self.spec_layout(),
    {
        self.layout
    }
}

} // verus!
