//! Translation of raw native status codes into a structured error
//! taxonomy.
//!
//! Every native call returns a signed status code.  The sentinel
//! [`STATUS_SUCCESS`] means the call was accepted; each other
//! recognized code belongs to exactly one of three tiers: OpenCL
//! runtime errors ([`OclError`]), BLAS argument errors ([`BlasError`])
//! and library-internal errors ([`BlastError`]).  A code no tier
//! recognizes is surfaced unchanged inside [`Error::Unknown`], so the
//! raw value is never lost and translation never fails.

use vstd::prelude::*;

verus! {

pub const STATUS_SUCCESS: i32 = 0;

pub const STATUS_OPEN_CL_COMPILER_NOT_AVAILABLE: i32 = -3;
pub const STATUS_TEMP_BUFFER_ALLOC_FAILURE: i32 = -4;
pub const STATUS_OPEN_CL_OUT_OF_RESOURCES: i32 = -5;
pub const STATUS_OPEN_CL_OUT_OF_HOST_MEMORY: i32 = -6;
pub const STATUS_OPEN_CL_BUILD_PROGRAM_FAILURE: i32 = -11;
pub const STATUS_INVALID_VALUE: i32 = -30;
pub const STATUS_INVALID_COMMAND_QUEUE: i32 = -36;
pub const STATUS_INVALID_MEM_OBJECT: i32 = -38;
pub const STATUS_INVALID_BINARY: i32 = -42;
pub const STATUS_INVALID_BUILD_OPTIONS: i32 = -43;
pub const STATUS_INVALID_PROGRAM: i32 = -44;
pub const STATUS_INVALID_PROGRAM_EXECUTABLE: i32 = -45;
pub const STATUS_INVALID_KERNEL_NAME: i32 = -46;
pub const STATUS_INVALID_KERNEL_DEFINITION: i32 = -47;
pub const STATUS_INVALID_KERNEL: i32 = -48;
pub const STATUS_INVALID_ARG_INDEX: i32 = -49;
pub const STATUS_INVALID_ARG_VALUE: i32 = -50;
pub const STATUS_INVALID_ARG_SIZE: i32 = -51;
pub const STATUS_INVALID_KERNEL_ARGS: i32 = -52;
pub const STATUS_INVALID_LOCAL_NUM_DIMENSIONS: i32 = -53;
pub const STATUS_INVALID_LOCAL_THREADS_TOTAL: i32 = -54;
pub const STATUS_INVALID_LOCAL_THREADS_DIM: i32 = -55;
pub const STATUS_INVALID_GLOBAL_OFFSET: i32 = -56;
pub const STATUS_INVALID_EVENT_WAIT_LIST: i32 = -57;
pub const STATUS_INVALID_EVENT: i32 = -58;
pub const STATUS_INVALID_OPERATION: i32 = -59;
pub const STATUS_INVALID_BUFFER_SIZE: i32 = -61;
pub const STATUS_INVALID_GLOBAL_WORK_SIZE: i32 = -63;

pub const STATUS_NOT_IMPLEMENTED: i32 = -1024;
pub const STATUS_INVALID_MATRIX_A: i32 = -1022;
pub const STATUS_INVALID_MATRIX_B: i32 = -1021;
pub const STATUS_INVALID_MATRIX_C: i32 = -1020;
pub const STATUS_INVALID_VECTOR_X: i32 = -1019;
pub const STATUS_INVALID_VECTOR_Y: i32 = -1018;
pub const STATUS_INVALID_DIMENSION: i32 = -1017;
pub const STATUS_INVALID_LEAD_DIM_A: i32 = -1016;
pub const STATUS_INVALID_LEAD_DIM_B: i32 = -1015;
pub const STATUS_INVALID_LEAD_DIM_C: i32 = -1014;
pub const STATUS_INVALID_INCREMENT_X: i32 = -1013;
pub const STATUS_INVALID_INCREMENT_Y: i32 = -1012;
pub const STATUS_INSUFFICIENT_MEMORY_A: i32 = -1011;
pub const STATUS_INSUFFICIENT_MEMORY_B: i32 = -1010;
pub const STATUS_INSUFFICIENT_MEMORY_C: i32 = -1009;
pub const STATUS_INSUFFICIENT_MEMORY_X: i32 = -1008;
pub const STATUS_INSUFFICIENT_MEMORY_Y: i32 = -1007;

pub const STATUS_INSUFFICIENT_MEMORY_TEMP: i32 = -2050;
pub const STATUS_INVALID_BATCH_COUNT: i32 = -2049;
pub const STATUS_INVALID_OVERRIDE_KERNEL: i32 = -2048;
pub const STATUS_MISSING_OVERRIDE_PARAMETER: i32 = -2047;
pub const STATUS_INVALID_LOCAL_MEM_USAGE: i32 = -2046;
pub const STATUS_NO_HALF_PRECISION: i32 = -2045;
pub const STATUS_NO_DOUBLE_PRECISION: i32 = -2044;
pub const STATUS_INVALID_VECTOR_SCALAR: i32 = -2043;
pub const STATUS_INSUFFICIENT_MEMORY_SCALAR: i32 = -2042;
pub const STATUS_DATABASE_ERROR: i32 = -2041;
pub const STATUS_UNKNOWN_ERROR: i32 = -2040;
pub const STATUS_UNEXPECTED_ERROR: i32 = -2039;

/// OpenCL runtime errors: the first tier of the taxonomy.
#[derive(Clone, Copy, Debug, PartialEq, Eq, Structural)]
pub enum OclError {
    OpenCLCompilerNotAvailable,
    TempBufferAllocFailure,
    OpenCLOutOfResources,
    OpenCLOutOfHostMemory,
    OpenCLBuildProgramFailure,
    InvalidValue,
    InvalidCommandQueue,
    InvalidMemObject,
    InvalidBinary,
    InvalidBuildOptions,
    InvalidProgram,
    InvalidProgramExecutable,
    InvalidKernelName,
    InvalidKernelDefinition,
    InvalidKernel,
    InvalidArgIndex,
    InvalidArgValue,
    InvalidArgSize,
    InvalidKernelArgs,
    InvalidLocalNumDimensions,
    InvalidLocalThreadsTotal,
    InvalidLocalThreadsDim,
    InvalidGlobalOffset,
    InvalidEventWaitList,
    InvalidEvent,
    InvalidOperation,
    InvalidBufferSize,
    InvalidGlobalWorkSize,
}

impl OclError {
    /// The variant, if any, that this tier assigns to `status_code`.
    pub open spec fn spec_from_c(status_code: i32) -> Option<OclError> {
        if status_code == STATUS_OPEN_CL_COMPILER_NOT_AVAILABLE {
            Some(OclError::OpenCLCompilerNotAvailable)
        } else if status_code == STATUS_TEMP_BUFFER_ALLOC_FAILURE {
            Some(OclError::TempBufferAllocFailure)
        } else if status_code == STATUS_OPEN_CL_OUT_OF_RESOURCES {
            Some(OclError::OpenCLOutOfResources)
        } else if status_code == STATUS_OPEN_CL_OUT_OF_HOST_MEMORY {
            Some(OclError::OpenCLOutOfHostMemory)
        } else if status_code == STATUS_OPEN_CL_BUILD_PROGRAM_FAILURE {
            Some(OclError::OpenCLBuildProgramFailure)
        } else if status_code == STATUS_INVALID_VALUE {
            Some(OclError::InvalidValue)
        } else if status_code == STATUS_INVALID_COMMAND_QUEUE {
            Some(OclError::InvalidCommandQueue)
        } else if status_code == STATUS_INVALID_MEM_OBJECT {
            Some(OclError::InvalidMemObject)
        } else if status_code == STATUS_INVALID_BINARY {
            Some(OclError::InvalidBinary)
        } else if status_code == STATUS_INVALID_BUILD_OPTIONS {
            Some(OclError::InvalidBuildOptions)
        } else if status_code == STATUS_INVALID_PROGRAM {
            Some(OclError::InvalidProgram)
        } else if status_code == STATUS_INVALID_PROGRAM_EXECUTABLE {
            Some(OclError::InvalidProgramExecutable)
        } else if status_code == STATUS_INVALID_KERNEL_NAME {
            Some(OclError::InvalidKernelName)
        } else if status_code == STATUS_INVALID_KERNEL_DEFINITION {
            Some(OclError::InvalidKernelDefinition)
        } else if status_code == STATUS_INVALID_KERNEL {
            Some(OclError::InvalidKernel)
        } else if status_code == STATUS_INVALID_ARG_INDEX {
            Some(OclError::InvalidArgIndex)
        } else if status_code == STATUS_INVALID_ARG_VALUE {
            Some(OclError::InvalidArgValue)
        } else if status_code == STATUS_INVALID_ARG_SIZE {
            Some(OclError::InvalidArgSize)
        } else if status_code == STATUS_INVALID_KERNEL_ARGS {
            Some(OclError::InvalidKernelArgs)
        } else if status_code == STATUS_INVALID_LOCAL_NUM_DIMENSIONS {
            Some(OclError::InvalidLocalNumDimensions)
        } else if status_code == STATUS_INVALID_LOCAL_THREADS_TOTAL {
            Some(OclError::InvalidLocalThreadsTotal)
        } else if status_code == STATUS_INVALID_LOCAL_THREADS_DIM {
            Some(OclError::InvalidLocalThreadsDim)
        } else if status_code == STATUS_INVALID_GLOBAL_OFFSET {
            Some(OclError::InvalidGlobalOffset)
        } else if status_code == STATUS_INVALID_EVENT_WAIT_LIST {
            Some(OclError::InvalidEventWaitList)
        } else if status_code == STATUS_INVALID_EVENT {
            Some(OclError::InvalidEvent)
        } else if status_code == STATUS_INVALID_OPERATION {
            Some(OclError::InvalidOperation)
        } else if status_code == STATUS_INVALID_BUFFER_SIZE {
            Some(OclError::InvalidBufferSize)
        } else if status_code == STATUS_INVALID_GLOBAL_WORK_SIZE {
            Some(OclError::InvalidGlobalWorkSize)
        } else {
            None
        }
    }

    pub fn from_c(status_code: i32) -> (r: Option<OclError>)
        ensures
            r == OclError::spec_from_c(status_code),
    {
        if status_code == STATUS_OPEN_CL_COMPILER_NOT_AVAILABLE {
            Some(OclError::OpenCLCompilerNotAvailable)
        } else if status_code == STATUS_TEMP_BUFFER_ALLOC_FAILURE {
            Some(OclError::TempBufferAllocFailure)
        } else if status_code == STATUS_OPEN_CL_OUT_OF_RESOURCES {
            Some(OclError::OpenCLOutOfResources)
        } else if status_code == STATUS_OPEN_CL_OUT_OF_HOST_MEMORY {
            Some(OclError::OpenCLOutOfHostMemory)
        } else if status_code == STATUS_OPEN_CL_BUILD_PROGRAM_FAILURE {
            Some(OclError::OpenCLBuildProgramFailure)
        } else if status_code == STATUS_INVALID_VALUE {
            Some(OclError::InvalidValue)
        } else if status_code == STATUS_INVALID_COMMAND_QUEUE {
            Some(OclError::InvalidCommandQueue)
        } else if status_code == STATUS_INVALID_MEM_OBJECT {
            Some(OclError::InvalidMemObject)
        } else if status_code == STATUS_INVALID_BINARY {
            Some(OclError::InvalidBinary)
        } else if status_code == STATUS_INVALID_BUILD_OPTIONS {
            Some(OclError::InvalidBuildOptions)
        } else if status_code == STATUS_INVALID_PROGRAM {
            Some(OclError::InvalidProgram)
        } else if status_code == STATUS_INVALID_PROGRAM_EXECUTABLE {
            Some(OclError::InvalidProgramExecutable)
        } else if status_code == STATUS_INVALID_KERNEL_NAME {
            Some(OclError::InvalidKernelName)
        } else if status_code == STATUS_INVALID_KERNEL_DEFINITION {
            Some(OclError::InvalidKernelDefinition)
        } else if status_code == STATUS_INVALID_KERNEL {
            Some(OclError::InvalidKernel)
        } else if status_code == STATUS_INVALID_ARG_INDEX {
            Some(OclError::InvalidArgIndex)
        } else if status_code == STATUS_INVALID_ARG_VALUE {
            Some(OclError::InvalidArgValue)
        } else if status_code == STATUS_INVALID_ARG_SIZE {
            Some(OclError::InvalidArgSize)
        } else if status_code == STATUS_INVALID_KERNEL_ARGS {
            Some(OclError::InvalidKernelArgs)
        } else if status_code == STATUS_INVALID_LOCAL_NUM_DIMENSIONS {
            Some(OclError::InvalidLocalNumDimensions)
        } else if status_code == STATUS_INVALID_LOCAL_THREADS_TOTAL {
            Some(OclError::InvalidLocalThreadsTotal)
        } else if status_code == STATUS_INVALID_LOCAL_THREADS_DIM {
            Some(OclError::InvalidLocalThreadsDim)
        } else if status_code == STATUS_INVALID_GLOBAL_OFFSET {
            Some(OclError::InvalidGlobalOffset)
        } else if status_code == STATUS_INVALID_EVENT_WAIT_LIST {
            Some(OclError::InvalidEventWaitList)
        } else if status_code == STATUS_INVALID_EVENT {
            Some(OclError::InvalidEvent)
        } else if status_code == STATUS_INVALID_OPERATION {
            Some(OclError::InvalidOperation)
        } else if status_code == STATUS_INVALID_BUFFER_SIZE {
            Some(OclError::InvalidBufferSize)
        } else if status_code == STATUS_INVALID_GLOBAL_WORK_SIZE {
            Some(OclError::InvalidGlobalWorkSize)
        } else {
            None
        }
    }
}

/// BLAS-level argument errors: the second tier of the taxonomy.
#[derive(Clone, Copy, Debug, PartialEq, Eq, Structural)]
pub enum BlasError {
    NotImplemented,
    InvalidMatrixA,
    InvalidMatrixB,
    InvalidMatrixC,
    InvalidVectorX,
    InvalidVectorY,
    InvalidDimension,
    InvalidLeadDimA,
    InvalidLeadDimB,
    InvalidLeadDimC,
    InvalidIncrementX,
    InvalidIncrementY,
    InsufficientMemoryA,
    InsufficientMemoryB,
    InsufficientMemoryC,
    InsufficientMemoryX,
    InsufficientMemoryY,
}

impl BlasError {
    /// The variant, if any, that this tier assigns to `status_code`.
    pub open spec fn spec_from_c(status_code: i32) -> Option<BlasError> {
        if status_code == STATUS_NOT_IMPLEMENTED {
            Some(BlasError::NotImplemented)
        } else if status_code == STATUS_INVALID_MATRIX_A {
            Some(BlasError::InvalidMatrixA)
        } else if status_code == STATUS_INVALID_MATRIX_B {
            Some(BlasError::InvalidMatrixB)
        } else if status_code == STATUS_INVALID_MATRIX_C {
            Some(BlasError::InvalidMatrixC)
        } else if status_code == STATUS_INVALID_VECTOR_X {
            Some(BlasError::InvalidVectorX)
        } else if status_code == STATUS_INVALID_VECTOR_Y {
            Some(BlasError::InvalidVectorY)
        } else if status_code == STATUS_INVALID_DIMENSION {
            Some(BlasError::InvalidDimension)
        } else if status_code == STATUS_INVALID_LEAD_DIM_A {
            Some(BlasError::InvalidLeadDimA)
        } else if status_code == STATUS_INVALID_LEAD_DIM_B {
            Some(BlasError::InvalidLeadDimB)
        } else if status_code == STATUS_INVALID_LEAD_DIM_C {
            Some(BlasError::InvalidLeadDimC)
        } else if status_code == STATUS_INVALID_INCREMENT_X {
            Some(BlasError::InvalidIncrementX)
        } else if status_code == STATUS_INVALID_INCREMENT_Y {
            Some(BlasError::InvalidIncrementY)
        } else if status_code == STATUS_INSUFFICIENT_MEMORY_A {
            Some(BlasError::InsufficientMemoryA)
        } else if status_code == STATUS_INSUFFICIENT_MEMORY_B {
            Some(BlasError::InsufficientMemoryB)
        } else if status_code == STATUS_INSUFFICIENT_MEMORY_C {
            Some(BlasError::InsufficientMemoryC)
        } else if status_code == STATUS_INSUFFICIENT_MEMORY_X {
            Some(BlasError::InsufficientMemoryX)
        } else if status_code == STATUS_INSUFFICIENT_MEMORY_Y {
            Some(BlasError::InsufficientMemoryY)
        } else {
            None
        }
    }

    pub fn from_c(status_code: i32) -> (r: Option<BlasError>)
        ensures
            r == BlasError::spec_from_c(status_code),
    {
        if status_code == STATUS_NOT_IMPLEMENTED {
            Some(BlasError::NotImplemented)
        } else if status_code == STATUS_INVALID_MATRIX_A {
            Some(BlasError::InvalidMatrixA)
        } else if status_code == STATUS_INVALID_MATRIX_B {
            Some(BlasError::InvalidMatrixB)
        } else if status_code == STATUS_INVALID_MATRIX_C {
            Some(BlasError::InvalidMatrixC)
        } else if status_code == STATUS_INVALID_VECTOR_X {
            Some(BlasError::InvalidVectorX)
        } else if status_code == STATUS_INVALID_VECTOR_Y {
            Some(BlasError::InvalidVectorY)
        } else if status_code == STATUS_INVALID_DIMENSION {
            Some(BlasError::InvalidDimension)
        } else if status_code == STATUS_INVALID_LEAD_DIM_A {
            Some(BlasError::InvalidLeadDimA)
        } else if status_code == STATUS_INVALID_LEAD_DIM_B {
            Some(BlasError::InvalidLeadDimB)
        } else if status_code == STATUS_INVALID_LEAD_DIM_C {
            Some(BlasError::InvalidLeadDimC)
        } else if status_code == STATUS_INVALID_INCREMENT_X {
            Some(BlasError::InvalidIncrementX)
        } else if status_code == STATUS_INVALID_INCREMENT_Y {
            Some(BlasError::InvalidIncrementY)
        } else if status_code == STATUS_INSUFFICIENT_MEMORY_A {
            Some(BlasError::InsufficientMemoryA)
        } else if status_code == STATUS_INSUFFICIENT_MEMORY_B {
            Some(BlasError::InsufficientMemoryB)
        } else if status_code == STATUS_INSUFFICIENT_MEMORY_C {
            Some(BlasError::InsufficientMemoryC)
        } else if status_code == STATUS_INSUFFICIENT_MEMORY_X {
            Some(BlasError::InsufficientMemoryX)
        } else if status_code == STATUS_INSUFFICIENT_MEMORY_Y {
            Some(BlasError::InsufficientMemoryY)
        } else {
            None
        }
    }
}

/// Library-internal errors: the third tier of the taxonomy.
#[derive(Clone, Copy, Debug, PartialEq, Eq, Structural)]
pub enum BlastError {
    InsufficientMemoryTemp,
    InvalidBatchCount,
    InvalidOverrideKernel,
    MissingOverrideParameter,
    InvalidLocalMemUsage,
    NoHalfPrecision,
    NoDoublePrecision,
    InvalidVectorScalar,
    InsufficientMemoryScalar,
    DatabaseError,
    UnknownError,
    UnexpectedError,
}

impl BlastError {
    /// The variant, if any, that this tier assigns to `status_code`.
    pub open spec fn spec_from_c(status_code: i32) -> Option<BlastError> {
        if status_code == STATUS_INSUFFICIENT_MEMORY_TEMP {
            Some(BlastError::InsufficientMemoryTemp)
        } else if status_code == STATUS_INVALID_BATCH_COUNT {
            Some(BlastError::InvalidBatchCount)
        } else if status_code == STATUS_INVALID_OVERRIDE_KERNEL {
            Some(BlastError::InvalidOverrideKernel)
        } else if status_code == STATUS_MISSING_OVERRIDE_PARAMETER {
            Some(BlastError::MissingOverrideParameter)
        } else if status_code == STATUS_INVALID_LOCAL_MEM_USAGE {
            Some(BlastError::InvalidLocalMemUsage)
        } else if status_code == STATUS_NO_HALF_PRECISION {
            Some(BlastError::NoHalfPrecision)
        } else if status_code == STATUS_NO_DOUBLE_PRECISION {
            Some(BlastError::NoDoublePrecision)
        } else if status_code == STATUS_INVALID_VECTOR_SCALAR {
            Some(BlastError::InvalidVectorScalar)
        } else if status_code == STATUS_INSUFFICIENT_MEMORY_SCALAR {
            Some(BlastError::InsufficientMemoryScalar)
        } else if status_code == STATUS_DATABASE_ERROR {
            Some(BlastError::DatabaseError)
        } else if status_code == STATUS_UNKNOWN_ERROR {
            Some(BlastError::UnknownError)
        } else if status_code == STATUS_UNEXPECTED_ERROR {
            Some(BlastError::UnexpectedError)
        } else {
            None
        }
    }

    pub fn from_c(status_code: i32) -> (r: Option<BlastError>)
        ensures
            r == BlastError::spec_from_c(status_code),
    {
        if status_code == STATUS_INSUFFICIENT_MEMORY_TEMP {
            Some(BlastError::InsufficientMemoryTemp)
        } else if status_code == STATUS_INVALID_BATCH_COUNT {
            Some(BlastError::InvalidBatchCount)
        } else if status_code == STATUS_INVALID_OVERRIDE_KERNEL {
            Some(BlastError::InvalidOverrideKernel)
        } else if status_code == STATUS_MISSING_OVERRIDE_PARAMETER {
            Some(BlastError::MissingOverrideParameter)
        } else if status_code == STATUS_INVALID_LOCAL_MEM_USAGE {
            Some(BlastError::InvalidLocalMemUsage)
        } else if status_code == STATUS_NO_HALF_PRECISION {
            Some(BlastError::NoHalfPrecision)
        } else if status_code == STATUS_NO_DOUBLE_PRECISION {
            Some(BlastError::NoDoublePrecision)
        } else if status_code == STATUS_INVALID_VECTOR_SCALAR {
            Some(BlastError::InvalidVectorScalar)
        } else if status_code == STATUS_INSUFFICIENT_MEMORY_SCALAR {
            Some(BlastError::InsufficientMemoryScalar)
        } else if status_code == STATUS_DATABASE_ERROR {
            Some(BlastError::DatabaseError)
        } else if status_code == STATUS_UNKNOWN_ERROR {
            Some(BlastError::UnknownError)
        } else if status_code == STATUS_UNEXPECTED_ERROR {
            Some(BlastError::UnexpectedError)
        } else {
            None
        }
    }
}

/// The closed union of the three error tiers, plus a fallback that
/// carries an unrecognized status code unchanged.
#[derive(Clone, Copy, Debug, PartialEq, Eq, Structural)]
pub enum Error {
    Ocl { source: OclError },
    Blas { source: BlasError },
    Blast { source: BlastError },
    Unknown { status_code: i32 },
}

impl Error {
    /// The error, if any, that `status_code` translates to: the
    /// success sentinel translates to none, and the tiers are consulted
    /// in order, the fallback last.
    pub open spec fn spec_from_c(status_code: i32) -> Option<Error> {
        if status_code == STATUS_SUCCESS {
            None
        } else if OclError::spec_from_c(status_code) is Some {
            Some(Error::Ocl { source: OclError::spec_from_c(status_code)->Some_0 })
        } else if BlasError::spec_from_c(status_code) is Some {
            Some(Error::Blas { source: BlasError::spec_from_c(status_code)->Some_0 })
        } else if BlastError::spec_from_c(status_code) is Some {
            Some(Error::Blast { source: BlastError::spec_from_c(status_code)->Some_0 })
        } else {
            Some(Error::Unknown { status_code })
        }
    }

    /// What translating `status_code` returns.
    pub open spec fn spec_from_c_either(status_code: i32) -> Result<(), Error> {
        match Error::spec_from_c(status_code) {
            Some(err) => Err(err),
            None => Ok(()),
        }
    }

    pub fn from_c(status_code: i32) -> (r: Option<Error>)
        ensures
            r == Error::spec_from_c(status_code),
    {
        if status_code == STATUS_SUCCESS {
            None
        } else {
            match OclError::from_c(status_code) {
                Some(source) => Some(Error::Ocl { source }),
                None => match BlasError::from_c(status_code) {
                    Some(source) => Some(Error::Blas { source }),
                    None => match BlastError::from_c(status_code) {
                        Some(source) => Some(Error::Blast { source }),
                        None => Some(Error::Unknown { status_code }),
                    },
                },
            }
        }
    }

    /// Translates a raw native status code: the success sentinel to
    /// `Ok`, every other code to the error of exactly one tier, or to
    /// the fallback carrying the code itself.
    pub fn from_c_either(status_code: i32) -> (r: Result<(), Error>)
        ensures
            r == Error::spec_from_c_either(status_code),
            r is Ok <==> status_code == STATUS_SUCCESS,
    {
        match Error::from_c(status_code) {
            Some(err) => Err(err),
            None => Ok(()),
        }
    }
}

/// The three tiers are disjoint: no status code is assigned a variant
/// by more than one of them.
pub proof fn lemma_tiers_disjoint(status_code: i32)
    ensures
        OclError::spec_from_c(status_code) is Some ==> BlasError::spec_from_c(status_code) is None,
        OclError::spec_from_c(status_code) is Some ==> BlastError::spec_from_c(status_code)
            is None,
        BlasError::spec_from_c(status_code) is Some ==> BlastError::spec_from_c(status_code)
            is None,
{
}

/// Translation is exhaustive and loses nothing: the success sentinel
/// translates to `Ok`; a code some tier recognizes translates to that
/// tier's variant; and any other code is preserved inside the fallback.
pub proof fn lemma_translation_taxonomy(status_code: i32)
    ensures
        status_code == STATUS_SUCCESS ==> Error::spec_from_c_either(status_code) == Ok::<
            (),
            Error,
        >(()),
        OclError::spec_from_c(status_code) matches Some(e) ==> Error::spec_from_c_either(
            status_code,
        ) == Err::<(), Error>(Error::Ocl { source: e }),
        BlasError::spec_from_c(status_code) matches Some(e) ==> Error::spec_from_c_either(
            status_code,
        ) == Err::<(), Error>(Error::Blas { source: e }),
        BlastError::spec_from_c(status_code) matches Some(e) ==> Error::spec_from_c_either(
            status_code,
        ) == Err::<(), Error>(Error::Blast { source: e }),
        status_code != STATUS_SUCCESS && OclError::spec_from_c(status_code) is None
            && BlasError::spec_from_c(status_code) is None && BlastError::spec_from_c(status_code)
            is None ==> Error::spec_from_c_either(status_code) == Err::<(), Error>(
            Error::Unknown { status_code },
        ),
{
    lemma_tiers_disjoint(status_code);
}

} // verus!
