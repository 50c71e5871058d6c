use clblast::result::BlasError;
use clblast::result::BlastError;
use clblast::result::Error;
use clblast::result::OclError;
use clblast::result::STATUS_SUCCESS;

fn ocl_table() -> Vec<(i32, OclError)> {
    vec![
        (-3, OclError::OpenCLCompilerNotAvailable),
        (-4, OclError::TempBufferAllocFailure),
        (-5, OclError::OpenCLOutOfResources),
        (-6, OclError::OpenCLOutOfHostMemory),
        (-11, OclError::OpenCLBuildProgramFailure),
        (-30, OclError::InvalidValue),
        (-36, OclError::InvalidCommandQueue),
        (-38, OclError::InvalidMemObject),
        (-42, OclError::InvalidBinary),
        (-43, OclError::InvalidBuildOptions),
        (-44, OclError::InvalidProgram),
        (-45, OclError::InvalidProgramExecutable),
        (-46, OclError::InvalidKernelName),
        (-47, OclError::InvalidKernelDefinition),
        (-48, OclError::InvalidKernel),
        (-49, OclError::InvalidArgIndex),
        (-50, OclError::InvalidArgValue),
        (-51, OclError::InvalidArgSize),
        (-52, OclError::InvalidKernelArgs),
        (-53, OclError::InvalidLocalNumDimensions),
        (-54, OclError::InvalidLocalThreadsTotal),
        (-55, OclError::InvalidLocalThreadsDim),
        (-56, OclError::InvalidGlobalOffset),
        (-57, OclError::InvalidEventWaitList),
        (-58, OclError::InvalidEvent),
        (-59, OclError::InvalidOperation),
        (-61, OclError::InvalidBufferSize),
        (-63, OclError::InvalidGlobalWorkSize),
    ]
}

fn blas_table() -> Vec<(i32, BlasError)> {
    vec![
        (-1024, BlasError::NotImplemented),
        (-1022, BlasError::InvalidMatrixA),
        (-1021, BlasError::InvalidMatrixB),
        (-1020, BlasError::InvalidMatrixC),
        (-1019, BlasError::InvalidVectorX),
        (-1018, BlasError::InvalidVectorY),
        (-1017, BlasError::InvalidDimension),
        (-1016, BlasError::InvalidLeadDimA),
        (-1015, BlasError::InvalidLeadDimB),
        (-1014, BlasError::InvalidLeadDimC),
        (-1013, BlasError::InvalidIncrementX),
        (-1012, BlasError::InvalidIncrementY),
        (-1011, BlasError::InsufficientMemoryA),
        (-1010, BlasError::InsufficientMemoryB),
        (-1009, BlasError::InsufficientMemoryC),
        (-1008, BlasError::InsufficientMemoryX),
        (-1007, BlasError::InsufficientMemoryY),
    ]
}

fn blast_table() -> Vec<(i32, BlastError)> {
    vec![
        (-2050, BlastError::InsufficientMemoryTemp),
        (-2049, BlastError::InvalidBatchCount),
        (-2048, BlastError::InvalidOverrideKernel),
        (-2047, BlastError::MissingOverrideParameter),
        (-2046, BlastError::InvalidLocalMemUsage),
        (-2045, BlastError::NoHalfPrecision),
        (-2044, BlastError::NoDoublePrecision),
        (-2043, BlastError::InvalidVectorScalar),
        (-2042, BlastError::InsufficientMemoryScalar),
        (-2041, BlastError::DatabaseError),
        (-2040, BlastError::UnknownError),
        (-2039, BlastError::UnexpectedError),
    ]
}

#[test]
fn test_translate_success_sentinel() {
    assert_eq!(STATUS_SUCCESS, 0);
    assert_eq!(Error::from_c_either(STATUS_SUCCESS), Ok(()));
}

#[test]
fn test_translate_ocl_tier_exhaustive() {
    for (code, expected) in ocl_table() {
        assert_eq!(OclError::from_c(code), Some(expected));
        assert_eq!(Error::from_c_either(code), Err(Error::Ocl { source: expected }));
    }
    assert_eq!(ocl_table().len(), 28);
}

#[test]
fn test_translate_blas_tier_exhaustive() {
    for (code, expected) in blas_table() {
        assert_eq!(BlasError::from_c(code), Some(expected));
        assert_eq!(Error::from_c_either(code), Err(Error::Blas { source: expected }));
    }
    assert_eq!(blas_table().len(), 17);
}

#[test]
fn test_translate_blast_tier_exhaustive() {
    for (code, expected) in blast_table() {
        assert_eq!(BlastError::from_c(code), Some(expected));
        assert_eq!(Error::from_c_either(code), Err(Error::Blast { source: expected }));
    }
    assert_eq!(blast_table().len(), 12);
}

#[test]
fn test_translate_unmapped_code_preserved() {
    for code in [-1, -2, -100, -999, -1023, -2051, 1, 7, 12345, i32::MIN, i32::MAX] {
        assert_eq!(Error::from_c_either(code), Err(Error::Unknown { status_code: code }));
    }
}

#[test]
fn test_tier_tables_do_not_overlap() {
    for (code, _) in ocl_table() {
        assert_eq!(BlasError::from_c(code), None);
        assert_eq!(BlastError::from_c(code), None);
    }
    for (code, _) in blas_table() {
        assert_eq!(OclError::from_c(code), None);
        assert_eq!(BlastError::from_c(code), None);
    }
    for (code, _) in blast_table() {
        assert_eq!(OclError::from_c(code), None);
        assert_eq!(BlasError::from_c(code), None);
    }
}
