//! The error values of the backend.
use vstd::prelude::*;
use vstd::std_specs::convert::FromSpecImpl;

verus! {

/// A failure reported by, or on behalf of, the JTAG transport.
#[derive(Debug, Clone, Copy, PartialEq, Eq, Structural)]
pub enum DebugProbeError {
    /// An awaited condition was not observed in time.
    Timeout,
    /// A scan answered with fewer bytes than the register holds.
    DebugSequenceNotSupported,
    /// Any other failure of the transport, with the transport's own code.
    ProbeSpecific(u32),
}

/// Something went wrong while working with the MIPS core.
#[derive(Debug, Clone, Copy, PartialEq, Eq, Structural)]
pub enum MipsError {
    HaltFailed,
    Error(DebugProbeError),
    BreakpointError(u32),
    ExecutionStateError,
    InvalidArgError,
    OperationCancelled,
    TargetError,
    ThreadInvalidError(u16),
    ArgumentNotSuppliedError,
    AssertionFailed,
    CallBackError,
    CoreDisabled,
    CoreOffline,
    ExpressionEvaluationError,
    InvalidConversion,
    LoadProgramFileError,
    ResetOccurred,
    TargetAlreadyConnected,
    TargetDisconnected,
    TargetInvalid,
    TargetNotFound,
    UnrecoverableMemoryFault,
    ProgramFileError,
    NotAnELF,
}

/// A capability that this backend does not offer.
#[derive(Debug, Clone, Copy, PartialEq, Eq, Structural)]
pub enum Capability {
    /// Details of the exception that a stack frame was called from.
    ExceptionDetails,
    /// The registers of the frame that called an exception handler.
    CallingFrameRegisters,
    /// A description of an exception.
    ExceptionDescription,
    /// Catching of exception vectors.
    VectorCatch,
}

/// The error of every operation of the core facade.
#[derive(Debug, Clone, Copy, PartialEq, Eq, Structural)]
pub enum Error {
    /// The transport failed.
    Probe(DebugProbeError),
    /// The MIPS backend refused or failed the operation.
    Mips(MipsError),
    /// The target did not answer in time.
    Timeout,
    /// The operation is not implemented for this architecture.
    NotImplemented(Capability),
    /// The core and the interface handed in belong to different architectures.
    UnableToOpenProbe,
    /// The address does not fit the 32-bit address space of the target.
    InvalidAddress(u64),
    /// A register address computed from the memory map left the 32-bit address space.
    AddressOverflow,
}

impl From<DebugProbeError> for MipsError {
    fn from(err: DebugProbeError) -> (r: MipsError) {
        MipsError::Error(err)
    }
}

impl FromSpecImpl<DebugProbeError> for MipsError {
    open spec fn obeys_from_spec() -> bool {
        true
    }

    open spec fn from_spec(err: DebugProbeError) -> MipsError {
        MipsError::Error(err)
    }
}

impl From<DebugProbeError> for Error {
    fn from(err: DebugProbeError) -> (r: Error) {
        Error::Probe(err)
    }
}

impl FromSpecImpl<DebugProbeError> for Error {
    open spec fn obeys_from_spec() -> bool {
        true
    }

    open spec fn from_spec(err: DebugProbeError) -> Error {
        Error::Probe(err)
    }
}

/// A transport failure keeps its identity, a failure to connect to the
/// target is reported as a timeout, and every other value is carried as it is.
impl From<MipsError> for Error {
    fn from(err: MipsError) -> (r: Error) {
        match err {
            MipsError::Error(e) => Error::Probe(e),
            MipsError::TargetError => Error::Timeout,
            other => Error::Mips(other),
        }
    }
}

impl FromSpecImpl<MipsError> for Error {
    open spec fn obeys_from_spec() -> bool {
        true
    }

    open spec fn from_spec(err: MipsError) -> Error {
        match err {
            MipsError::Error(e) => Error::Probe(e),
            MipsError::TargetError => Error::Timeout,
            other => Error::Mips(other),
        }
    }
}

} // verus!
