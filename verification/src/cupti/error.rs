//! CUPTI error and status types.
use vstd::prelude::*;

verus! {

/// Error returned by CUPTI wrapper operations.
#[derive(Debug)]
pub enum Error {
    /// CUPTI reported an unsuccessful status.
    Cupti { code: Status, message: String },
    /// A string handed to CUPTI contains an interior nul byte.
    InteriorNul,
    /// CUPTI returned a null handle where a valid handle was expected.
    NullHandle,
    /// A value does not fit the integer type CUPTI expects.
    OutOfRange { name: String },
    /// A buffer or array has an unexpected length.
    LengthMismatch { name: String, expected: usize, actual: usize },
    /// The attribute cannot be read or written this way.
    InvalidAttribute { name: String },
    /// A lock guarding process-wide state was poisoned.
    LockPoisoned { name: String },
}

/// Result alias used by the CUPTI wrappers.
pub type Result<T> = core::result::Result<T, Error>;

/// Result status reported by CUPTI calls.
#[derive(Debug, Clone, Copy, PartialEq, Eq, Hash, Structural)]
#[non_exhaustive]
pub enum Status {
    /// CUPTI status `CUPTI_SUCCESS`.
    Success,
    /// CUPTI status `CUPTI_ERROR_INVALID_PARAMETER`.
    InvalidParameter,
    /// CUPTI status `CUPTI_ERROR_INVALID_DEVICE`.
    InvalidDevice,
    /// CUPTI status `CUPTI_ERROR_INVALID_CONTEXT`.
    InvalidContext,
    /// CUPTI status `CUPTI_ERROR_INVALID_EVENT_DOMAIN_ID`.
    InvalidEventDomainId,
    /// CUPTI status `CUPTI_ERROR_INVALID_EVENT_ID`.
    InvalidEventId,
    /// CUPTI status `CUPTI_ERROR_INVALID_EVENT_NAME`.
    InvalidEventName,
    /// CUPTI status `CUPTI_ERROR_INVALID_OPERATION`.
    InvalidOperation,
    /// CUPTI status `CUPTI_ERROR_OUT_OF_MEMORY`.
    OutOfMemory,
    /// CUPTI status `CUPTI_ERROR_HARDWARE`.
    Hardware,
    /// CUPTI status `CUPTI_ERROR_PARAMETER_SIZE_NOT_SUFFICIENT`.
    ParameterSizeNotSufficient,
    /// CUPTI status `CUPTI_ERROR_API_NOT_IMPLEMENTED`.
    ApiNotImplemented,
    /// CUPTI status `CUPTI_ERROR_MAX_LIMIT_REACHED`.
    MaxLimitReached,
    /// CUPTI status `CUPTI_ERROR_NOT_READY`.
    NotReady,
    /// CUPTI status `CUPTI_ERROR_NOT_COMPATIBLE`.
    NotCompatible,
    /// CUPTI status `CUPTI_ERROR_NOT_INITIALIZED`.
    NotInitialized,
    /// CUPTI status `CUPTI_ERROR_INVALID_METRIC_ID`.
    InvalidMetricId,
    /// CUPTI status `CUPTI_ERROR_INVALID_METRIC_NAME`.
    InvalidMetricName,
    /// CUPTI status `CUPTI_ERROR_QUEUE_EMPTY`.
    QueueEmpty,
    /// CUPTI status `CUPTI_ERROR_INVALID_HANDLE`.
    InvalidHandle,
    /// CUPTI status `CUPTI_ERROR_INVALID_STREAM`.
    InvalidStream,
    /// CUPTI status `CUPTI_ERROR_INVALID_KIND`.
    InvalidKind,
    /// CUPTI status `CUPTI_ERROR_INVALID_EVENT_VALUE`.
    InvalidEventValue,
    /// CUPTI status `CUPTI_ERROR_DISABLED`.
    Disabled,
    /// CUPTI status `CUPTI_ERROR_INVALID_MODULE`.
    InvalidModule,
    /// CUPTI status `CUPTI_ERROR_INVALID_METRIC_VALUE`.
    InvalidMetricValue,
    /// CUPTI status `CUPTI_ERROR_HARDWARE_BUSY`.
    HardwareBusy,
    /// CUPTI status `CUPTI_ERROR_NOT_SUPPORTED`.
    NotSupported,
    /// CUPTI status `CUPTI_ERROR_UM_PROFILING_NOT_SUPPORTED`.
    UnifiedMemoryProfilingNotSupported,
    /// CUPTI status `CUPTI_ERROR_UM_PROFILING_NOT_SUPPORTED_ON_DEVICE`.
    UnifiedMemoryProfilingNotSupportedOnDevice,
    /// CUPTI status `CUPTI_ERROR_UM_PROFILING_NOT_SUPPORTED_ON_NON_P2P_DEVICES`.
    UnifiedMemoryProfilingNotSupportedOnNonPeerToPeerDevices,
    /// CUPTI status `CUPTI_ERROR_UM_PROFILING_NOT_SUPPORTED_WITH_MPS`.
    UnifiedMemoryProfilingNotSupportedWithMultiProcessService,
    /// CUPTI status `CUPTI_ERROR_CDP_TRACING_NOT_SUPPORTED`.
    CudaDynamicParallelismTracingNotSupported,
    /// CUPTI status `CUPTI_ERROR_VIRTUALIZED_DEVICE_NOT_SUPPORTED`.
    VirtualizedDeviceNotSupported,
    /// CUPTI status `CUPTI_ERROR_CUDA_COMPILER_NOT_COMPATIBLE`.
    CudaCompilerNotCompatible,
    /// CUPTI status `CUPTI_ERROR_INSUFFICIENT_PRIVILEGES`.
    InsufficientPrivileges,
    /// CUPTI status `CUPTI_ERROR_OLD_PROFILER_API_INITIALIZED`.
    OldProfilerApiInitialized,
    /// CUPTI status `CUPTI_ERROR_OPENACC_UNDEFINED_ROUTINE`.
    OpenAccUndefinedRoutine,
    /// CUPTI status `CUPTI_ERROR_LEGACY_PROFILER_NOT_SUPPORTED`.
    LegacyProfilerNotSupported,
    /// CUPTI status `CUPTI_ERROR_MULTIPLE_SUBSCRIBERS_NOT_SUPPORTED`.
    MultipleSubscribersNotSupported,
    /// CUPTI status `CUPTI_ERROR_VIRTUALIZED_DEVICE_INSUFFICIENT_PRIVILEGES`.
    VirtualizedDeviceInsufficientPrivileges,
    /// CUPTI status `CUPTI_ERROR_CONFIDENTIAL_COMPUTING_NOT_SUPPORTED`.
    ConfidentialComputingNotSupported,
    /// CUPTI status `CUPTI_ERROR_CMP_DEVICE_NOT_SUPPORTED`.
    CmpDeviceNotSupported,
    /// CUPTI status `CUPTI_ERROR_MIG_DEVICE_NOT_SUPPORTED`.
    MigDeviceNotSupported,
    /// CUPTI status `CUPTI_ERROR_SLI_DEVICE_NOT_SUPPORTED`.
    SliDeviceNotSupported,
    /// CUPTI status `CUPTI_ERROR_WSL_DEVICE_NOT_SUPPORTED`.
    WslDeviceNotSupported,
    /// CUPTI status `CUPTI_ERROR_INVALID_CHIP_NAME`.
    InvalidChipName,
    /// CUPTI status `CUPTI_ERROR_HES_TRACE_NOT_SUPPORTED_ON_MPS`.
    HesTraceNotSupportedOnMultiProcessService,
    /// CUPTI status `CUPTI_ERROR_UNKNOWN`.
    Unknown,
    /// CUPTI status `CUPTI_ERROR_FORCE_INT`.
    ForceInt,
}

/// Numeric CUPTI result code of a status.
pub open spec fn status_code(status: Status) -> u32 {
    match status {
        Status::Success => 0,
        Status::InvalidParameter => 1,
        Status::InvalidDevice => 2,
        Status::InvalidContext => 3,
        Status::InvalidEventDomainId => 4,
        Status::InvalidEventId => 5,
        Status::InvalidEventName => 6,
        Status::InvalidOperation => 7,
        Status::OutOfMemory => 8,
        Status::Hardware => 9,
        Status::ParameterSizeNotSufficient => 10,
        Status::ApiNotImplemented => 11,
        Status::MaxLimitReached => 12,
        Status::NotReady => 13,
        Status::NotCompatible => 14,
        Status::NotInitialized => 15,
        Status::InvalidMetricId => 16,
        Status::InvalidMetricName => 17,
        Status::QueueEmpty => 18,
        Status::InvalidHandle => 19,
        Status::InvalidStream => 20,
        Status::InvalidKind => 21,
        Status::InvalidEventValue => 22,
        Status::Disabled => 23,
        Status::InvalidModule => 24,
        Status::InvalidMetricValue => 25,
        Status::HardwareBusy => 26,
        Status::NotSupported => 27,
        Status::UnifiedMemoryProfilingNotSupported => 28,
        Status::UnifiedMemoryProfilingNotSupportedOnDevice => 29,
        Status::UnifiedMemoryProfilingNotSupportedOnNonPeerToPeerDevices => 30,
        Status::UnifiedMemoryProfilingNotSupportedWithMultiProcessService => 31,
        Status::CudaDynamicParallelismTracingNotSupported => 32,
        Status::VirtualizedDeviceNotSupported => 33,
        Status::CudaCompilerNotCompatible => 34,
        Status::InsufficientPrivileges => 35,
        Status::OldProfilerApiInitialized => 36,
        Status::OpenAccUndefinedRoutine => 37,
        Status::LegacyProfilerNotSupported => 38,
        Status::MultipleSubscribersNotSupported => 39,
        Status::VirtualizedDeviceInsufficientPrivileges => 40,
        Status::ConfidentialComputingNotSupported => 41,
        Status::CmpDeviceNotSupported => 42,
        Status::MigDeviceNotSupported => 43,
        Status::SliDeviceNotSupported => 44,
        Status::WslDeviceNotSupported => 45,
        Status::InvalidChipName => 46,
        Status::HesTraceNotSupportedOnMultiProcessService => 47,
        Status::Unknown => 999,
        Status::ForceInt => 0x7fffffff,
    }
}

/// Symbolic CUPTI name of a status.
pub open spec fn status_name(status: Status) -> &'static str {
    match status {
        Status::Success => "CUPTI_SUCCESS",
        Status::InvalidParameter => "CUPTI_ERROR_INVALID_PARAMETER",
        Status::InvalidDevice => "CUPTI_ERROR_INVALID_DEVICE",
        Status::InvalidContext => "CUPTI_ERROR_INVALID_CONTEXT",
        Status::InvalidEventDomainId => "CUPTI_ERROR_INVALID_EVENT_DOMAIN_ID",
        Status::InvalidEventId => "CUPTI_ERROR_INVALID_EVENT_ID",
        Status::InvalidEventName => "CUPTI_ERROR_INVALID_EVENT_NAME",
        Status::InvalidOperation => "CUPTI_ERROR_INVALID_OPERATION",
        Status::OutOfMemory => "CUPTI_ERROR_OUT_OF_MEMORY",
        Status::Hardware => "CUPTI_ERROR_HARDWARE",
        Status::ParameterSizeNotSufficient => "CUPTI_ERROR_PARAMETER_SIZE_NOT_SUFFICIENT",
        Status::ApiNotImplemented => "CUPTI_ERROR_API_NOT_IMPLEMENTED",
        Status::MaxLimitReached => "CUPTI_ERROR_MAX_LIMIT_REACHED",
        Status::NotReady => "CUPTI_ERROR_NOT_READY",
        Status::NotCompatible => "CUPTI_ERROR_NOT_COMPATIBLE",
        Status::NotInitialized => "CUPTI_ERROR_NOT_INITIALIZED",
        Status::InvalidMetricId => "CUPTI_ERROR_INVALID_METRIC_ID",
        Status::InvalidMetricName => "CUPTI_ERROR_INVALID_METRIC_NAME",
        Status::QueueEmpty => "CUPTI_ERROR_QUEUE_EMPTY",
        Status::InvalidHandle => "CUPTI_ERROR_INVALID_HANDLE",
        Status::InvalidStream => "CUPTI_ERROR_INVALID_STREAM",
        Status::InvalidKind => "CUPTI_ERROR_INVALID_KIND",
        Status::InvalidEventValue => "CUPTI_ERROR_INVALID_EVENT_VALUE",
        Status::Disabled => "CUPTI_ERROR_DISABLED",
        Status::InvalidModule => "CUPTI_ERROR_INVALID_MODULE",
        Status::InvalidMetricValue => "CUPTI_ERROR_INVALID_METRIC_VALUE",
        Status::HardwareBusy => "CUPTI_ERROR_HARDWARE_BUSY",
        Status::NotSupported => "CUPTI_ERROR_NOT_SUPPORTED",
        Status::UnifiedMemoryProfilingNotSupported => "CUPTI_ERROR_UM_PROFILING_NOT_SUPPORTED",
        Status::UnifiedMemoryProfilingNotSupportedOnDevice => "CUPTI_ERROR_UM_PROFILING_NOT_SUPPORTED_ON_DEVICE",
        Status::UnifiedMemoryProfilingNotSupportedOnNonPeerToPeerDevices => "CUPTI_ERROR_UM_PROFILING_NOT_SUPPORTED_ON_NON_P2P_DEVICES",
        Status::UnifiedMemoryProfilingNotSupportedWithMultiProcessService => "CUPTI_ERROR_UM_PROFILING_NOT_SUPPORTED_WITH_MPS",
        Status::CudaDynamicParallelismTracingNotSupported => "CUPTI_ERROR_CDP_TRACING_NOT_SUPPORTED",
        Status::VirtualizedDeviceNotSupported => "CUPTI_ERROR_VIRTUALIZED_DEVICE_NOT_SUPPORTED",
        Status::CudaCompilerNotCompatible => "CUPTI_ERROR_CUDA_COMPILER_NOT_COMPATIBLE",
        Status::InsufficientPrivileges => "CUPTI_ERROR_INSUFFICIENT_PRIVILEGES",
        Status::OldProfilerApiInitialized => "CUPTI_ERROR_OLD_PROFILER_API_INITIALIZED",
        Status::OpenAccUndefinedRoutine => "CUPTI_ERROR_OPENACC_UNDEFINED_ROUTINE",
        Status::LegacyProfilerNotSupported => "CUPTI_ERROR_LEGACY_PROFILER_NOT_SUPPORTED",
        Status::MultipleSubscribersNotSupported => "CUPTI_ERROR_MULTIPLE_SUBSCRIBERS_NOT_SUPPORTED",
        Status::VirtualizedDeviceInsufficientPrivileges => "CUPTI_ERROR_VIRTUALIZED_DEVICE_INSUFFICIENT_PRIVILEGES",
        Status::ConfidentialComputingNotSupported => "CUPTI_ERROR_CONFIDENTIAL_COMPUTING_NOT_SUPPORTED",
        Status::CmpDeviceNotSupported => "CUPTI_ERROR_CMP_DEVICE_NOT_SUPPORTED",
        Status::MigDeviceNotSupported => "CUPTI_ERROR_MIG_DEVICE_NOT_SUPPORTED",
        Status::SliDeviceNotSupported => "CUPTI_ERROR_SLI_DEVICE_NOT_SUPPORTED",
        Status::WslDeviceNotSupported => "CUPTI_ERROR_WSL_DEVICE_NOT_SUPPORTED",
        Status::InvalidChipName => "CUPTI_ERROR_INVALID_CHIP_NAME",
        Status::HesTraceNotSupportedOnMultiProcessService => "CUPTI_ERROR_HES_TRACE_NOT_SUPPORTED_ON_MPS",
        Status::Unknown => "CUPTI_ERROR_UNKNOWN",
        Status::ForceInt => "CUPTI_ERROR_FORCE_INT",
    }
}

impl Status {
    /// Returns the numeric CUPTI result code of this status.
    pub fn raw(self) -> (code: u32)
        ensures
            code == status_code(self),
    {
        match self {
            Status::Success => 0,
            Status::InvalidParameter => 1,
            Status::InvalidDevice => 2,
            Status::InvalidContext => 3,
            Status::InvalidEventDomainId => 4,
            Status::InvalidEventId => 5,
            Status::InvalidEventName => 6,
            Status::InvalidOperation => 7,
            Status::OutOfMemory => 8,
            Status::Hardware => 9,
            Status::ParameterSizeNotSufficient => 10,
            Status::ApiNotImplemented => 11,
            Status::MaxLimitReached => 12,
            Status::NotReady => 13,
            Status::NotCompatible => 14,
            Status::NotInitialized => 15,
            Status::InvalidMetricId => 16,
            Status::InvalidMetricName => 17,
            Status::QueueEmpty => 18,
            Status::InvalidHandle => 19,
            Status::InvalidStream => 20,
            Status::InvalidKind => 21,
            Status::InvalidEventValue => 22,
            Status::Disabled => 23,
            Status::InvalidModule => 24,
            Status::InvalidMetricValue => 25,
            Status::HardwareBusy => 26,
            Status::NotSupported => 27,
            Status::UnifiedMemoryProfilingNotSupported => 28,
            Status::UnifiedMemoryProfilingNotSupportedOnDevice => 29,
            Status::UnifiedMemoryProfilingNotSupportedOnNonPeerToPeerDevices => 30,
            Status::UnifiedMemoryProfilingNotSupportedWithMultiProcessService => 31,
            Status::CudaDynamicParallelismTracingNotSupported => 32,
            Status::VirtualizedDeviceNotSupported => 33,
            Status::CudaCompilerNotCompatible => 34,
            Status::InsufficientPrivileges => 35,
            Status::OldProfilerApiInitialized => 36,
            Status::OpenAccUndefinedRoutine => 37,
            Status::LegacyProfilerNotSupported => 38,
            Status::MultipleSubscribersNotSupported => 39,
            Status::VirtualizedDeviceInsufficientPrivileges => 40,
            Status::ConfidentialComputingNotSupported => 41,
            Status::CmpDeviceNotSupported => 42,
            Status::MigDeviceNotSupported => 43,
            Status::SliDeviceNotSupported => 44,
            Status::WslDeviceNotSupported => 45,
            Status::InvalidChipName => 46,
            Status::HesTraceNotSupportedOnMultiProcessService => 47,
            Status::Unknown => 999,
            Status::ForceInt => 0x7fffffff,
        }
    }

    /// Decodes a numeric CUPTI result code, or returns `None` for a code CUPTI does not define.
    pub fn try_from_raw(code: u32) -> (status: Option<Status>)
        ensures
            match status {
                Some(s) => status_code(s) == code,
                None => forall|s: Status| status_code(s) != code,
            },
    {
        match code {
            0 => Some(Status::Success),
            1 => Some(Status::InvalidParameter),
            2 => Some(Status::InvalidDevice),
            3 => Some(Status::InvalidContext),
            4 => Some(Status::InvalidEventDomainId),
            5 => Some(Status::InvalidEventId),
            6 => Some(Status::InvalidEventName),
            7 => Some(Status::InvalidOperation),
            8 => Some(Status::OutOfMemory),
            9 => Some(Status::Hardware),
            10 => Some(Status::ParameterSizeNotSufficient),
            11 => Some(Status::ApiNotImplemented),
            12 => Some(Status::MaxLimitReached),
            13 => Some(Status::NotReady),
            14 => Some(Status::NotCompatible),
            15 => Some(Status::NotInitialized),
            16 => Some(Status::InvalidMetricId),
            17 => Some(Status::InvalidMetricName),
            18 => Some(Status::QueueEmpty),
            19 => Some(Status::InvalidHandle),
            20 => Some(Status::InvalidStream),
            21 => Some(Status::InvalidKind),
            22 => Some(Status::InvalidEventValue),
            23 => Some(Status::Disabled),
            24 => Some(Status::InvalidModule),
            25 => Some(Status::InvalidMetricValue),
            26 => Some(Status::HardwareBusy),
            27 => Some(Status::NotSupported),
            28 => Some(Status::UnifiedMemoryProfilingNotSupported),
            29 => Some(Status::UnifiedMemoryProfilingNotSupportedOnDevice),
            30 => Some(Status::UnifiedMemoryProfilingNotSupportedOnNonPeerToPeerDevices),
            31 => Some(Status::UnifiedMemoryProfilingNotSupportedWithMultiProcessService),
            32 => Some(Status::CudaDynamicParallelismTracingNotSupported),
            33 => Some(Status::VirtualizedDeviceNotSupported),
            34 => Some(Status::CudaCompilerNotCompatible),
            35 => Some(Status::InsufficientPrivileges),
            36 => Some(Status::OldProfilerApiInitialized),
            37 => Some(Status::OpenAccUndefinedRoutine),
            38 => Some(Status::LegacyProfilerNotSupported),
            39 => Some(Status::MultipleSubscribersNotSupported),
            40 => Some(Status::VirtualizedDeviceInsufficientPrivileges),
            41 => Some(Status::ConfidentialComputingNotSupported),
            42 => Some(Status::CmpDeviceNotSupported),
            43 => Some(Status::MigDeviceNotSupported),
            44 => Some(Status::SliDeviceNotSupported),
            45 => Some(Status::WslDeviceNotSupported),
            46 => Some(Status::InvalidChipName),
            47 => Some(Status::HesTraceNotSupportedOnMultiProcessService),
            999 => Some(Status::Unknown),
            0x7fffffff => Some(Status::ForceInt),
            _ => None,
        }
    }

    /// Returns CUPTI's symbolic name for this status, such as `CUPTI_ERROR_INVALID_PARAMETER`.
    pub fn name(self) -> (name: &'static str)
        ensures
            name == status_name(self),
    {
        match self {
            Status::Success => "CUPTI_SUCCESS",
            Status::InvalidParameter => "CUPTI_ERROR_INVALID_PARAMETER",
            Status::InvalidDevice => "CUPTI_ERROR_INVALID_DEVICE",
            Status::InvalidContext => "CUPTI_ERROR_INVALID_CONTEXT",
            Status::InvalidEventDomainId => "CUPTI_ERROR_INVALID_EVENT_DOMAIN_ID",
            Status::InvalidEventId => "CUPTI_ERROR_INVALID_EVENT_ID",
            Status::InvalidEventName => "CUPTI_ERROR_INVALID_EVENT_NAME",
            Status::InvalidOperation => "CUPTI_ERROR_INVALID_OPERATION",
            Status::OutOfMemory => "CUPTI_ERROR_OUT_OF_MEMORY",
            Status::Hardware => "CUPTI_ERROR_HARDWARE",
            Status::ParameterSizeNotSufficient => "CUPTI_ERROR_PARAMETER_SIZE_NOT_SUFFICIENT",
            Status::ApiNotImplemented => "CUPTI_ERROR_API_NOT_IMPLEMENTED",
            Status::MaxLimitReached => "CUPTI_ERROR_MAX_LIMIT_REACHED",
            Status::NotReady => "CUPTI_ERROR_NOT_READY",
            Status::NotCompatible => "CUPTI_ERROR_NOT_COMPATIBLE",
            Status::NotInitialized => "CUPTI_ERROR_NOT_INITIALIZED",
            Status::InvalidMetricId => "CUPTI_ERROR_INVALID_METRIC_ID",
            Status::InvalidMetricName => "CUPTI_ERROR_INVALID_METRIC_NAME",
            Status::QueueEmpty => "CUPTI_ERROR_QUEUE_EMPTY",
            Status::InvalidHandle => "CUPTI_ERROR_INVALID_HANDLE",
            Status::InvalidStream => "CUPTI_ERROR_INVALID_STREAM",
            Status::InvalidKind => "CUPTI_ERROR_INVALID_KIND",
            Status::InvalidEventValue => "CUPTI_ERROR_INVALID_EVENT_VALUE",
            Status::Disabled => "CUPTI_ERROR_DISABLED",
            Status::InvalidModule => "CUPTI_ERROR_INVALID_MODULE",
            Status::InvalidMetricValue => "CUPTI_ERROR_INVALID_METRIC_VALUE",
            Status::HardwareBusy => "CUPTI_ERROR_HARDWARE_BUSY",
            Status::NotSupported => "CUPTI_ERROR_NOT_SUPPORTED",
            Status::UnifiedMemoryProfilingNotSupported => "CUPTI_ERROR_UM_PROFILING_NOT_SUPPORTED",
            Status::UnifiedMemoryProfilingNotSupportedOnDevice => "CUPTI_ERROR_UM_PROFILING_NOT_SUPPORTED_ON_DEVICE",
            Status::UnifiedMemoryProfilingNotSupportedOnNonPeerToPeerDevices => "CUPTI_ERROR_UM_PROFILING_NOT_SUPPORTED_ON_NON_P2P_DEVICES",
            Status::UnifiedMemoryProfilingNotSupportedWithMultiProcessService => "CUPTI_ERROR_UM_PROFILING_NOT_SUPPORTED_WITH_MPS",
            Status::CudaDynamicParallelismTracingNotSupported => "CUPTI_ERROR_CDP_TRACING_NOT_SUPPORTED",
            Status::VirtualizedDeviceNotSupported => "CUPTI_ERROR_VIRTUALIZED_DEVICE_NOT_SUPPORTED",
            Status::CudaCompilerNotCompatible => "CUPTI_ERROR_CUDA_COMPILER_NOT_COMPATIBLE",
            Status::InsufficientPrivileges => "CUPTI_ERROR_INSUFFICIENT_PRIVILEGES",
            Status::OldProfilerApiInitialized => "CUPTI_ERROR_OLD_PROFILER_API_INITIALIZED",
            Status::OpenAccUndefinedRoutine => "CUPTI_ERROR_OPENACC_UNDEFINED_ROUTINE",
            Status::LegacyProfilerNotSupported => "CUPTI_ERROR_LEGACY_PROFILER_NOT_SUPPORTED",
            Status::MultipleSubscribersNotSupported => "CUPTI_ERROR_MULTIPLE_SUBSCRIBERS_NOT_SUPPORTED",
            Status::VirtualizedDeviceInsufficientPrivileges => "CUPTI_ERROR_VIRTUALIZED_DEVICE_INSUFFICIENT_PRIVILEGES",
            Status::ConfidentialComputingNotSupported => "CUPTI_ERROR_CONFIDENTIAL_COMPUTING_NOT_SUPPORTED",
            Status::CmpDeviceNotSupported => "CUPTI_ERROR_CMP_DEVICE_NOT_SUPPORTED",
            Status::MigDeviceNotSupported => "CUPTI_ERROR_MIG_DEVICE_NOT_SUPPORTED",
            Status::SliDeviceNotSupported => "CUPTI_ERROR_SLI_DEVICE_NOT_SUPPORTED",
            Status::WslDeviceNotSupported => "CUPTI_ERROR_WSL_DEVICE_NOT_SUPPORTED",
            Status::InvalidChipName => "CUPTI_ERROR_INVALID_CHIP_NAME",
            Status::HesTraceNotSupportedOnMultiProcessService => "CUPTI_ERROR_HES_TRACE_NOT_SUPPORTED_ON_MPS",
            Status::Unknown => "CUPTI_ERROR_UNKNOWN",
            Status::ForceInt => "CUPTI_ERROR_FORCE_INT",
        }
    }
}

/// `s` with every leading repetition of the non-empty prefix `p` removed.
pub open spec fn trim_leading(s: Seq<char>, p: Seq<char>) -> Seq<char>
    decreases s.len(),
{
    if p.len() > 0 && p.len() <= s.len() && s.take(p.len() as int) == p {
        trim_leading(s.skip(p.len() as int), p)
    } else {
        s
    }
}

/// The character a status description shows for a character of the status name:
/// an underscore becomes a space and an ASCII capital becomes lower case.
pub open spec fn description_char(c: char) -> char {
    if c == '_' {
        ' '
    } else if 'A' <= c && c <= 'Z' {
        ((c as u32) + 32) as char
    } else {
        c
    }
}

/// The description of a status name: without its leading `CUPTI_ERROR_` and then
/// `CUPTI_` prefixes, with underscores as spaces, in ASCII lower case.
pub open spec fn status_description(name: Seq<char>) -> Seq<char> {
    let rest = trim_leading(
        trim_leading(name, seq!['C', 'U', 'P', 'T', 'I', '_', 'E', 'R', 'R', 'O', 'R', '_']),
        seq!['C', 'U', 'P', 'T', 'I', '_'],
    );
    Seq::new(rest.len(), |i: int| description_char(rest[i]))
}

/// Appends `c` to `s`.
///
/// Trusted wrapper of `String::push`, whose documentation says that it appends the
/// given character to the end of the string; the contract says exactly that.
#[verifier::external_body]
fn push_char(s: &mut String, c: char)
    ensures
        final(s)@ == old(s)@.push(c),
{
    s.push(c);
}

/// Whether `p` occurs in `v` at position `start`.
fn prefix_at(v: &Vec<char>, start: usize, p: &Vec<char>) -> (r: bool)
    requires
        start <= v@.len(),
    ensures
        r == (p@.len() <= v@.len() - start && v@.skip(start as int).take(p@.len() as int) == p@),
{
    if p.len() > v.len() - start {
        return false;
    }
    let mut i: usize = 0;
    while i < p.len()
        invariant
            start <= v.len(),
            p.len() <= v.len() - start,
            i <= p.len(),
            forall|j: int| 0 <= j < i ==> v@[start + j] == p@[j],
        decreases p.len() - i,
    {
        if v[start + i] != p[i] {
            assert(v@.skip(start as int).take(p@.len() as int)[i as int] != p@[i as int]);
            return false;
        }
        i += 1;
    }
    assert(v@.skip(start as int).take(p@.len() as int) =~= p@);
    true
}

/// The position in `v` from which [`trim_leading`] of the rest of `v` after `start`
/// begins.
fn skip_leading(v: &Vec<char>, start: usize, p: &Vec<char>) -> (r: usize)
    requires
        start <= v@.len(),
        p@.len() > 0,
    ensures
        start <= r <= v@.len(),
        trim_leading(v@.skip(start as int), p@) == v@.skip(r as int),
{
    let mut pos = start;
    loop
        invariant
            start <= pos <= v.len(),
            p.len() > 0,
            trim_leading(v@.skip(start as int), p@) == trim_leading(v@.skip(pos as int), p@),
        decreases v@.len() - pos,
    {
        if !prefix_at(v, pos, p) {
            return pos;
        }
        assert(v@.skip(pos as int).skip(p@.len() as int) =~= v@.skip(pos + p@.len()));
        pos = pos + p.len();
    }
}

impl Status {
    /// A lower-case description of this status, made from its name: the `CUPTI_ERROR_`
    /// or `CUPTI_` prefix removed and underscores turned into spaces, such as
    /// `invalid parameter` for `CUPTI_ERROR_INVALID_PARAMETER`.
    pub fn description(self) -> (r: String)
        ensures
            r@ == status_description(status_name(self)@),
    {
        let name = self.name();
        let len = name.unicode_len();
        let mut chars: Vec<char> = Vec::new();
        let mut i: usize = 0;
        while i < len
            invariant
                len == name@.len(),
                i <= len,
                chars@ == name@.take(i as int),
            decreases len - i,
        {
            chars.push(name.get_char(i));
            i += 1;
            assert(chars@ =~= name@.take(i as int));
        }
        assert(chars@ =~= name@);
        let error_prefix: Vec<char> = vec!['C', 'U', 'P', 'T', 'I', '_', 'E', 'R', 'R', 'O', 'R', '_'];
        let plain_prefix: Vec<char> = vec!['C', 'U', 'P', 'T', 'I', '_'];
        assert(error_prefix@ =~= seq!['C', 'U', 'P', 'T', 'I', '_', 'E', 'R', 'R', 'O', 'R', '_']);
        assert(plain_prefix@ =~= seq!['C', 'U', 'P', 'T', 'I', '_']);
        assert(chars@.skip(0) =~= chars@);
        let after_error = skip_leading(&chars, 0, &error_prefix);
        let start = skip_leading(&chars, after_error, &plain_prefix);
        let ghost rest = chars@.skip(start as int);
        let mut out = String::new();
        let mut k: usize = start;
        while k < chars.len()
            invariant
                start <= k <= chars@.len(),
                rest == chars@.skip(start as int),
                out@ == Seq::new((k - start) as nat, |j: int| description_char(rest[j])),
            decreases chars.len() - k,
        {
            let c = chars[k];
            let d = if c == '_' {
                ' '
            } else if c >= 'A' && c <= 'Z' {
                ((c as u8) + 32) as char
            } else {
                c
            };
            assert(d == description_char(c));
            push_char(&mut out, d);
            k += 1;
            assert(out@ =~= Seq::new((k - start) as nat, |j: int| description_char(rest[j])));
        }
        out
    }
}

/// No two statuses share a CUPTI result code, so decoding the code of a status with
/// [`Status::try_from_raw`] gives back that status.
pub proof fn lemma_status_code_round_trip(status: Status, other: Status)
    requires
        status_code(other) == status_code(status),
    ensures
        other == status,
{
}

/// The result code and name of every status, as CUPTI's header assigns them.
pub proof fn lemma_status_codes_follow_header()
    ensures
        status_code(Status::Success) == 0,
        status_code(Status::InvalidParameter) == 1,
        status_code(Status::InvalidDevice) == 2,
        status_code(Status::InvalidContext) == 3,
        status_code(Status::InvalidEventDomainId) == 4,
        status_code(Status::InvalidEventId) == 5,
        status_code(Status::InvalidEventName) == 6,
        status_code(Status::InvalidOperation) == 7,
        status_code(Status::OutOfMemory) == 8,
        status_code(Status::Hardware) == 9,
        status_code(Status::ParameterSizeNotSufficient) == 10,
        status_code(Status::ApiNotImplemented) == 11,
        status_code(Status::MaxLimitReached) == 12,
        status_code(Status::NotReady) == 13,
        status_code(Status::NotCompatible) == 14,
        status_code(Status::NotInitialized) == 15,
        status_code(Status::InvalidMetricId) == 16,
        status_code(Status::InvalidMetricName) == 17,
        status_code(Status::QueueEmpty) == 18,
        status_code(Status::InvalidHandle) == 19,
        status_code(Status::InvalidStream) == 20,
        status_code(Status::InvalidKind) == 21,
        status_code(Status::InvalidEventValue) == 22,
        status_code(Status::Disabled) == 23,
        status_code(Status::InvalidModule) == 24,
        status_code(Status::InvalidMetricValue) == 25,
        status_code(Status::HardwareBusy) == 26,
        status_code(Status::NotSupported) == 27,
        status_code(Status::UnifiedMemoryProfilingNotSupported) == 28,
        status_code(Status::UnifiedMemoryProfilingNotSupportedOnDevice) == 29,
        status_code(Status::UnifiedMemoryProfilingNotSupportedOnNonPeerToPeerDevices) == 30,
        status_code(Status::UnifiedMemoryProfilingNotSupportedWithMultiProcessService) == 31,
        status_code(Status::CudaDynamicParallelismTracingNotSupported) == 32,
        status_code(Status::VirtualizedDeviceNotSupported) == 33,
        status_code(Status::CudaCompilerNotCompatible) == 34,
        status_code(Status::InsufficientPrivileges) == 35,
        status_code(Status::OldProfilerApiInitialized) == 36,
        status_code(Status::OpenAccUndefinedRoutine) == 37,
        status_code(Status::LegacyProfilerNotSupported) == 38,
        status_code(Status::MultipleSubscribersNotSupported) == 39,
        status_code(Status::VirtualizedDeviceInsufficientPrivileges) == 40,
        status_code(Status::ConfidentialComputingNotSupported) == 41,
        status_code(Status::CmpDeviceNotSupported) == 42,
        status_code(Status::MigDeviceNotSupported) == 43,
        status_code(Status::SliDeviceNotSupported) == 44,
        status_code(Status::WslDeviceNotSupported) == 45,
        status_code(Status::InvalidChipName) == 46,
        status_code(Status::HesTraceNotSupportedOnMultiProcessService) == 47,
        status_code(Status::Unknown) == 999,
        status_code(Status::ForceInt) == 0x7fffffff,
        status_name(Status::Success) == "CUPTI_SUCCESS",
        status_name(Status::InvalidParameter) == "CUPTI_ERROR_INVALID_PARAMETER",
        status_name(Status::InvalidDevice) == "CUPTI_ERROR_INVALID_DEVICE",
        status_name(Status::InvalidContext) == "CUPTI_ERROR_INVALID_CONTEXT",
        status_name(Status::InvalidEventDomainId) == "CUPTI_ERROR_INVALID_EVENT_DOMAIN_ID",
        status_name(Status::InvalidEventId) == "CUPTI_ERROR_INVALID_EVENT_ID",
        status_name(Status::InvalidEventName) == "CUPTI_ERROR_INVALID_EVENT_NAME",
        status_name(Status::InvalidOperation) == "CUPTI_ERROR_INVALID_OPERATION",
        status_name(Status::OutOfMemory) == "CUPTI_ERROR_OUT_OF_MEMORY",
        status_name(Status::Hardware) == "CUPTI_ERROR_HARDWARE",
        status_name(Status::ParameterSizeNotSufficient) == "CUPTI_ERROR_PARAMETER_SIZE_NOT_SUFFICIENT",
        status_name(Status::ApiNotImplemented) == "CUPTI_ERROR_API_NOT_IMPLEMENTED",
        status_name(Status::MaxLimitReached) == "CUPTI_ERROR_MAX_LIMIT_REACHED",
        status_name(Status::NotReady) == "CUPTI_ERROR_NOT_READY",
        status_name(Status::NotCompatible) == "CUPTI_ERROR_NOT_COMPATIBLE",
        status_name(Status::NotInitialized) == "CUPTI_ERROR_NOT_INITIALIZED",
        status_name(Status::InvalidMetricId) == "CUPTI_ERROR_INVALID_METRIC_ID",
        status_name(Status::InvalidMetricName) == "CUPTI_ERROR_INVALID_METRIC_NAME",
        status_name(Status::QueueEmpty) == "CUPTI_ERROR_QUEUE_EMPTY",
        status_name(Status::InvalidHandle) == "CUPTI_ERROR_INVALID_HANDLE",
        status_name(Status::InvalidStream) == "CUPTI_ERROR_INVALID_STREAM",
        status_name(Status::InvalidKind) == "CUPTI_ERROR_INVALID_KIND",
        status_name(Status::InvalidEventValue) == "CUPTI_ERROR_INVALID_EVENT_VALUE",
        status_name(Status::Disabled) == "CUPTI_ERROR_DISABLED",
        status_name(Status::InvalidModule) == "CUPTI_ERROR_INVALID_MODULE",
        status_name(Status::InvalidMetricValue) == "CUPTI_ERROR_INVALID_METRIC_VALUE",
        status_name(Status::HardwareBusy) == "CUPTI_ERROR_HARDWARE_BUSY",
        status_name(Status::NotSupported) == "CUPTI_ERROR_NOT_SUPPORTED",
        status_name(Status::UnifiedMemoryProfilingNotSupported) == "CUPTI_ERROR_UM_PROFILING_NOT_SUPPORTED",
        status_name(Status::UnifiedMemoryProfilingNotSupportedOnDevice) == "CUPTI_ERROR_UM_PROFILING_NOT_SUPPORTED_ON_DEVICE",
        status_name(Status::UnifiedMemoryProfilingNotSupportedOnNonPeerToPeerDevices) == "CUPTI_ERROR_UM_PROFILING_NOT_SUPPORTED_ON_NON_P2P_DEVICES",
        status_name(Status::UnifiedMemoryProfilingNotSupportedWithMultiProcessService) == "CUPTI_ERROR_UM_PROFILING_NOT_SUPPORTED_WITH_MPS",
        status_name(Status::CudaDynamicParallelismTracingNotSupported) == "CUPTI_ERROR_CDP_TRACING_NOT_SUPPORTED",
        status_name(Status::VirtualizedDeviceNotSupported) == "CUPTI_ERROR_VIRTUALIZED_DEVICE_NOT_SUPPORTED",
        status_name(Status::CudaCompilerNotCompatible) == "CUPTI_ERROR_CUDA_COMPILER_NOT_COMPATIBLE",
        status_name(Status::InsufficientPrivileges) == "CUPTI_ERROR_INSUFFICIENT_PRIVILEGES",
        status_name(Status::OldProfilerApiInitialized) == "CUPTI_ERROR_OLD_PROFILER_API_INITIALIZED",
        status_name(Status::OpenAccUndefinedRoutine) == "CUPTI_ERROR_OPENACC_UNDEFINED_ROUTINE",
        status_name(Status::LegacyProfilerNotSupported) == "CUPTI_ERROR_LEGACY_PROFILER_NOT_SUPPORTED",
        status_name(Status::MultipleSubscribersNotSupported) == "CUPTI_ERROR_MULTIPLE_SUBSCRIBERS_NOT_SUPPORTED",
        status_name(Status::VirtualizedDeviceInsufficientPrivileges) == "CUPTI_ERROR_VIRTUALIZED_DEVICE_INSUFFICIENT_PRIVILEGES",
        status_name(Status::ConfidentialComputingNotSupported) == "CUPTI_ERROR_CONFIDENTIAL_COMPUTING_NOT_SUPPORTED",
        status_name(Status::CmpDeviceNotSupported) == "CUPTI_ERROR_CMP_DEVICE_NOT_SUPPORTED",
        status_name(Status::MigDeviceNotSupported) == "CUPTI_ERROR_MIG_DEVICE_NOT_SUPPORTED",
        status_name(Status::SliDeviceNotSupported) == "CUPTI_ERROR_SLI_DEVICE_NOT_SUPPORTED",
        status_name(Status::WslDeviceNotSupported) == "CUPTI_ERROR_WSL_DEVICE_NOT_SUPPORTED",
        status_name(Status::InvalidChipName) == "CUPTI_ERROR_INVALID_CHIP_NAME",
        status_name(Status::HesTraceNotSupportedOnMultiProcessService) == "CUPTI_ERROR_HES_TRACE_NOT_SUPPORTED_ON_MPS",
        status_name(Status::Unknown) == "CUPTI_ERROR_UNKNOWN",
        status_name(Status::ForceInt) == "CUPTI_ERROR_FORCE_INT",
{
}

} // verus!
