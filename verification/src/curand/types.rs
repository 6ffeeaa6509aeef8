//! cuRAND status codes and the generator, ordering, direction vector and method enums.
use vstd::prelude::*;

verus! {

/// Status returned by a cuRAND call.
#[derive(Debug, Clone, Copy, PartialEq, Eq, Hash, Structural)]
#[non_exhaustive]
pub enum Status {
    /// `CURAND_STATUS_SUCCESS`.
    Success,
    /// `CURAND_STATUS_VERSION_MISMATCH`.
    VersionMismatch,
    /// `CURAND_STATUS_NOT_INITIALIZED`.
    NotInitialized,
    /// `CURAND_STATUS_ALLOCATION_FAILED`.
    AllocationFailed,
    /// `CURAND_STATUS_TYPE_ERROR`.
    TypeError,
    /// `CURAND_STATUS_OUT_OF_RANGE`.
    OutOfRange,
    /// `CURAND_STATUS_LENGTH_NOT_MULTIPLE`.
    LengthNotMultiple,
    /// `CURAND_STATUS_DOUBLE_PRECISION_REQUIRED`.
    DoublePrecisionRequired,
    /// `CURAND_STATUS_LAUNCH_FAILURE`.
    LaunchFailure,
    /// `CURAND_STATUS_PREEXISTING_FAILURE`.
    PreexistingFailure,
    /// `CURAND_STATUS_INITIALIZATION_FAILED`.
    InitializationFailed,
    /// `CURAND_STATUS_ARCH_MISMATCH`.
    ArchitectureMismatch,
    /// `CURAND_STATUS_INTERNAL_ERROR`.
    InternalError,
    /// A status code cuRAND does not document.
    Unknown(u32),
}

impl Status {
    /// The numeric status code.
    pub open spec fn code(self) -> u32 {
        match self {
            Status::Success => 0,
            Status::VersionMismatch => 100,
            Status::NotInitialized => 101,
            Status::AllocationFailed => 102,
            Status::TypeError => 103,
            Status::OutOfRange => 104,
            Status::LengthNotMultiple => 105,
            Status::DoublePrecisionRequired => 106,
            Status::LaunchFailure => 201,
            Status::PreexistingFailure => 202,
            Status::InitializationFailed => 203,
            Status::ArchitectureMismatch => 204,
            Status::InternalError => 999,
            Status::Unknown(code) => code,
        }
    }

    /// The status of numeric code `code`: the documented status with that code, or
    /// `Unknown(code)`.
    pub open spec fn of_code(code: u32) -> Status {
        match code {
            0 => Status::Success,
            100 => Status::VersionMismatch,
            101 => Status::NotInitialized,
            102 => Status::AllocationFailed,
            103 => Status::TypeError,
            104 => Status::OutOfRange,
            105 => Status::LengthNotMultiple,
            106 => Status::DoublePrecisionRequired,
            201 => Status::LaunchFailure,
            202 => Status::PreexistingFailure,
            203 => Status::InitializationFailed,
            204 => Status::ArchitectureMismatch,
            999 => Status::InternalError,
            code => Status::Unknown(code),
        }
    }

    /// Returns the numeric status code.
    pub fn raw(self) -> (r: u32)
        ensures
            r == self.code(),
    {
        match self {
            Status::Success => 0,
            Status::VersionMismatch => 100,
            Status::NotInitialized => 101,
            Status::AllocationFailed => 102,
            Status::TypeError => 103,
            Status::OutOfRange => 104,
            Status::LengthNotMultiple => 105,
            Status::DoublePrecisionRequired => 106,
            Status::LaunchFailure => 201,
            Status::PreexistingFailure => 202,
            Status::InitializationFailed => 203,
            Status::ArchitectureMismatch => 204,
            Status::InternalError => 999,
            Status::Unknown(code) => code,
        }
    }

    /// The C name of a documented status.
    pub open spec fn c_name(self) -> Option<&'static str> {
        match self {
            Status::Success => Some("CURAND_STATUS_SUCCESS"),
            Status::VersionMismatch => Some("CURAND_STATUS_VERSION_MISMATCH"),
            Status::NotInitialized => Some("CURAND_STATUS_NOT_INITIALIZED"),
            Status::AllocationFailed => Some("CURAND_STATUS_ALLOCATION_FAILED"),
            Status::TypeError => Some("CURAND_STATUS_TYPE_ERROR"),
            Status::OutOfRange => Some("CURAND_STATUS_OUT_OF_RANGE"),
            Status::LengthNotMultiple => Some("CURAND_STATUS_LENGTH_NOT_MULTIPLE"),
            Status::DoublePrecisionRequired => Some("CURAND_STATUS_DOUBLE_PRECISION_REQUIRED"),
            Status::LaunchFailure => Some("CURAND_STATUS_LAUNCH_FAILURE"),
            Status::PreexistingFailure => Some("CURAND_STATUS_PREEXISTING_FAILURE"),
            Status::InitializationFailed => Some("CURAND_STATUS_INITIALIZATION_FAILED"),
            Status::ArchitectureMismatch => Some("CURAND_STATUS_ARCH_MISMATCH"),
            Status::InternalError => Some("CURAND_STATUS_INTERNAL_ERROR"),
            Status::Unknown(_) => None,
        }
    }

    /// Returns the C name of a documented status, as cuRAND's headers spell it, or
    /// `None` for an undocumented code.
    pub fn name(self) -> (r: Option<&'static str>)
        ensures
            r == self.c_name(),
    {
        match self {
            Status::Success => Some("CURAND_STATUS_SUCCESS"),
            Status::VersionMismatch => Some("CURAND_STATUS_VERSION_MISMATCH"),
            Status::NotInitialized => Some("CURAND_STATUS_NOT_INITIALIZED"),
            Status::AllocationFailed => Some("CURAND_STATUS_ALLOCATION_FAILED"),
            Status::TypeError => Some("CURAND_STATUS_TYPE_ERROR"),
            Status::OutOfRange => Some("CURAND_STATUS_OUT_OF_RANGE"),
            Status::LengthNotMultiple => Some("CURAND_STATUS_LENGTH_NOT_MULTIPLE"),
            Status::DoublePrecisionRequired => Some("CURAND_STATUS_DOUBLE_PRECISION_REQUIRED"),
            Status::LaunchFailure => Some("CURAND_STATUS_LAUNCH_FAILURE"),
            Status::PreexistingFailure => Some("CURAND_STATUS_PREEXISTING_FAILURE"),
            Status::InitializationFailed => Some("CURAND_STATUS_INITIALIZATION_FAILED"),
            Status::ArchitectureMismatch => Some("CURAND_STATUS_ARCH_MISMATCH"),
            Status::InternalError => Some("CURAND_STATUS_INTERNAL_ERROR"),
            Status::Unknown(_) => None,
        }
    }

    /// The message describing the status.
    pub open spec fn message_text(self) -> &'static str {
        match self {
            Status::Success => "success",
            Status::VersionMismatch => "version mismatch",
            Status::NotInitialized => "not initialized",
            Status::AllocationFailed => "allocation failed",
            Status::TypeError => "type error",
            Status::OutOfRange => "out of range",
            Status::LengthNotMultiple => "length is not a multiple",
            Status::DoublePrecisionRequired => "double precision required",
            Status::LaunchFailure => "launch failure",
            Status::PreexistingFailure => "preexisting failure",
            Status::InitializationFailed => "initialization failed",
            Status::ArchitectureMismatch => "architecture mismatch",
            Status::InternalError => "internal error",
            Status::Unknown(_) => "unknown curand error",
        }
    }
}

impl From<u32> for Status {
    fn from(code: u32) -> (r: Self)
        ensures
            r == Status::of_code(code),
    {
        match code {
            0 => Status::Success,
            100 => Status::VersionMismatch,
            101 => Status::NotInitialized,
            102 => Status::AllocationFailed,
            103 => Status::TypeError,
            104 => Status::OutOfRange,
            105 => Status::LengthNotMultiple,
            106 => Status::DoublePrecisionRequired,
            201 => Status::LaunchFailure,
            202 => Status::PreexistingFailure,
            203 => Status::InitializationFailed,
            204 => Status::ArchitectureMismatch,
            999 => Status::InternalError,
            code => Status::Unknown(code),
        }
    }
}

impl vstd::std_specs::convert::FromSpecImpl<u32> for Status {
    open spec fn obeys_from_spec() -> bool {
        true
    }

    open spec fn from_spec(v: u32) -> Self {
        Status::of_code(v)
    }
}

/// Returns the message describing a status: a short lowercase phrase for each
/// documented status, and "unknown curand error" for an undocumented code.
pub fn status_message(status: Status) -> (r: String)
    ensures
        r@ == status.message_text()@,
{
    let text: &'static str = match status {
        Status::Success => "success",
        Status::VersionMismatch => "version mismatch",
        Status::NotInitialized => "not initialized",
        Status::AllocationFailed => "allocation failed",
        Status::TypeError => "type error",
        Status::OutOfRange => "out of range",
        Status::LengthNotMultiple => "length is not a multiple",
        Status::DoublePrecisionRequired => "double precision required",
        Status::LaunchFailure => "launch failure",
        Status::PreexistingFailure => "preexisting failure",
        Status::InitializationFailed => "initialization failed",
        Status::ArchitectureMismatch => "architecture mismatch",
        Status::InternalError => "internal error",
        Status::Unknown(_) => "unknown curand error",
    };
    text.to_owned()
}

/// Reading a numeric code as a status and back gives the same code.
pub proof fn lemma_status_code_round_trip(code: u32)
    ensures
        Status::of_code(code).code() == code,
{
}

/// Every status other than `Unknown` holding a documented code is the status of its code.
pub proof fn lemma_status_of_own_code(status: Status)
    ensures
        !(status is Unknown) ==> Status::of_code(status.code()) == status,
        status matches Status::Unknown(c) ==> (Status::of_code(c) == status <==> Status::of_code(c) is Unknown),
{
}

/// Kind of cuRAND random number generator.
#[derive(Debug, Clone, Copy, PartialEq, Eq, Hash, Structural)]
#[non_exhaustive]
pub enum RngType {
    /// `CURAND_RNG_TEST`.
    Test,
    /// `CURAND_RNG_PSEUDO_DEFAULT`.
    PseudoDefault,
    /// `CURAND_RNG_PSEUDO_XORWOW`.
    PseudoXorwow,
    /// `CURAND_RNG_PSEUDO_MRG32K3A`.
    PseudoMrg32k3a,
    /// `CURAND_RNG_PSEUDO_MTGP32`.
    PseudoMtgp32,
    /// `CURAND_RNG_PSEUDO_MT19937`.
    PseudoMt19937,
    /// `CURAND_RNG_PSEUDO_PHILOX4_32_10`.
    PseudoPhilox4_32_10,
    /// `CURAND_RNG_QUASI_DEFAULT`.
    QuasiDefault,
    /// `CURAND_RNG_QUASI_SOBOL32`.
    QuasiSobol32,
    /// `CURAND_RNG_QUASI_SCRAMBLED_SOBOL32`.
    QuasiScrambledSobol32,
    /// `CURAND_RNG_QUASI_SOBOL64`.
    QuasiSobol64,
    /// `CURAND_RNG_QUASI_SCRAMBLED_SOBOL64`.
    QuasiScrambledSobol64,
}

impl RngType {
    /// Numeric value of the variant in the C enum.
    pub open spec fn raw_value(self) -> u32 {
        match self {
            RngType::Test => 0,
            RngType::PseudoDefault => 100,
            RngType::PseudoXorwow => 101,
            RngType::PseudoMrg32k3a => 121,
            RngType::PseudoMtgp32 => 141,
            RngType::PseudoMt19937 => 142,
            RngType::PseudoPhilox4_32_10 => 161,
            RngType::QuasiDefault => 200,
            RngType::QuasiSobol32 => 201,
            RngType::QuasiScrambledSobol32 => 202,
            RngType::QuasiSobol64 => 203,
            RngType::QuasiScrambledSobol64 => 204,
        }
    }

    /// Returns the numeric value of the variant in the C enum.
    pub fn raw(self) -> (r: u32)
        ensures
            r == self.raw_value(),
    {
        match self {
            RngType::Test => 0,
            RngType::PseudoDefault => 100,
            RngType::PseudoXorwow => 101,
            RngType::PseudoMrg32k3a => 121,
            RngType::PseudoMtgp32 => 141,
            RngType::PseudoMt19937 => 142,
            RngType::PseudoPhilox4_32_10 => 161,
            RngType::QuasiDefault => 200,
            RngType::QuasiSobol32 => 201,
            RngType::QuasiScrambledSobol32 => 202,
            RngType::QuasiSobol64 => 203,
            RngType::QuasiScrambledSobol64 => 204,
        }
    }

    /// Decodes a numeric value of the C enum, or `None` for a value it does not define.
    pub fn try_from_raw(value: u32) -> (r: Option<Self>)
        ensures
            match r {
                Some(v) => v.raw_value() == value,
                None => forall|v: Self| v.raw_value() != value,
            },
    {
        match value {
            0 => Some(RngType::Test),
            100 => Some(RngType::PseudoDefault),
            101 => Some(RngType::PseudoXorwow),
            121 => Some(RngType::PseudoMrg32k3a),
            141 => Some(RngType::PseudoMtgp32),
            142 => Some(RngType::PseudoMt19937),
            161 => Some(RngType::PseudoPhilox4_32_10),
            200 => Some(RngType::QuasiDefault),
            201 => Some(RngType::QuasiSobol32),
            202 => Some(RngType::QuasiScrambledSobol32),
            203 => Some(RngType::QuasiSobol64),
            204 => Some(RngType::QuasiScrambledSobol64),
            _ => None,
        }
    }

    /// The C name of the variant.
    pub open spec fn c_name(self) -> &'static str {
        match self {
            RngType::Test => "CURAND_RNG_TEST",
            RngType::PseudoDefault => "CURAND_RNG_PSEUDO_DEFAULT",
            RngType::PseudoXorwow => "CURAND_RNG_PSEUDO_XORWOW",
            RngType::PseudoMrg32k3a => "CURAND_RNG_PSEUDO_MRG32K3A",
            RngType::PseudoMtgp32 => "CURAND_RNG_PSEUDO_MTGP32",
            RngType::PseudoMt19937 => "CURAND_RNG_PSEUDO_MT19937",
            RngType::PseudoPhilox4_32_10 => "CURAND_RNG_PSEUDO_PHILOX4_32_10",
            RngType::QuasiDefault => "CURAND_RNG_QUASI_DEFAULT",
            RngType::QuasiSobol32 => "CURAND_RNG_QUASI_SOBOL32",
            RngType::QuasiScrambledSobol32 => "CURAND_RNG_QUASI_SCRAMBLED_SOBOL32",
            RngType::QuasiSobol64 => "CURAND_RNG_QUASI_SOBOL64",
            RngType::QuasiScrambledSobol64 => "CURAND_RNG_QUASI_SCRAMBLED_SOBOL64",
        }
    }

    /// Returns the C name of the variant, as cuRAND's headers spell it.
    pub fn name(self) -> (r: &'static str)
        ensures
            r == self.c_name(),
    {
        match self {
            RngType::Test => "CURAND_RNG_TEST",
            RngType::PseudoDefault => "CURAND_RNG_PSEUDO_DEFAULT",
            RngType::PseudoXorwow => "CURAND_RNG_PSEUDO_XORWOW",
            RngType::PseudoMrg32k3a => "CURAND_RNG_PSEUDO_MRG32K3A",
            RngType::PseudoMtgp32 => "CURAND_RNG_PSEUDO_MTGP32",
            RngType::PseudoMt19937 => "CURAND_RNG_PSEUDO_MT19937",
            RngType::PseudoPhilox4_32_10 => "CURAND_RNG_PSEUDO_PHILOX4_32_10",
            RngType::QuasiDefault => "CURAND_RNG_QUASI_DEFAULT",
            RngType::QuasiSobol32 => "CURAND_RNG_QUASI_SOBOL32",
            RngType::QuasiScrambledSobol32 => "CURAND_RNG_QUASI_SCRAMBLED_SOBOL32",
            RngType::QuasiSobol64 => "CURAND_RNG_QUASI_SOBOL64",
            RngType::QuasiScrambledSobol64 => "CURAND_RNG_QUASI_SCRAMBLED_SOBOL64",
        }
    }
}

/// Ordering of results in memory for a cuRAND generator.
#[derive(Debug, Clone, Copy, PartialEq, Eq, Hash, Structural)]
#[non_exhaustive]
pub enum RngOrdering {
    /// `CURAND_ORDERING_PSEUDO_BEST`.
    PseudoBest,
    /// `CURAND_ORDERING_PSEUDO_DEFAULT`.
    PseudoDefault,
    /// `CURAND_ORDERING_PSEUDO_SEEDED`.
    PseudoSeeded,
    /// `CURAND_ORDERING_PSEUDO_LEGACY`.
    PseudoLegacy,
    /// `CURAND_ORDERING_PSEUDO_DYNAMIC`.
    PseudoDynamic,
    /// `CURAND_ORDERING_QUASI_DEFAULT`.
    QuasiDefault,
}

impl RngOrdering {
    /// Numeric value of the variant in the C enum.
    pub open spec fn raw_value(self) -> u32 {
        match self {
            RngOrdering::PseudoBest => 100,
            RngOrdering::PseudoDefault => 101,
            RngOrdering::PseudoSeeded => 102,
            RngOrdering::PseudoLegacy => 103,
            RngOrdering::PseudoDynamic => 104,
            RngOrdering::QuasiDefault => 201,
        }
    }

    /// Returns the numeric value of the variant in the C enum.
    pub fn raw(self) -> (r: u32)
        ensures
            r == self.raw_value(),
    {
        match self {
            RngOrdering::PseudoBest => 100,
            RngOrdering::PseudoDefault => 101,
            RngOrdering::PseudoSeeded => 102,
            RngOrdering::PseudoLegacy => 103,
            RngOrdering::PseudoDynamic => 104,
            RngOrdering::QuasiDefault => 201,
        }
    }

    /// Decodes a numeric value of the C enum, or `None` for a value it does not define.
    pub fn try_from_raw(value: u32) -> (r: Option<Self>)
        ensures
            match r {
                Some(v) => v.raw_value() == value,
                None => forall|v: Self| v.raw_value() != value,
            },
    {
        match value {
            100 => Some(RngOrdering::PseudoBest),
            101 => Some(RngOrdering::PseudoDefault),
            102 => Some(RngOrdering::PseudoSeeded),
            103 => Some(RngOrdering::PseudoLegacy),
            104 => Some(RngOrdering::PseudoDynamic),
            201 => Some(RngOrdering::QuasiDefault),
            _ => None,
        }
    }

    /// The C name of the variant.
    pub open spec fn c_name(self) -> &'static str {
        match self {
            RngOrdering::PseudoBest => "CURAND_ORDERING_PSEUDO_BEST",
            RngOrdering::PseudoDefault => "CURAND_ORDERING_PSEUDO_DEFAULT",
            RngOrdering::PseudoSeeded => "CURAND_ORDERING_PSEUDO_SEEDED",
            RngOrdering::PseudoLegacy => "CURAND_ORDERING_PSEUDO_LEGACY",
            RngOrdering::PseudoDynamic => "CURAND_ORDERING_PSEUDO_DYNAMIC",
            RngOrdering::QuasiDefault => "CURAND_ORDERING_QUASI_DEFAULT",
        }
    }

    /// Returns the C name of the variant, as cuRAND's headers spell it.
    pub fn name(self) -> (r: &'static str)
        ensures
            r == self.c_name(),
    {
        match self {
            RngOrdering::PseudoBest => "CURAND_ORDERING_PSEUDO_BEST",
            RngOrdering::PseudoDefault => "CURAND_ORDERING_PSEUDO_DEFAULT",
            RngOrdering::PseudoSeeded => "CURAND_ORDERING_PSEUDO_SEEDED",
            RngOrdering::PseudoLegacy => "CURAND_ORDERING_PSEUDO_LEGACY",
            RngOrdering::PseudoDynamic => "CURAND_ORDERING_PSEUDO_DYNAMIC",
            RngOrdering::QuasiDefault => "CURAND_ORDERING_QUASI_DEFAULT",
        }
    }
}

/// Set of Sobol direction vectors.
#[derive(Debug, Clone, Copy, PartialEq, Eq, Hash, Structural)]
#[non_exhaustive]
pub enum DirectionVectorSet {
    /// `CURAND_DIRECTION_VECTORS_32_JOEKUO6`.
    JoeKuo6_32,
    /// `CURAND_SCRAMBLED_DIRECTION_VECTORS_32_JOEKUO6`.
    ScrambledJoeKuo6_32,
    /// `CURAND_DIRECTION_VECTORS_64_JOEKUO6`.
    JoeKuo6_64,
    /// `CURAND_SCRAMBLED_DIRECTION_VECTORS_64_JOEKUO6`.
    ScrambledJoeKuo6_64,
}

impl DirectionVectorSet {
    /// Numeric value of the variant in the C enum.
    pub open spec fn raw_value(self) -> u32 {
        match self {
            DirectionVectorSet::JoeKuo6_32 => 101,
            DirectionVectorSet::ScrambledJoeKuo6_32 => 102,
            DirectionVectorSet::JoeKuo6_64 => 103,
            DirectionVectorSet::ScrambledJoeKuo6_64 => 104,
        }
    }

    /// Returns the numeric value of the variant in the C enum.
    pub fn raw(self) -> (r: u32)
        ensures
            r == self.raw_value(),
    {
        match self {
            DirectionVectorSet::JoeKuo6_32 => 101,
            DirectionVectorSet::ScrambledJoeKuo6_32 => 102,
            DirectionVectorSet::JoeKuo6_64 => 103,
            DirectionVectorSet::ScrambledJoeKuo6_64 => 104,
        }
    }

    /// Decodes a numeric value of the C enum, or `None` for a value it does not define.
    pub fn try_from_raw(value: u32) -> (r: Option<Self>)
        ensures
            match r {
                Some(v) => v.raw_value() == value,
                None => forall|v: Self| v.raw_value() != value,
            },
    {
        match value {
            101 => Some(DirectionVectorSet::JoeKuo6_32),
            102 => Some(DirectionVectorSet::ScrambledJoeKuo6_32),
            103 => Some(DirectionVectorSet::JoeKuo6_64),
            104 => Some(DirectionVectorSet::ScrambledJoeKuo6_64),
            _ => None,
        }
    }

    /// The C name of the variant.
    pub open spec fn c_name(self) -> &'static str {
        match self {
            DirectionVectorSet::JoeKuo6_32 => "CURAND_DIRECTION_VECTORS_32_JOEKUO6",
            DirectionVectorSet::ScrambledJoeKuo6_32 => "CURAND_SCRAMBLED_DIRECTION_VECTORS_32_JOEKUO6",
            DirectionVectorSet::JoeKuo6_64 => "CURAND_DIRECTION_VECTORS_64_JOEKUO6",
            DirectionVectorSet::ScrambledJoeKuo6_64 => "CURAND_SCRAMBLED_DIRECTION_VECTORS_64_JOEKUO6",
        }
    }

    /// Returns the C name of the variant, as cuRAND's headers spell it.
    pub fn name(self) -> (r: &'static str)
        ensures
            r == self.c_name(),
    {
        match self {
            DirectionVectorSet::JoeKuo6_32 => "CURAND_DIRECTION_VECTORS_32_JOEKUO6",
            DirectionVectorSet::ScrambledJoeKuo6_32 => "CURAND_SCRAMBLED_DIRECTION_VECTORS_32_JOEKUO6",
            DirectionVectorSet::JoeKuo6_64 => "CURAND_DIRECTION_VECTORS_64_JOEKUO6",
            DirectionVectorSet::ScrambledJoeKuo6_64 => "CURAND_SCRAMBLED_DIRECTION_VECTORS_64_JOEKUO6",
        }
    }
}

/// Method cuRAND uses to generate a distribution.
#[derive(Debug, Clone, Copy, PartialEq, Eq, Hash, Structural)]
#[non_exhaustive]
pub enum Method {
    /// `CURAND_CHOOSE_BEST`.
    ChooseBest,
    /// `CURAND_ITR`.
    Inversion,
    /// `CURAND_KNUTH`.
    Knuth,
    /// `CURAND_HITR`.
    HybridInversionRejection,
    /// `CURAND_M1`.
    M1,
    /// `CURAND_M2`.
    M2,
    /// `CURAND_BINARY_SEARCH`.
    BinarySearch,
    /// `CURAND_DISCRETE_GAUSS`.
    DiscreteGauss,
    /// `CURAND_REJECTION`.
    Rejection,
    /// `CURAND_DEVICE_API`.
    DeviceApi,
    /// `CURAND_FAST_REJECTION`.
    FastRejection,
    /// `CURAND_3RD`.
    Third,
    /// `CURAND_DEFINITION`.
    Definition,
    /// `CURAND_POISSON`.
    Poisson,
}

impl Method {
    /// Numeric value of the variant in the C enum.
    pub open spec fn raw_value(self) -> u32 {
        match self {
            Method::ChooseBest => 0,
            Method::Inversion => 1,
            Method::Knuth => 2,
            Method::HybridInversionRejection => 3,
            Method::M1 => 4,
            Method::M2 => 5,
            Method::BinarySearch => 6,
            Method::DiscreteGauss => 7,
            Method::Rejection => 8,
            Method::DeviceApi => 9,
            Method::FastRejection => 10,
            Method::Third => 11,
            Method::Definition => 12,
            Method::Poisson => 13,
        }
    }

    /// Returns the numeric value of the variant in the C enum.
    pub fn raw(self) -> (r: u32)
        ensures
            r == self.raw_value(),
    {
        match self {
            Method::ChooseBest => 0,
            Method::Inversion => 1,
            Method::Knuth => 2,
            Method::HybridInversionRejection => 3,
            Method::M1 => 4,
            Method::M2 => 5,
            Method::BinarySearch => 6,
            Method::DiscreteGauss => 7,
            Method::Rejection => 8,
            Method::DeviceApi => 9,
            Method::FastRejection => 10,
            Method::Third => 11,
            Method::Definition => 12,
            Method::Poisson => 13,
        }
    }

    /// Decodes a numeric value of the C enum, or `None` for a value it does not define.
    pub fn try_from_raw(value: u32) -> (r: Option<Self>)
        ensures
            match r {
                Some(v) => v.raw_value() == value,
                None => forall|v: Self| v.raw_value() != value,
            },
    {
        match value {
            0 => Some(Method::ChooseBest),
            1 => Some(Method::Inversion),
            2 => Some(Method::Knuth),
            3 => Some(Method::HybridInversionRejection),
            4 => Some(Method::M1),
            5 => Some(Method::M2),
            6 => Some(Method::BinarySearch),
            7 => Some(Method::DiscreteGauss),
            8 => Some(Method::Rejection),
            9 => Some(Method::DeviceApi),
            10 => Some(Method::FastRejection),
            11 => Some(Method::Third),
            12 => Some(Method::Definition),
            13 => Some(Method::Poisson),
            _ => None,
        }
    }

    /// The C name of the variant.
    pub open spec fn c_name(self) -> &'static str {
        match self {
            Method::ChooseBest => "CURAND_CHOOSE_BEST",
            Method::Inversion => "CURAND_ITR",
            Method::Knuth => "CURAND_KNUTH",
            Method::HybridInversionRejection => "CURAND_HITR",
            Method::M1 => "CURAND_M1",
            Method::M2 => "CURAND_M2",
            Method::BinarySearch => "CURAND_BINARY_SEARCH",
            Method::DiscreteGauss => "CURAND_DISCRETE_GAUSS",
            Method::Rejection => "CURAND_REJECTION",
            Method::DeviceApi => "CURAND_DEVICE_API",
            Method::FastRejection => "CURAND_FAST_REJECTION",
            Method::Third => "CURAND_3RD",
            Method::Definition => "CURAND_DEFINITION",
            Method::Poisson => "CURAND_POISSON",
        }
    }

    /// Returns the C name of the variant, as cuRAND's headers spell it.
    pub fn name(self) -> (r: &'static str)
        ensures
            r == self.c_name(),
    {
        match self {
            Method::ChooseBest => "CURAND_CHOOSE_BEST",
            Method::Inversion => "CURAND_ITR",
            Method::Knuth => "CURAND_KNUTH",
            Method::HybridInversionRejection => "CURAND_HITR",
            Method::M1 => "CURAND_M1",
            Method::M2 => "CURAND_M2",
            Method::BinarySearch => "CURAND_BINARY_SEARCH",
            Method::DiscreteGauss => "CURAND_DISCRETE_GAUSS",
            Method::Rejection => "CURAND_REJECTION",
            Method::DeviceApi => "CURAND_DEVICE_API",
            Method::FastRejection => "CURAND_FAST_REJECTION",
            Method::Third => "CURAND_3RD",
            Method::Definition => "CURAND_DEFINITION",
            Method::Poisson => "CURAND_POISSON",
        }
    }
}



/// The C values and names of [`RngType`], as the C header assigns them.
pub proof fn lemma_rng_type_c_values()
    ensures
        RngType::Test.raw_value() == 0,
        RngType::PseudoDefault.raw_value() == 100,
        RngType::PseudoXorwow.raw_value() == 101,
        RngType::PseudoMrg32k3a.raw_value() == 121,
        RngType::PseudoMtgp32.raw_value() == 141,
        RngType::PseudoMt19937.raw_value() == 142,
        RngType::PseudoPhilox4_32_10.raw_value() == 161,
        RngType::QuasiDefault.raw_value() == 200,
        RngType::QuasiSobol32.raw_value() == 201,
        RngType::QuasiScrambledSobol32.raw_value() == 202,
        RngType::QuasiSobol64.raw_value() == 203,
        RngType::QuasiScrambledSobol64.raw_value() == 204,
        RngType::Test.c_name() == "CURAND_RNG_TEST",
        RngType::PseudoDefault.c_name() == "CURAND_RNG_PSEUDO_DEFAULT",
        RngType::PseudoXorwow.c_name() == "CURAND_RNG_PSEUDO_XORWOW",
        RngType::PseudoMrg32k3a.c_name() == "CURAND_RNG_PSEUDO_MRG32K3A",
        RngType::PseudoMtgp32.c_name() == "CURAND_RNG_PSEUDO_MTGP32",
        RngType::PseudoMt19937.c_name() == "CURAND_RNG_PSEUDO_MT19937",
        RngType::PseudoPhilox4_32_10.c_name() == "CURAND_RNG_PSEUDO_PHILOX4_32_10",
        RngType::QuasiDefault.c_name() == "CURAND_RNG_QUASI_DEFAULT",
        RngType::QuasiSobol32.c_name() == "CURAND_RNG_QUASI_SOBOL32",
        RngType::QuasiScrambledSobol32.c_name() == "CURAND_RNG_QUASI_SCRAMBLED_SOBOL32",
        RngType::QuasiSobol64.c_name() == "CURAND_RNG_QUASI_SOBOL64",
        RngType::QuasiScrambledSobol64.c_name() == "CURAND_RNG_QUASI_SCRAMBLED_SOBOL64",
{
}

/// The C values and names of [`RngOrdering`], as the C header assigns them.
pub proof fn lemma_rng_ordering_c_values()
    ensures
        RngOrdering::PseudoBest.raw_value() == 100,
        RngOrdering::PseudoDefault.raw_value() == 101,
        RngOrdering::PseudoSeeded.raw_value() == 102,
        RngOrdering::PseudoLegacy.raw_value() == 103,
        RngOrdering::PseudoDynamic.raw_value() == 104,
        RngOrdering::QuasiDefault.raw_value() == 201,
        RngOrdering::PseudoBest.c_name() == "CURAND_ORDERING_PSEUDO_BEST",
        RngOrdering::PseudoDefault.c_name() == "CURAND_ORDERING_PSEUDO_DEFAULT",
        RngOrdering::PseudoSeeded.c_name() == "CURAND_ORDERING_PSEUDO_SEEDED",
        RngOrdering::PseudoLegacy.c_name() == "CURAND_ORDERING_PSEUDO_LEGACY",
        RngOrdering::PseudoDynamic.c_name() == "CURAND_ORDERING_PSEUDO_DYNAMIC",
        RngOrdering::QuasiDefault.c_name() == "CURAND_ORDERING_QUASI_DEFAULT",
{
}

/// The C values and names of [`DirectionVectorSet`], as the C header assigns them.
pub proof fn lemma_direction_vector_set_c_values()
    ensures
        DirectionVectorSet::JoeKuo6_32.raw_value() == 101,
        DirectionVectorSet::ScrambledJoeKuo6_32.raw_value() == 102,
        DirectionVectorSet::JoeKuo6_64.raw_value() == 103,
        DirectionVectorSet::ScrambledJoeKuo6_64.raw_value() == 104,
        DirectionVectorSet::JoeKuo6_32.c_name() == "CURAND_DIRECTION_VECTORS_32_JOEKUO6",
        DirectionVectorSet::ScrambledJoeKuo6_32.c_name() == "CURAND_SCRAMBLED_DIRECTION_VECTORS_32_JOEKUO6",
        DirectionVectorSet::JoeKuo6_64.c_name() == "CURAND_DIRECTION_VECTORS_64_JOEKUO6",
        DirectionVectorSet::ScrambledJoeKuo6_64.c_name() == "CURAND_SCRAMBLED_DIRECTION_VECTORS_64_JOEKUO6",
{
}

/// The C values and names of [`Method`], as the C header assigns them.
pub proof fn lemma_method_c_values()
    ensures
        Method::ChooseBest.raw_value() == 0,
        Method::Inversion.raw_value() == 1,
        Method::Knuth.raw_value() == 2,
        Method::HybridInversionRejection.raw_value() == 3,
        Method::M1.raw_value() == 4,
        Method::M2.raw_value() == 5,
        Method::BinarySearch.raw_value() == 6,
        Method::DiscreteGauss.raw_value() == 7,
        Method::Rejection.raw_value() == 8,
        Method::DeviceApi.raw_value() == 9,
        Method::FastRejection.raw_value() == 10,
        Method::Third.raw_value() == 11,
        Method::Definition.raw_value() == 12,
        Method::Poisson.raw_value() == 13,
        Method::ChooseBest.c_name() == "CURAND_CHOOSE_BEST",
        Method::Inversion.c_name() == "CURAND_ITR",
        Method::Knuth.c_name() == "CURAND_KNUTH",
        Method::HybridInversionRejection.c_name() == "CURAND_HITR",
        Method::M1.c_name() == "CURAND_M1",
        Method::M2.c_name() == "CURAND_M2",
        Method::BinarySearch.c_name() == "CURAND_BINARY_SEARCH",
        Method::DiscreteGauss.c_name() == "CURAND_DISCRETE_GAUSS",
        Method::Rejection.c_name() == "CURAND_REJECTION",
        Method::DeviceApi.c_name() == "CURAND_DEVICE_API",
        Method::FastRejection.c_name() == "CURAND_FAST_REJECTION",
        Method::Third.c_name() == "CURAND_3RD",
        Method::Definition.c_name() == "CURAND_DEFINITION",
        Method::Poisson.c_name() == "CURAND_POISSON",
{
}

/// The code, C name and message of every documented status, as cuRAND's header and
/// documentation give them; any other code is an `Unknown` status that keeps it.
pub proof fn lemma_status_codes_follow_header()
    ensures
        Status::Success.code() == 0,
        Status::of_code(0) == Status::Success,
        Status::Success.c_name() == Some("CURAND_STATUS_SUCCESS"),
        Status::Success.message_text() == "success",
        Status::VersionMismatch.code() == 100,
        Status::of_code(100) == Status::VersionMismatch,
        Status::VersionMismatch.c_name() == Some("CURAND_STATUS_VERSION_MISMATCH"),
        Status::VersionMismatch.message_text() == "version mismatch",
        Status::NotInitialized.code() == 101,
        Status::of_code(101) == Status::NotInitialized,
        Status::NotInitialized.c_name() == Some("CURAND_STATUS_NOT_INITIALIZED"),
        Status::NotInitialized.message_text() == "not initialized",
        Status::AllocationFailed.code() == 102,
        Status::of_code(102) == Status::AllocationFailed,
        Status::AllocationFailed.c_name() == Some("CURAND_STATUS_ALLOCATION_FAILED"),
        Status::AllocationFailed.message_text() == "allocation failed",
        Status::TypeError.code() == 103,
        Status::of_code(103) == Status::TypeError,
        Status::TypeError.c_name() == Some("CURAND_STATUS_TYPE_ERROR"),
        Status::TypeError.message_text() == "type error",
        Status::OutOfRange.code() == 104,
        Status::of_code(104) == Status::OutOfRange,
        Status::OutOfRange.c_name() == Some("CURAND_STATUS_OUT_OF_RANGE"),
        Status::OutOfRange.message_text() == "out of range",
        Status::LengthNotMultiple.code() == 105,
        Status::of_code(105) == Status::LengthNotMultiple,
        Status::LengthNotMultiple.c_name() == Some("CURAND_STATUS_LENGTH_NOT_MULTIPLE"),
        Status::LengthNotMultiple.message_text() == "length is not a multiple",
        Status::DoublePrecisionRequired.code() == 106,
        Status::of_code(106) == Status::DoublePrecisionRequired,
        Status::DoublePrecisionRequired.c_name() == Some("CURAND_STATUS_DOUBLE_PRECISION_REQUIRED"),
        Status::DoublePrecisionRequired.message_text() == "double precision required",
        Status::LaunchFailure.code() == 201,
        Status::of_code(201) == Status::LaunchFailure,
        Status::LaunchFailure.c_name() == Some("CURAND_STATUS_LAUNCH_FAILURE"),
        Status::LaunchFailure.message_text() == "launch failure",
        Status::PreexistingFailure.code() == 202,
        Status::of_code(202) == Status::PreexistingFailure,
        Status::PreexistingFailure.c_name() == Some("CURAND_STATUS_PREEXISTING_FAILURE"),
        Status::PreexistingFailure.message_text() == "preexisting failure",
        Status::InitializationFailed.code() == 203,
        Status::of_code(203) == Status::InitializationFailed,
        Status::InitializationFailed.c_name() == Some("CURAND_STATUS_INITIALIZATION_FAILED"),
        Status::InitializationFailed.message_text() == "initialization failed",
        Status::ArchitectureMismatch.code() == 204,
        Status::of_code(204) == Status::ArchitectureMismatch,
        Status::ArchitectureMismatch.c_name() == Some("CURAND_STATUS_ARCH_MISMATCH"),
        Status::ArchitectureMismatch.message_text() == "architecture mismatch",
        Status::InternalError.code() == 999,
        Status::of_code(999) == Status::InternalError,
        Status::InternalError.c_name() == Some("CURAND_STATUS_INTERNAL_ERROR"),
        Status::InternalError.message_text() == "internal error",
        forall|code: u32| code != 0 && code != 100 && code != 101 && code != 102 && code != 103 && code != 104 && code != 105 && code != 106 && code != 201 && code != 202 && code != 203 && code != 204 && code != 999 ==> Status::of_code(code) == Status::Unknown(code) && #[trigger] Status::Unknown(code).code() == code,
        forall|code: u32| #[trigger] Status::Unknown(code).message_text() == "unknown curand error",
{
}

} // verus!
