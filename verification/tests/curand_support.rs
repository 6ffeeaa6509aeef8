use singe::curand::distribution::DiscreteDistribution;
use singe::curand::error::{check_status, Error};
use singe::curand::generator::{Generator, GeneratorTarget};
use singe::curand::quasi::{
    DirectionVector32, DirectionVector64, DirectionVectorTable32, DirectionVectorTable64, ScrambleConstants32,
    ScrambleConstants64, MAX_QUASI_RANDOM_DIMENSIONS,
};
use singe::curand::types::{status_message, DirectionVectorSet, Method, RngOrdering, RngType, Status};
use singe::version::LibraryVersion;

#[test]
fn status_codes_round_trip() {
    for code in [0u32, 100, 101, 102, 103, 104, 105, 106, 201, 202, 203, 204, 999, 7, 1000] {
        assert_eq!(Status::from(code).raw(), code);
    }
    assert_eq!(Status::from(204), Status::ArchitectureMismatch);
    assert_eq!(Status::from(5), Status::Unknown(5));
}

#[test]
fn status_messages_and_names() {
    assert_eq!(status_message(Status::LengthNotMultiple), "length is not a multiple");
    assert_eq!(status_message(Status::ArchitectureMismatch), "architecture mismatch");
    assert_eq!(status_message(Status::Unknown(77)), "unknown curand error");
    assert_eq!(Status::InternalError.name(), Some("CURAND_STATUS_INTERNAL_ERROR"));
    assert_eq!(Status::Unknown(3).name(), None);
}

#[test]
fn status_checks_map_failures_to_errors() {
    assert!(check_status(0).is_ok());
    match check_status(101) {
        Err(Error::Curand { code, message }) => {
            assert_eq!(code, Status::NotInitialized);
            assert_eq!(message, "not initialized");
        }
        other => panic!("unexpected {other:?}"),
    }
}

#[test]
fn enums_carry_their_c_values() {
    assert_eq!(RngType::PseudoPhilox4_32_10.raw(), 161);
    assert_eq!(RngType::try_from_raw(203), Some(RngType::QuasiSobol64));
    assert_eq!(RngType::try_from_raw(1), None);
    assert_eq!(RngType::QuasiScrambledSobol32.name(), "CURAND_RNG_QUASI_SCRAMBLED_SOBOL32");
    assert_eq!(RngOrdering::QuasiDefault.raw(), 201);
    assert_eq!(RngOrdering::PseudoSeeded.name(), "CURAND_ORDERING_PSEUDO_SEEDED");
    assert_eq!(DirectionVectorSet::try_from_raw(104), Some(DirectionVectorSet::ScrambledJoeKuo6_64));
    assert_eq!(Method::Third.name(), "CURAND_3RD");
    assert_eq!(Method::Poisson.raw(), 13);
}

#[test]
fn distributions_and_generators_need_a_handle() {
    assert!(matches!(DiscreteDistribution::from_raw_handle(0), Err(Error::NullHandle)));
    assert_eq!(DiscreteDistribution::from_raw_handle(0x40).unwrap().as_raw(), 0x40);
    assert!(matches!(Generator::from_raw(0, GeneratorTarget::Host), Err(Error::NullHandle)));
}

#[test]
fn generators_keep_host_and_device_apart() {
    let host = Generator::from_raw(0x10, GeneratorTarget::Host).unwrap();
    assert!(host.check_host().is_ok());
    assert!(matches!(host.cuda_context(), Err(Error::NotDeviceGenerator)));
    assert!(matches!(host.check_stream(None), Err(Error::NotDeviceGenerator)));

    let device = Generator::from_raw(0x20, GeneratorTarget::Device { context: 0x99 }).unwrap();
    assert_eq!(device.as_raw(), 0x20);
    assert!(matches!(device.check_host(), Err(Error::NotHostGenerator)));
    assert_eq!(device.cuda_context().unwrap(), 0x99);
    assert_eq!(device.check_stream(Some(0x99)).unwrap(), 0x99);
    assert_eq!(device.check_stream(None).unwrap(), 0x99);
    assert!(matches!(device.check_stream(Some(0x98)), Err(Error::StreamContextMismatch)));
}

#[test]
fn wraps_direction_vector_tables() {
    let vectors32: &'static [DirectionVector32] =
        Box::leak(vec![DirectionVector32::new([5; 32]); MAX_QUASI_RANDOM_DIMENSIONS].into_boxed_slice());
    let vectors = DirectionVectorTable32::from_raw(Some(vectors32)).unwrap();
    assert_eq!(vectors.len(), MAX_QUASI_RANDOM_DIMENSIONS);
    assert_eq!(vectors.get(0).unwrap().as_slice().len(), DirectionVector32::WORDS);
    assert_eq!(vectors.get(0).unwrap().as_words()[3], 5);
    assert!(vectors.get(MAX_QUASI_RANDOM_DIMENSIONS).is_none());

    let vectors64: &'static [DirectionVector64] =
        Box::leak(vec![DirectionVector64::new([6; 64]); MAX_QUASI_RANDOM_DIMENSIONS].into_boxed_slice());
    let vectors = DirectionVectorTable64::from_raw(Some(vectors64)).unwrap();
    assert_eq!(vectors.len(), MAX_QUASI_RANDOM_DIMENSIONS);
    assert_eq!(vectors.as_slice()[0].as_slice().len(), DirectionVector64::WORDS);
    assert!(!vectors.is_empty());

    assert!(matches!(DirectionVectorTable32::from_raw(None), Err(Error::NullHandle)));
    assert!(matches!(DirectionVectorTable64::from_raw(None), Err(Error::NullHandle)));
}

#[test]
fn wraps_scramble_constant_tables() {
    let constants: &'static [u32] = Box::leak(vec![9u32; MAX_QUASI_RANDOM_DIMENSIONS].into_boxed_slice());
    let table = ScrambleConstants32::from_raw(Some(constants)).unwrap();
    assert_eq!(table.len(), MAX_QUASI_RANDOM_DIMENSIONS);
    assert!(!table.is_empty());
    assert!(table.as_slice().iter().all(|&c| c == 9));
    let constants: &'static [u64] = Box::leak(vec![7u64; MAX_QUASI_RANDOM_DIMENSIONS].into_boxed_slice());
    let table = ScrambleConstants64::from_raw(Some(constants)).unwrap();
    assert_eq!(table.len(), MAX_QUASI_RANDOM_DIMENSIONS);
    assert!(matches!(ScrambleConstants64::from_raw(None), Err(Error::NullHandle)));
}

#[test]
fn packed_versions_unpack_into_parts() {
    assert_eq!(LibraryVersion::from_packed(120304), LibraryVersion::new(12, 3, 4));
    assert_eq!(LibraryVersion::from_packed(10403), LibraryVersion { major: 1, minor: 4, patch: 3 });
}
