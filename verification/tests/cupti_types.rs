use singe::cupti::activity::record::{MetricValueBits, MetricValueRaw};
use singe::cupti::activity::{enabled_kinds_from_query, unified_memory_counter_raw_configs, ActivityFlushTarget};
use singe::cupti::callback::supported_domains_from_table;
use singe::cupti::error::{Error, Status};
use singe::cupti::event::{event_ids_to_raw, metric_input_sizes, metric_property_ids_to_raw};
use singe::cupti::types::{
    ActivityFlags, ActivityInstructionClass, ActivityKind, ActivityPcSamplingConfig, ActivityPcSamplingPeriod,
    ActivityUnifiedMemoryCounterConfig, ActivityUnifiedMemoryCounterKind, ActivityUnifiedMemoryCounterScope,
    CallbackDomain, CallbackIdResource, CallbackIdState, CallbackIdSync, DeviceId, DeviceVirtualizationMode, EventCollectionMode,
    EventId, MetricPropertyDeviceClass, MetricValueKind, MetricPropertyId, MetricValueUtilizationLevel, MultipleSubscriberState,
    ReadEventFlags, StreamId, PC_SAMPLING_CONFIG_SIZE,
};
use singe::cupti::utility::{checked_byte_len, to_u32};

#[test]
fn cupti_status_codes_round_trip() {
    for code in 0u32..=47 {
        let status = Status::try_from_raw(code).unwrap();
        assert_eq!(status.raw(), code);
    }
    assert_eq!(Status::try_from_raw(999), Some(Status::Unknown));
    assert_eq!(Status::try_from_raw(0x7fff_ffff), Some(Status::ForceInt));
    assert_eq!(Status::try_from_raw(48), None);
    assert_eq!(Status::try_from_raw(1000), None);
}

#[test]
fn status_names_follow_cupti_headers() {
    assert_eq!(Status::Success.name(), "CUPTI_SUCCESS");
    assert_eq!(Status::InvalidParameter.name(), "CUPTI_ERROR_INVALID_PARAMETER");
    assert_eq!(Status::Unknown.name(), "CUPTI_ERROR_UNKNOWN");
}

#[test]
fn status_description_drops_prefix_and_lowers_case() {
    assert_eq!(Status::InvalidParameter.description(), "invalid parameter");
    assert_eq!(Status::Success.description(), "success");
    assert_eq!(Status::Unknown.description(), "unknown");
    assert_eq!(
        Status::UnifiedMemoryProfilingNotSupported.description(),
        "um profiling not supported"
    );
    assert_eq!(Status::CudaDynamicParallelismTracingNotSupported.description(), "cdp tracing not supported");
}

#[test]
fn activity_kinds_round_trip() {
    for value in 0u32..=60 {
        let kind = ActivityKind::try_from_raw(value).unwrap();
        assert_eq!(kind.raw(), value);
    }
    assert_eq!(ActivityKind::try_from_raw(61), None);
    assert_eq!(ActivityKind::try_from_raw(0x7fff_ffff), Some(ActivityKind::ForceInt));
    assert_eq!(ActivityKind::Kernel.name(), "CUPTI_ACTIVITY_KIND_KERNEL");
    assert_eq!(ActivityKind::PeerMemoryCopy.name(), "CUPTI_ACTIVITY_KIND_MEMCPY2");
}

#[test]
fn subscriber_state_bytes_round_trip() {
    for byte in 0u8..=255 {
        let state = MultipleSubscriberState::from(byte);
        assert_eq!(u8::from(state), byte);
    }
    assert_eq!(MultipleSubscriberState::from(1u8), MultipleSubscriberState::Enabled);
    assert_eq!(MultipleSubscriberState::from(7u8), MultipleSubscriberState::Unknown(7));
}

#[test]
fn activity_flags_truncate_unknown_bits() {
    let flags = ActivityFlags::from_bits_truncate(0xffff_ffff);
    assert_eq!(flags.bits(), 0x3ff);
    assert!(flags.contains(ActivityFlags::MARKER_START | ActivityFlags::MARKER_END));
    assert!(ActivityFlags::from_bits(0x400).is_none());
    assert_eq!(ActivityFlags::from_bits(0x6).unwrap().bits(), 0x6);
    assert!(ActivityFlags::empty().is_empty());
}

#[test]
fn checked_integer_conversions() {
    assert_eq!(checked_byte_len::<u64>(3, "len").unwrap(), 24);
    match checked_byte_len::<u64>(usize::MAX, "values") {
        Err(Error::OutOfRange { name }) => assert_eq!(name, "values"),
        other => panic!("unexpected {other:?}"),
    }
    assert_eq!(to_u32(7, "x").unwrap(), 7);
    match to_u32(u64::from(u32::MAX) + 1, "count") {
        Err(Error::OutOfRange { name }) => assert_eq!(name, "count"),
        other => panic!("unexpected {other:?}"),
    }
}

#[test]
fn flush_targets_name_their_context_and_stream() {
    assert_eq!(ActivityFlushTarget::Global.context_and_stream_id().unwrap(), (0, 0));
    assert_eq!(ActivityFlushTarget::Context(0x1000).context_and_stream_id().unwrap(), (0x1000, 0));
    let stream = ActivityFlushTarget::Stream { context: 0x1000, stream_id: StreamId::from(9u64) };
    assert_eq!(stream.context_and_stream_id().unwrap(), (0x1000, 9));
    let wide = ActivityFlushTarget::Stream { context: 0x1000, stream_id: StreamId::from(1u64 << 32) };
    match wide.context_and_stream_id() {
        Err(Error::OutOfRange { name }) => assert_eq!(name, "stream_id"),
        other => panic!("unexpected {other:?}"),
    }
    assert_eq!(ActivityFlushTarget::Global.name(), "global");
    assert_eq!(ActivityFlushTarget::Context(1).name(), "context");
    assert_eq!(stream.name(), "stream");
}

#[test]
fn pc_sampling_config_to_raw() {
    let config = ActivityPcSamplingConfig::new(ActivityPcSamplingPeriod::Mid);
    assert_eq!(config.sampling_period2, 0);
    let raw = config.to_raw();
    assert_eq!(raw.size, PC_SAMPLING_CONFIG_SIZE);
    assert_eq!(raw.sampling_period, 3);
    assert_eq!(raw.sampling_period2, 0);
}

#[test]
fn unified_memory_counter_configs_to_raw() {
    let config = ActivityUnifiedMemoryCounterConfig::new(ActivityUnifiedMemoryCounterKind::GpuPageFault, true);
    assert_eq!(config.scope, ActivityUnifiedMemoryCounterScope::ProcessAllDevices);
    assert_eq!(config.device_id, DeviceId::from(0u32));
    let raw = config.to_raw();
    assert_eq!((raw.scope, raw.kind, raw.device_id, raw.enable), (2, 4, 0, 1));

    let disabled = ActivityUnifiedMemoryCounterConfig {
        scope: ActivityUnifiedMemoryCounterScope::ProcessSingleDevice,
        kind: ActivityUnifiedMemoryCounterKind::BytesTransferDeviceToDevice,
        device_id: DeviceId::from(3u32),
        enable: false,
    };
    let (count, raws) = unified_memory_counter_raw_configs(&[config, disabled]).unwrap();
    assert_eq!(count, 2);
    assert_eq!(raws.len(), 2);
    assert_eq!(raws[0], raw);
    assert_eq!((raws[1].scope, raws[1].kind, raws[1].device_id, raws[1].enable), (1, 8, 3, 0));
}

#[test]
fn metric_inputs_are_sized_in_bytes() {
    assert_eq!(metric_input_sizes(3, 2, "ids", "values").unwrap(), (12, 16));
    assert_eq!(metric_input_sizes(0, 0, "ids", "values").unwrap(), (0, 0));
    match metric_input_sizes(usize::MAX, 1, "ids", "values") {
        Err(Error::OutOfRange { name }) => assert_eq!(name, "ids"),
        other => panic!("unexpected {other:?}"),
    }
    match metric_input_sizes(1, usize::MAX, "ids", "values") {
        Err(Error::OutOfRange { name }) => assert_eq!(name, "values"),
        other => panic!("unexpected {other:?}"),
    }
    assert_eq!(event_ids_to_raw(&[EventId::from(4u32), EventId::from(9u32)]), vec![4, 9]);
    assert_eq!(
        metric_property_ids_to_raw(&[MetricPropertyId::ClockRate, MetricPropertyId::GpuCentralProcessingUnitNvLinkBandwidth]),
        vec![3, 15]
    );
}

#[test]
fn small_enums_decode_their_values() {
    assert_eq!(EventCollectionMode::try_from_raw(1), Some(EventCollectionMode::Kernel));
    assert_eq!(ReadEventFlags::NoFlags.raw(), 0);
    assert_eq!(CallbackIdResource::try_from_raw(6), Some(CallbackIdResource::ModuleLoaded));
    assert_eq!(CallbackIdResource::StreamCreated.name(), "CUPTI_CBID_RESOURCE_STREAM_CREATED");
    assert_eq!(CallbackIdSync::ContextSynchronized.raw(), 2);
    assert_eq!(CallbackIdState::try_from_raw(3), Some(CallbackIdState::Warning));
    assert_eq!(DeviceVirtualizationMode::try_from_raw(2), Some(DeviceVirtualizationMode::VirtualGpu));
    assert_eq!(ActivityInstructionClass::try_from_raw(19), Some(ActivityInstructionClass::Float16));
    assert_eq!(MetricValueUtilizationLevel::try_from_raw(5), Some(MetricValueUtilizationLevel::Mid));
    assert_eq!(MetricValueUtilizationLevel::try_from_raw(1), None);
    assert_eq!(MetricPropertyDeviceClass::Tegra.raw(), 3);
}

#[test]
fn c_strings_refuse_interior_nul() {
    assert_eq!(singe::cupti::utility::c_string_bytes("sm__cycles").unwrap(), b"sm__cycles".to_vec());
    assert!(matches!(singe::cupti::utility::c_string_bytes("bad\0name"), Err(Error::InteriorNul)));
    assert_eq!(singe::cupti::utility::c_string_bytes("").unwrap(), Vec::<u8>::new());
}

#[test]
fn supported_domains_decode_reported_table() {
    assert!(supported_domains_from_table(0, false, &[1, 2]).is_empty());
    assert!(supported_domains_from_table(2, true, &[]).is_empty());
    assert_eq!(
        supported_domains_from_table(3, false, &[1, 3, 99, 6]),
        vec![CallbackDomain::DriverApi, CallbackDomain::Resource, CallbackDomain::Invalid]
    );
    assert_eq!(CallbackDomain::Nvtx.raw(), 5);
}

#[test]
fn enabled_kinds_are_cut_to_reported_count() {
    assert_eq!(
        enabled_kinds_from_query(vec![3, 10, 37], 2),
        vec![ActivityKind::Kernel, ActivityKind::ConcurrentKernel]
    );
    assert_eq!(enabled_kinds_from_query(vec![1, 1000], 5), vec![ActivityKind::MemoryCopy, ActivityKind::Invalid]);
    assert!(enabled_kinds_from_query(vec![], 0).is_empty());
}

#[test]
fn metric_value_bits_follow_value_kind() {
    let raw = MetricValueRaw::from_bits(1.5f64.to_bits());
    assert_eq!(raw.value_as(MetricValueKind::Double), MetricValueBits::Double(1.5f64.to_bits()));
    let raw = MetricValueRaw::from_bits(u64::MAX);
    assert_eq!(raw.value_as(MetricValueKind::Int64), MetricValueBits::Int64(-1));
    assert_eq!(raw.value_as(MetricValueKind::ForceInt), MetricValueBits::Uint64(u64::MAX));
    let raw = MetricValueRaw::from_bits(0xdead_0000_0000_0005);
    assert_eq!(
        raw.value_as(MetricValueKind::UtilizationLevel),
        MetricValueBits::UtilizationLevel(MetricValueUtilizationLevel::Mid)
    );
    let raw = MetricValueRaw::from_bits(7);
    assert_eq!(
        raw.value_as(MetricValueKind::UtilizationLevel),
        MetricValueBits::UtilizationLevel(MetricValueUtilizationLevel::ForceInt)
    );
}
