use singe::cupti::activity::record::{
    ActivityBranch, ActivityConfidentialComputeRotation, ActivityContext, ActivityCudaEvent,
    ActivityDeviceAttribute, ActivityDeviceAttributeKind, ActivityDeviceAttributeValue, ActivityEvent,
    ActivityEventInstance, ActivityExternalCorrelation, ActivityGlobalAccess, ActivityInstantaneousEvent,
    ActivityInstantaneousMetricInstance, ActivityInstructionExecution, ActivityMarkerData, ActivityMetric,
    ActivityMetricInstance, ActivityObjectId, ActivityPcSampling, ActivityPcSamplingRecordInfo, ActivityPreemption,
    ActivityRecord, ActivityRecordData, ActivitySharedAccess, ActivityUnifiedMemoryCounter,
    ActivityUnifiedMemoryCounterFlags, Dim3, MetricValueRaw, RawActivity, RawActivityObjectKindId, RawBranch,
    RawConfidentialComputeRotation, RawContext, RawCudaEvent, RawDeviceAttribute, RawEvent, RawEventInstance,
    RawExternalCorrelation, RawFunction, RawGlobalAccess, RawInstantaneousEvent, RawInstantaneousMetricInstance,
    RawInstructionExecution, RawMarker, RawMarkerData, RawMetric, RawMetricInstance, RawModule, RawName,
    RawPcSampling, RawPcSamplingRecordInfo, RawPreemption, RawSharedAccess, RawUnifiedMemoryCounter,
};
use singe::cupti::types::{
    ActivityComputeApiKind, ActivityFlags, ActivityKind, ActivityMarkerId, ActivityObjectKind,
    ActivityPcSamplingStallReason, ActivityPreemptionKind, ActivityUnifiedMemoryCounterKind,
    ActivityUnifiedMemoryMigrationCause, ChannelId, ChannelType, ConfidentialComputeRotationEventType,
    ContextCigMode, ContextId, CorrelationId, CudaDeviceAttribute, CudaEventId, CudaEventSyncId, CuptiDomainId,
    DeviceAttribute, DeviceId, EventDomainId, EventId, ExternalCorrelationId, ExternalCorrelationKind, FunctionId,
    GridId, MetricId, MetricValueKind, ModuleId, ProcessId, SourceLocatorId, StreamId, ThreadId,
    UnifiedMemoryProcessorId,
};

fn bytes(s: &str) -> Option<Vec<u8>> {
    Some(s.as_bytes().to_vec())
}

fn flags(bits: u32) -> ActivityFlags {
    ActivityFlags::from_bits_truncate(bits)
}

fn object_id(process_id: u32, thread_id: u32, device_id: u32, context_id: u32, stream_id: u32) -> RawActivityObjectKindId {
    RawActivityObjectKindId { process_id, thread_id, device_id, context_id, stream_id }
}

#[test]
fn activity_record_decodes_preemption_function_module_and_shared_records() {
    let preemption = RawPreemption {
        preemption_kind: ActivityPreemptionKind::Restore,
        timestamp: 1,
        grid_id: 2,
        block_x: 3,
        block_y: 4,
        block_z: 5,
    };
    let preemption_record = ActivityRecord::new(ActivityKind::Preemption, RawActivity::Preemption(preemption));
    let decoded_preemption = ActivityPreemption {
        preemption_kind: ActivityPreemptionKind::Restore,
        timestamp: 1,
        grid_id: GridId::from(2),
        block: Dim3 { x: 3, y: 4, z: 5 },
    };

    assert_eq!(preemption_record.clone().preemption(), Some(decoded_preemption));
    assert_eq!(preemption_record.decode(), ActivityRecordData::Preemption(decoded_preemption));

    let function = RawFunction { id: 6, context_id: 7, module_id: 8, function_index: 9, name: bytes("kernel") };
    let function_record = ActivityRecord::new(ActivityKind::Function, RawActivity::Function(function));
    let decoded_function = function_record.clone().function().unwrap();

    assert_eq!(decoded_function.id, FunctionId::from(6));
    assert_eq!(decoded_function.context_id, ContextId::from(7));
    assert_eq!(decoded_function.module_id, ModuleId::from(8));
    assert_eq!(decoded_function.function_index, 9);
    assert_eq!(decoded_function.name.as_deref(), Some("kernel".as_bytes()));
    assert!(matches!(function_record.decode(), ActivityRecordData::Function(_)));

    let cubin = [0xca, 0xfe, 0xba, 0xbe];
    let module = RawModule { context_id: 10, id: 11, cubin_size: cubin.len() as u32, cubin: Some(cubin.to_vec()) };
    let module_record = ActivityRecord::new(ActivityKind::Module, RawActivity::Module(module));
    let decoded_module = module_record.clone().module().unwrap();

    assert_eq!(decoded_module.context_id, ContextId::from(10));
    assert_eq!(decoded_module.id, ModuleId::from(11));
    assert_eq!(decoded_module.cubin.as_deref(), Some(cubin.as_slice()));
    assert!(matches!(module_record.decode(), ActivityRecordData::Module(_)));

    let shared = RawSharedAccess {
        flags: ActivityFlags::GLOBAL_ACCESS_KIND_CACHED,
        source_locator_id: 12,
        correlation_id: 13,
        function_id: 14,
        pc_offset: 15,
        threads_executed: 16,
        shared_transactions: 17,
        theoretical_shared_transactions: 18,
        executed: 19,
    };
    let shared_record = ActivityRecord::new(ActivityKind::SharedAccess, RawActivity::SharedAccess(shared));
    let decoded_shared = ActivitySharedAccess {
        flags: flags(ActivityFlags::GLOBAL_ACCESS_KIND_CACHED),
        source_locator_id: SourceLocatorId::from(12),
        correlation_id: CorrelationId::from(13),
        function_id: FunctionId::from(14),
        pc_offset: 15,
        threads_executed: 16,
        shared_transactions: 17,
        theoretical_shared_transactions: 18,
        executed: 19,
    };

    assert_eq!(shared_record.clone().shared_access(), Some(decoded_shared));
    assert_eq!(shared_record.decode(), ActivityRecordData::SharedAccess(decoded_shared));
}

#[test]
fn activity_record_decodes_confidential_compute_rotation_record() {
    let raw = RawConfidentialComputeRotation {
        event_type: ConfidentialComputeRotationEventType::ChannelDrained,
        device_id: 1,
        context_id: 2,
        channel_id: 3,
        channel_type: ChannelType::Decompress,
        timestamp: 4,
    };
    let record =
        ActivityRecord::new(ActivityKind::ConfidentialComputeRotation, RawActivity::ConfidentialComputeRotation(raw));
    let decoded = ActivityConfidentialComputeRotation {
        event_type: ConfidentialComputeRotationEventType::ChannelDrained,
        device_id: DeviceId::from(1),
        context_id: ContextId::from(2),
        channel_id: ChannelId::from(3),
        channel_type: ChannelType::Decompress,
        timestamp: 4,
    };

    assert_eq!(record.clone().confidential_compute_rotation(), Some(decoded));
    assert_eq!(record.decode(), ActivityRecordData::ConfidentialComputeRotation(decoded));
}

#[test]
fn activity_record_decodes_name_record() {
    let raw = RawName {
        object_kind: ActivityObjectKind::Stream,
        object_id: object_id(0, 0, 1, 2, 3),
        name: bytes("stream-name"),
    };
    let record = ActivityRecord::new(ActivityKind::Name, RawActivity::Name(raw));
    let decoded = record.clone().name().unwrap();

    assert_eq!(decoded.object_kind, ActivityObjectKind::Stream);
    assert_eq!(
        decoded.object_id,
        ActivityObjectId::Stream {
            device_id: DeviceId::from(1),
            context_id: ContextId::from(2),
            stream_id: StreamId::from(3u64),
        }
    );
    assert_eq!(decoded.name.as_deref(), Some("stream-name".as_bytes()));
    assert!(matches!(record.decode(), ActivityRecordData::Name(_)));
}

#[test]
fn activity_record_decodes_marker_record() {
    let raw = RawMarker {
        flags: ActivityFlags::MARKER_START,
        timestamp: 1,
        id: 2,
        object_kind: ActivityObjectKind::Thread,
        object_id: object_id(3, 4, 0, 0, 0),
        name: bytes("range"),
        domain: bytes("domain"),
    };
    let record = ActivityRecord::new(ActivityKind::Marker, RawActivity::Marker(raw));
    let decoded = record.clone().marker().unwrap();

    assert_eq!(decoded.flags, flags(ActivityFlags::MARKER_START));
    assert_eq!(decoded.timestamp, 1);
    assert_eq!(decoded.id, ActivityMarkerId::from(2));
    assert_eq!(decoded.object_kind, ActivityObjectKind::Thread);
    assert_eq!(
        decoded.object_id,
        ActivityObjectId::Thread { process_id: ProcessId::from(3u64), thread_id: ThreadId::from(4) }
    );
    assert_eq!(decoded.name.as_deref(), Some("range".as_bytes()));
    assert_eq!(decoded.domain.as_deref(), Some("domain".as_bytes()));
    assert!(matches!(record.decode(), ActivityRecordData::Marker(_)));
}

#[test]
fn activity_record_decodes_external_correlation_record() {
    let raw = RawExternalCorrelation { external_kind: ExternalCorrelationKind::Custom0, external_id: 1, correlation_id: 2 };
    let record = ActivityRecord::new(ActivityKind::ExternalCorrelation, RawActivity::ExternalCorrelation(raw));
    let decoded = ActivityExternalCorrelation {
        external_kind: ExternalCorrelationKind::Custom0,
        external_id: ExternalCorrelationId::from(1),
        correlation_id: CorrelationId::from(2),
    };

    assert_eq!(record.clone().external_correlation(), Some(decoded));
    assert_eq!(record.decode(), ActivityRecordData::ExternalCorrelation(decoded));
}

#[test]
fn activity_record_decodes_marker_data_record() {
    let raw = RawMarkerData {
        flags: ActivityFlags::MARKER_END,
        id: 1,
        payload_kind: MetricValueKind::Uint64,
        payload: 2,
        color: 3,
        category: 4,
        cupti_domain_id: 5,
    };
    let record = ActivityRecord::new(ActivityKind::MarkerData, RawActivity::MarkerData(raw));
    let decoded = ActivityMarkerData {
        flags: flags(ActivityFlags::MARKER_END),
        id: ActivityMarkerId::from(1),
        payload_kind: MetricValueKind::Uint64,
        payload: MetricValueRaw::from_bits(2),
        color: 3,
        category: 4,
        cupti_domain_id: CuptiDomainId::from(5),
    };

    assert_eq!(decoded.payload.to_bits(), 2);
    assert_eq!(record.clone().marker_data(), Some(decoded));
    assert_eq!(record.decode(), ActivityRecordData::MarkerData(decoded));
}

#[test]
fn activity_record_decodes_cuda_event_record() {
    let raw = RawCudaEvent {
        correlation_id: 1,
        context_id: 2,
        stream_id: 3,
        event_id: 4,
        device_id: 5,
        device_timestamp: 6,
        cuda_event_sync_id: 7,
    };
    let record = ActivityRecord::new(ActivityKind::CudaEvent, RawActivity::CudaEvent(raw));
    let decoded = ActivityCudaEvent {
        correlation_id: CorrelationId::from(1),
        context_id: ContextId::from(2),
        stream_id: StreamId::from(3u64),
        event_id: CudaEventId::from(4),
        device_id: DeviceId::from(5),
        device_timestamp: 6,
        cuda_event_sync_id: CudaEventSyncId::from(7),
    };

    assert_eq!(record.clone().cuda_event(), Some(decoded));
    assert_eq!(record.decode(), ActivityRecordData::CudaEvent(decoded));
}

#[test]
fn activity_record_decodes_context_record() {
    let raw = RawContext {
        context_id: 1,
        device_id: 2,
        compute_api_kind: 2,
        null_stream_id: 3,
        parent_context_id: 4,
        is_green_context: 1,
        num_multiprocessors: 5,
        cig_mode: ContextCigMode::CigFallback,
        process_id: 6,
    };
    let record = ActivityRecord::new(ActivityKind::Context, RawActivity::Context(raw));
    let decoded = ActivityContext {
        context_id: ContextId::from(1),
        device_id: DeviceId::from(2),
        compute_api_kind: ActivityComputeApiKind::CudaMultiProcessService,
        null_stream_id: StreamId::from(3u64),
        parent_context_id: ContextId::from(4),
        is_green_context: true,
        num_multiprocessors: 5,
        cig_mode: ContextCigMode::CigFallback,
        process_id: ProcessId::from(6u64),
    };

    assert_eq!(record.clone().context(), Some(decoded));
    assert_eq!(record.decode(), ActivityRecordData::Context(decoded));
}

#[test]
fn activity_record_decodes_event_record() {
    let raw = RawEvent { id: 1, value: 2, domain_id: 3, correlation_id: 4 };
    let record = ActivityRecord::new(ActivityKind::Event, RawActivity::Event(raw));
    let decoded = ActivityEvent {
        id: EventId::from(1),
        value: 2,
        domain_id: EventDomainId::from(3),
        correlation_id: CorrelationId::from(4),
    };

    assert_eq!(record.clone().event(), Some(decoded));
    assert_eq!(record.decode(), ActivityRecordData::Event(decoded));
}

#[test]
fn activity_record_decodes_event_instance_record() {
    let raw = RawEventInstance { id: 1, domain_id: 2, instance: 3, value: 4, correlation_id: 5 };
    let record = ActivityRecord::new(ActivityKind::EventInstance, RawActivity::EventInstance(raw));
    let decoded = ActivityEventInstance {
        id: EventId::from(1),
        domain_id: EventDomainId::from(2),
        instance: 3,
        value: 4,
        correlation_id: CorrelationId::from(5),
    };

    assert_eq!(record.clone().event_instance(), Some(decoded));
    assert_eq!(record.decode(), ActivityRecordData::EventInstance(decoded));
}

#[test]
fn activity_record_decodes_metric_record() {
    let raw = RawMetric { id: 1, value: 2, correlation_id: 3, flags: ActivityFlags::MARKER_START };
    let record = ActivityRecord::new(ActivityKind::Metric, RawActivity::Metric(raw));
    let decoded = ActivityMetric {
        id: MetricId::from(1),
        value: MetricValueRaw::from_bits(2),
        correlation_id: CorrelationId::from(3),
        flags: flags(ActivityFlags::MARKER_START),
    };

    assert_eq!(decoded.value.to_bits(), 2);
    assert_eq!(record.clone().metric(), Some(decoded));
    assert_eq!(record.decode(), ActivityRecordData::Metric(decoded));
}

#[test]
fn activity_record_decodes_metric_instance_record() {
    let raw = RawMetricInstance { id: 1, value: (-2i64) as u64, instance: 3, correlation_id: 4, flags: 0 };
    let record = ActivityRecord::new(ActivityKind::MetricInstance, RawActivity::MetricInstance(raw));
    let decoded = ActivityMetricInstance {
        id: MetricId::from(1),
        value: MetricValueRaw::from_bits((-2i64) as u64),
        instance: 3,
        correlation_id: CorrelationId::from(4),
        flags: ActivityFlags::empty(),
    };

    assert_eq!(decoded.value.to_bits() as i64, -2);
    assert_eq!(record.clone().metric_instance(), Some(decoded));
    assert_eq!(record.decode(), ActivityRecordData::MetricInstance(decoded));
}

#[test]
fn activity_record_decodes_instantaneous_records() {
    let event = RawInstantaneousEvent { id: 1, value: 2, timestamp: 3, device_id: 4 };
    let event_record = ActivityRecord::new(ActivityKind::InstantaneousEvent, RawActivity::InstantaneousEvent(event));
    let decoded_event =
        ActivityInstantaneousEvent { id: EventId::from(1), value: 2, timestamp: 3, device_id: DeviceId::from(4) };

    assert_eq!(event_record.clone().instantaneous_event(), Some(decoded_event));
    assert_eq!(event_record.decode(), ActivityRecordData::InstantaneousEvent(decoded_event));

    let metric = RawInstantaneousMetricInstance { id: 5, value: 6, timestamp: 7, device_id: 8, flags: 0, instance: 9 };
    let metric_record = ActivityRecord::new(
        ActivityKind::InstantaneousMetricInstance,
        RawActivity::InstantaneousMetricInstance(metric),
    );
    let decoded_metric = ActivityInstantaneousMetricInstance {
        id: MetricId::from(5),
        value: MetricValueRaw::from_bits(6),
        timestamp: 7,
        device_id: DeviceId::from(8),
        flags: ActivityFlags::empty(),
        instance: 9,
    };

    assert_eq!(decoded_metric.value.to_bits(), 6);
    assert_eq!(metric_record.clone().instantaneous_metric_instance(), Some(decoded_metric));
    assert_eq!(metric_record.decode(), ActivityRecordData::InstantaneousMetricInstance(decoded_metric));
}

#[test]
fn activity_record_decodes_source_level_records() {
    let global = RawGlobalAccess {
        flags: ActivityFlags::GLOBAL_ACCESS_KIND_LOAD,
        source_locator_id: 1,
        correlation_id: 2,
        function_id: 3,
        executed: 4,
        pc_offset: 5,
        threads_executed: 6,
        l2_transactions: 7,
        theoretical_l2_transactions: 8,
    };
    let global_record = ActivityRecord::new(ActivityKind::GlobalAccess, RawActivity::GlobalAccess(global));
    let decoded_global = ActivityGlobalAccess {
        flags: flags(ActivityFlags::GLOBAL_ACCESS_KIND_LOAD),
        source_locator_id: SourceLocatorId::from(1),
        correlation_id: CorrelationId::from(2),
        function_id: FunctionId::from(3),
        executed: 4,
        pc_offset: 5,
        threads_executed: 6,
        l2_transactions: 7,
        theoretical_l2_transactions: 8,
    };

    assert_eq!(global_record.clone().global_access(), Some(decoded_global));
    assert_eq!(global_record.decode(), ActivityRecordData::GlobalAccess(decoded_global));

    let branch = RawBranch {
        source_locator_id: 9,
        correlation_id: 10,
        function_id: 11,
        pc_offset: 12,
        diverged: 13,
        threads_executed: 14,
        executed: 15,
    };
    let branch_record = ActivityRecord::new(ActivityKind::Branch, RawActivity::Branch(branch));
    let decoded_branch = ActivityBranch {
        source_locator_id: SourceLocatorId::from(9),
        correlation_id: CorrelationId::from(10),
        function_id: FunctionId::from(11),
        pc_offset: 12,
        diverged: 13,
        threads_executed: 14,
        executed: 15,
    };

    assert_eq!(branch_record.clone().branch(), Some(decoded_branch));
    assert_eq!(branch_record.decode(), ActivityRecordData::Branch(decoded_branch));
}

#[test]
fn activity_record_decodes_sampling_and_unified_memory_records() {
    let instruction = RawInstructionExecution {
        flags: ActivityFlags::INSTRUCTION_CLASS_MASK,
        source_locator_id: 1,
        correlation_id: 2,
        function_id: 3,
        pc_offset: 4,
        threads_executed: 5,
        not_predicated_off_threads_executed: 6,
        executed: 7,
    };
    let instruction_record =
        ActivityRecord::new(ActivityKind::InstructionExecution, RawActivity::InstructionExecution(instruction));
    let decoded_instruction = ActivityInstructionExecution {
        flags: flags(ActivityFlags::INSTRUCTION_CLASS_MASK),
        source_locator_id: SourceLocatorId::from(1),
        correlation_id: CorrelationId::from(2),
        function_id: FunctionId::from(3),
        pc_offset: 4,
        threads_executed: 5,
        not_predicated_off_threads_executed: 6,
        executed: 7,
    };

    assert_eq!(instruction_record.clone().instruction_execution(), Some(decoded_instruction));
    assert_eq!(instruction_record.decode(), ActivityRecordData::InstructionExecution(decoded_instruction));

    let sampling = RawPcSampling {
        flags: ActivityFlags::NONE,
        source_locator_id: 8,
        correlation_id: 9,
        function_id: 10,
        latency_samples: 11,
        samples: 12,
        stall_reason: ActivityPcSamplingStallReason::MemoryDependency,
        pc_offset: 13,
    };
    let sampling_record = ActivityRecord::new(ActivityKind::PcSampling, RawActivity::PcSampling(sampling));
    let decoded_sampling = ActivityPcSampling {
        flags: ActivityFlags::empty(),
        source_locator_id: SourceLocatorId::from(8),
        correlation_id: CorrelationId::from(9),
        function_id: FunctionId::from(10),
        latency_samples: 11,
        samples: 12,
        stall_reason: ActivityPcSamplingStallReason::MemoryDependency,
        pc_offset: 13,
    };

    assert_eq!(sampling_record.clone().pc_sampling(), Some(decoded_sampling));
    assert_eq!(sampling_record.decode(), ActivityRecordData::PcSampling(decoded_sampling));

    let info = RawPcSamplingRecordInfo { correlation_id: 14, total_samples: 15, dropped_samples: 16, sampling_period_in_cycles: 17 };
    let info_record = ActivityRecord::new(ActivityKind::PcSamplingRecordInfo, RawActivity::PcSamplingRecordInfo(info));
    let decoded_info = ActivityPcSamplingRecordInfo {
        correlation_id: CorrelationId::from(14),
        total_samples: 15,
        dropped_samples: 16,
        sampling_period_in_cycles: 17,
    };

    assert_eq!(info_record.clone().pc_sampling_record_info(), Some(decoded_info));
    assert_eq!(info_record.decode(), ActivityRecordData::PcSamplingRecordInfo(decoded_info));

    let unified = RawUnifiedMemoryCounter {
        counter_kind: ActivityUnifiedMemoryCounterKind::BytesTransferHostToDevice,
        value: 18,
        start: 19,
        end: 20,
        address: 21,
        src_id: 22,
        dst_id: 23,
        stream_id: 24,
        process_id: 25,
        flags: 1,
        processors: [27, 28, 29, 30, 31],
    };
    let unified_record =
        ActivityRecord::new(ActivityKind::UnifiedMemoryCounter, RawActivity::UnifiedMemoryCounter(unified));
    let decoded_unified = ActivityUnifiedMemoryCounter {
        counter_kind: ActivityUnifiedMemoryCounterKind::BytesTransferHostToDevice,
        value: 18,
        start: 19,
        end: 20,
        address: 21,
        source_id: UnifiedMemoryProcessorId::from(22),
        destination_id: UnifiedMemoryProcessorId::from(23),
        stream_id: StreamId::from(24u64),
        process_id: ProcessId::from(25u64),
        flags: ActivityUnifiedMemoryCounterFlags::MigrationCause(ActivityUnifiedMemoryMigrationCause::User),
        processors: [27, 28, 29, 30, 31],
    };

    assert_eq!(unified_record.clone().unified_memory_counter(), Some(decoded_unified));
    assert_eq!(unified_record.decode(), ActivityRecordData::UnifiedMemoryCounter(decoded_unified));
}

#[test]
fn activity_record_decodes_device_attribute_records() {
    let cupti = RawDeviceAttribute {
        flags: ActivityFlags::NONE,
        device_id: 1,
        attribute_cu: 0,
        attribute_cupti: DeviceAttribute::MaxEventId,
        value: 2,
    };
    let cupti_record = ActivityRecord::new(ActivityKind::DeviceAttribute, RawActivity::DeviceAttribute(cupti));
    let decoded_cupti = ActivityDeviceAttribute {
        flags: ActivityFlags::empty(),
        device_id: DeviceId::from(1),
        attribute: ActivityDeviceAttributeKind::Cupti(DeviceAttribute::MaxEventId),
        value: ActivityDeviceAttributeValue::from_bits(2),
    };

    assert_eq!(decoded_cupti.value.as_u64(), 2);
    assert_eq!(cupti_record.clone().device_attribute(), Some(decoded_cupti));
    assert_eq!(cupti_record.decode(), ActivityRecordData::DeviceAttribute(decoded_cupti));

    let cuda = RawDeviceAttribute {
        flags: ActivityFlags::DEVICE_ATTRIBUTE_CUDEVICE,
        device_id: 3,
        attribute_cu: 1,
        attribute_cupti: DeviceAttribute::MaxEventId,
        value: (-4i64) as u64,
    };
    let cuda_record = ActivityRecord::new(ActivityKind::DeviceAttribute, RawActivity::DeviceAttribute(cuda));
    let decoded_cuda = cuda_record.clone().device_attribute().unwrap();

    assert_eq!(decoded_cuda.flags, flags(ActivityFlags::DEVICE_ATTRIBUTE_CUDEVICE));
    assert_eq!(decoded_cuda.device_id, DeviceId::from(3));
    assert_eq!(decoded_cuda.attribute, ActivityDeviceAttributeKind::Cuda(CudaDeviceAttribute::from(1u32)));
    assert_eq!(decoded_cuda.value.as_i64(), -4);
    assert!(matches!(cuda_record.decode(), ActivityRecordData::DeviceAttribute(_)));
}
