use singe::cupti::activity::record::{
    ActivityEnvironment, ActivityEnvironmentData, ActivityEnvironmentPower, ActivityEnvironmentSpeed,
    ActivityInstructionCorrelation, ActivityJit, ActivityMemoryCopy, ActivityMemorySet, ActivityNpuId,
    ActivityObjectId, ActivityOpenMultiProcessing, ActivityOverhead, ActivityPcie, ActivityPcieAttributes,
    ActivityPcieBridgeAttributes, ActivityPcieDeviceId, ActivityPcieGpuAttributes, ActivityRecord,
    ActivityRecordData, ActivityTopologyDeviceId, Dim3, RawActivity, RawActivityObjectKindId, RawDevice,
    RawEnvironment, RawInstructionCorrelation, RawJit, RawMemoryCopy, RawMemorySet, RawNvLink, RawOpenAccBase,
    RawOpenAccData, RawOpenAccLaunch, RawOpenAccOther, RawOpenMultiProcessing, RawOverhead, RawPcie,
    RawSourceLocator, RawTopologyDeviceId,
};
use singe::cupti::types::{
    ActivityEnvironmentKind, ActivityFlags, ActivityJitEntryType, ActivityJitOperationType, ActivityKind,
    ActivityMemoryCopyKind, ActivityMemoryKind, ActivityObjectKind, ActivityOverheadKind, ChannelId, ChannelType,
    ContextId, CorrelationId, CudaDevice, DeviceId, DeviceType, EnvironmentClocksThrottleReasons,
    ExternalCorrelationId, FunctionId, GraphId, GraphNodeId, JitOperationCorrelationId, LinkFlags, NpuDomainId,
    OpenAccConstructKind, OpenAccEventKind, OpenMultiProcessingEventKind, PcieBridgeId, PcieBusId, PcieDeviceType,
    PcieDomainId, PcieHardwareDeviceId, PcieVendorId, ProcessId, SourceLocatorId, StreamId, ThreadId,
};

fn bytes(s: &str) -> Option<Vec<u8>> {
    Some(s.as_bytes().to_vec())
}

fn raw_environment(device_id: u32, timestamp: u64, kind: ActivityEnvironmentKind) -> RawEnvironment {
    RawEnvironment {
        device_id,
        timestamp,
        environment_kind: kind,
        sm_clock: 0,
        memory_clock: 0,
        pcie_link_gen: 0,
        pcie_link_width: 0,
        clocks_throttle_reasons: 0,
        gpu_temperature: 0,
        power: 0,
        power_limit: 0,
        fan_speed: 0,
    }
}

#[test]
fn activity_record_decodes_environment_records() {
    let mut speed = raw_environment(1, 2, ActivityEnvironmentKind::Speed);
    speed.sm_clock = 3;
    speed.memory_clock = 4;
    speed.pcie_link_gen = 5;
    speed.pcie_link_width = 6;
    speed.clocks_throttle_reasons = EnvironmentClocksThrottleReasons::SOFTWARE_POWER_CAP;
    let speed_record = ActivityRecord::new(ActivityKind::Environment, RawActivity::Environment(speed));
    let decoded_speed = ActivityEnvironment {
        device_id: DeviceId::from(1),
        timestamp: 2,
        environment_kind: ActivityEnvironmentKind::Speed,
        data: ActivityEnvironmentData::Speed(ActivityEnvironmentSpeed {
            sm_clock: 3,
            memory_clock: 4,
            pcie_link_gen: 5,
            pcie_link_width: 6,
            clocks_throttle_reasons: EnvironmentClocksThrottleReasons::from_bits_truncate(
                EnvironmentClocksThrottleReasons::SOFTWARE_POWER_CAP,
            ),
        }),
    };

    assert_eq!(speed_record.clone().environment(), Some(decoded_speed));
    assert_eq!(speed_record.decode(), ActivityRecordData::Environment(decoded_speed));

    let mut power = raw_environment(7, 8, ActivityEnvironmentKind::Power);
    power.power = 9;
    power.power_limit = 10;
    let power_record = ActivityRecord::new(ActivityKind::Environment, RawActivity::Environment(power));
    let decoded_power = ActivityEnvironment {
        device_id: DeviceId::from(7),
        timestamp: 8,
        environment_kind: ActivityEnvironmentKind::Power,
        data: ActivityEnvironmentData::Power(ActivityEnvironmentPower { power: 9, power_limit: 10 }),
    };

    assert_eq!(power_record.clone().environment(), Some(decoded_power));
    assert_eq!(power_record.decode(), ActivityRecordData::Environment(decoded_power));
}

#[test]
fn activity_record_decodes_device_record() {
    let raw = RawDevice {
        flags: ActivityFlags::NONE,
        global_memory_bandwidth: 1,
        global_memory_size: 2,
        constant_memory_size: 3,
        l2_cache_size: 4,
        num_threads_per_warp: 5,
        core_clock_rate: 6,
        num_memory_copy_engines: 7,
        num_multiprocessors: 8,
        max_instructions_per_cycle: 9,
        max_warps_per_multiprocessor: 10,
        max_blocks_per_multiprocessor: 11,
        max_shared_memory_per_multiprocessor: 12,
        max_registers_per_multiprocessor: 13,
        max_registers_per_block: 14,
        max_shared_memory_per_block: 15,
        max_threads_per_block: 16,
        max_block_dim_x: 17,
        max_block_dim_y: 18,
        max_block_dim_z: 19,
        max_grid_dim_x: 20,
        max_grid_dim_y: 21,
        max_grid_dim_z: 22,
        compute_capability_major: 23,
        compute_capability_minor: 24,
        device_id: 25,
        ecc_enabled: 1,
        uuid: [1; 16],
        name: bytes("gpu"),
        is_cuda_visible: 1,
        is_mig_enabled: 1,
        gpu_instance_id: 26,
        compute_instance_id: 27,
        mig_uuid: [2; 16],
        is_non_uniform_memory_access_node: 1,
        non_uniform_memory_access_id: 28,
        num_tpcs: 29,
    };
    let record = ActivityRecord::new(ActivityKind::Device, RawActivity::Device(raw));
    let decoded = record.clone().device().unwrap();

    assert_eq!(decoded.global_memory_bandwidth, 1);
    assert_eq!(decoded.device_id, DeviceId::from(25));
    assert!(decoded.ecc_enabled);
    assert_eq!(decoded.uuid, [1u8; 16]);
    assert_eq!(decoded.name.as_deref(), Some("gpu".as_bytes()));
    assert!(decoded.is_cuda_visible);
    assert!(decoded.is_mig_enabled);
    assert_eq!(decoded.mig_uuid, [2u8; 16]);
    assert_eq!(decoded.max_block_dim, Dim3 { x: 17, y: 18, z: 19 });
    assert_eq!(decoded.max_grid_dim, Dim3 { x: 20, y: 21, z: 22 });
    assert!(matches!(record.decode(), ActivityRecordData::Device(_)));
}

#[test]
fn activity_record_decodes_jit_record() {
    let raw = RawJit {
        entry_type: ActivityJitEntryType::ParallelThreadExecutionToCudaBinary,
        operation_type: ActivityJitOperationType::Compile,
        device_id: 1,
        start: 2,
        end: 3,
        correlation_id: 4,
        operation_correlation_id: 5,
        cache_size: 6,
        cache_path: bytes("/tmp/cache"),
        process_id: 7,
        thread_id: 8,
    };
    let record = ActivityRecord::new(ActivityKind::Jit, RawActivity::Jit(raw));
    let decoded = ActivityJit {
        entry_type: ActivityJitEntryType::ParallelThreadExecutionToCudaBinary,
        operation_type: ActivityJitOperationType::Compile,
        device_id: DeviceId::from(1),
        start: 2,
        end: 3,
        correlation_id: CorrelationId::from(4),
        operation_correlation_id: JitOperationCorrelationId::from(5),
        cache_size: 6,
        cache_path: bytes("/tmp/cache"),
        process_id: ProcessId::from(7u64),
        thread_id: ThreadId::from(8),
    };

    assert_eq!(record.clone().jit(), Some(decoded.clone()));
    assert_eq!(record.decode(), ActivityRecordData::Jit(decoded));
}

#[test]
fn activity_record_decodes_nvlink_record() {
    let ports0 = vec![1u32, 2];
    let ports1 = vec![3u32, 4];
    let raw = RawNvLink {
        nvlink_version: 5,
        type_dev0: DeviceType::Gpu,
        type_dev1: DeviceType::Npu,
        id_dev0: RawTopologyDeviceId { uuid: [6; 16], npu_index: 0, npu_domain_id: 0 },
        id_dev1: RawTopologyDeviceId { uuid: [0; 16], npu_index: 7, npu_domain_id: 8 },
        flag: LinkFlags::PEER_ACCESS | LinkFlags::SYSTEM_MEMORY_ACCESS,
        physical_nvlink_count: 2,
        port_dev0: Some(ports0.clone()),
        port_dev1: Some(ports1.clone()),
        bandwidth: 9,
        nvswitch_connected: 1,
    };
    let record = ActivityRecord::new(ActivityKind::NvLink, RawActivity::NvLink(raw));
    let decoded = record.clone().nvlink().unwrap();

    assert_eq!(decoded.version, 5);
    assert_eq!(decoded.device0_type, DeviceType::Gpu);
    assert_eq!(decoded.device1_type, DeviceType::Npu);
    assert_eq!(decoded.device0_id, ActivityTopologyDeviceId::Gpu { uuid: [6; 16] });
    assert_eq!(
        decoded.device1_id,
        ActivityTopologyDeviceId::Npu(ActivityNpuId { index: 7, domain_id: NpuDomainId::from(8) })
    );
    assert_eq!(decoded.flags, LinkFlags::from_bits_truncate(LinkFlags::PEER_ACCESS | LinkFlags::SYSTEM_MEMORY_ACCESS));
    assert_eq!(decoded.device0_ports.as_deref(), Some(ports0.as_slice()));
    assert_eq!(decoded.device1_ports.as_deref(), Some(ports1.as_slice()));
    assert_eq!(decoded.bandwidth, 9);
    assert!(decoded.nvswitch_connected);
    assert!(matches!(record.decode(), ActivityRecordData::NvLink(_)));
}

#[test]
fn activity_record_decodes_pcie_records() {
    let gpu = RawPcie {
        device_type: PcieDeviceType::Gpu,
        dev_id: 1,
        bridge_id: 1,
        domain: 2,
        pcie_generation: 3,
        link_rate: 4,
        link_width: 5,
        upstream_bus: 6,
        gpu_uuid: [7; 16],
        gpu_peer_devices: [8; 32],
        bridge_secondary_bus: 0x0707,
        bridge_device_id: 0x0707,
        bridge_vendor_id: 0x0707,
    };
    let gpu_record = ActivityRecord::new(ActivityKind::Pcie, RawActivity::Pcie(gpu));
    let gpu_decoded = ActivityPcie {
        device_type: PcieDeviceType::Gpu,
        id: ActivityPcieDeviceId::Gpu(CudaDevice::from(1)),
        domain: PcieDomainId::from(2),
        pcie_generation: 3,
        link_rate: 4,
        link_width: 5,
        upstream_bus: 6,
        attributes: ActivityPcieAttributes::Gpu(ActivityPcieGpuAttributes {
            uuid: [7; 16],
            peer_devices: [CudaDevice::from(8); 32],
        }),
    };

    assert_eq!(gpu_record.clone().pcie(), Some(gpu_decoded));
    assert_eq!(gpu_record.decode(), ActivityRecordData::Pcie(gpu_decoded));

    let bridge = RawPcie {
        device_type: PcieDeviceType::Bridge,
        dev_id: 9,
        bridge_id: 9,
        domain: 10,
        pcie_generation: 11,
        link_rate: 12,
        link_width: 13,
        upstream_bus: 14,
        gpu_uuid: [15; 16],
        gpu_peer_devices: [0; 32],
        bridge_secondary_bus: 15,
        bridge_device_id: 16,
        bridge_vendor_id: 17,
    };
    let bridge_record = ActivityRecord::new(ActivityKind::Pcie, RawActivity::Pcie(bridge));
    let bridge_decoded = ActivityPcie {
        device_type: PcieDeviceType::Bridge,
        id: ActivityPcieDeviceId::Bridge(PcieBridgeId::from(9)),
        domain: PcieDomainId::from(10),
        pcie_generation: 11,
        link_rate: 12,
        link_width: 13,
        upstream_bus: 14,
        attributes: ActivityPcieAttributes::Bridge(ActivityPcieBridgeAttributes {
            secondary_bus: PcieBusId::from(15),
            device_id: PcieHardwareDeviceId::from(16),
            vendor_id: PcieVendorId::from(17),
        }),
    };

    assert_eq!(bridge_record.clone().pcie(), Some(bridge_decoded));
    assert_eq!(bridge_record.decode(), ActivityRecordData::Pcie(bridge_decoded));
}

#[test]
fn activity_record_decodes_instruction_correlation_record() {
    let raw = RawInstructionCorrelation {
        flags: ActivityFlags::INSTRUCTION_CLASS_MASK,
        source_locator_id: 1,
        function_id: 2,
        pc_offset: 3,
    };
    let record = ActivityRecord::new(ActivityKind::InstructionCorrelation, RawActivity::InstructionCorrelation(raw));
    let decoded = ActivityInstructionCorrelation {
        flags: ActivityFlags::from_bits_truncate(ActivityFlags::INSTRUCTION_CLASS_MASK),
        source_locator_id: SourceLocatorId::from(1),
        function_id: FunctionId::from(2),
        pc_offset: 3,
    };

    assert_eq!(record.clone().instruction_correlation(), Some(decoded));
    assert_eq!(record.decode(), ActivityRecordData::InstructionCorrelation(decoded));
}

#[test]
fn activity_record_decodes_open_multi_processing_record() {
    let raw = RawOpenMultiProcessing {
        event_kind: OpenMultiProcessingEventKind::WaitBarrier,
        version: 1,
        thread_id: 2,
        start: 3,
        end: 4,
        process_id: 5,
        cu_thread_id: 6,
    };
    let record = ActivityRecord::new(ActivityKind::OpenMultiProcessing, RawActivity::OpenMultiProcessing(raw));
    let decoded = ActivityOpenMultiProcessing {
        event_kind: OpenMultiProcessingEventKind::WaitBarrier,
        version: 1,
        thread_id: ThreadId::from(2),
        start: 3,
        end: 4,
        process_id: ProcessId::from(5u64),
        cu_thread_id: ThreadId::from(6),
    };

    assert_eq!(record.clone().open_multi_processing(), Some(decoded));
    assert_eq!(record.decode(), ActivityRecordData::OpenMultiProcessing(decoded));
}

fn open_acc_base(event_kind: OpenAccEventKind, parent_construct: OpenAccConstructKind, implicit: u32) -> RawOpenAccBase {
    RawOpenAccBase {
        event_kind,
        parent_construct,
        version: 1,
        implicit,
        device_type: 2,
        device_number: 3,
        thread_id: 4,
        asynchronous_id: 5,
        asynchronous_map: 6,
        line_number: 7,
        end_line_number: 8,
        function_line_number: 9,
        function_end_line_number: 10,
        start: 11,
        end: 12,
        cuda_device_id: 13,
        cuda_context_id: 14,
        cuda_stream_id: 15,
        process_id: 16,
        cuda_thread_id: 17,
        external_id: 18,
        source_file: bytes("main.c"),
        function_name: bytes("step"),
    }
}

#[test]
fn activity_record_decodes_open_acc_records() {
    let data = RawOpenAccData {
        base: open_acc_base(OpenAccEventKind::EnqueueUpload, OpenAccConstructKind::Data, 1),
        bytes: 19,
        host_ptr: 20,
        device_ptr: 21,
        variable_name: bytes("x"),
    };
    let data_record = ActivityRecord::new(ActivityKind::OpenAccData, RawActivity::OpenAccData(data));
    let decoded_data = data_record.clone().open_acc_data().unwrap();

    assert_eq!(decoded_data.base.event_kind, OpenAccEventKind::EnqueueUpload);
    assert_eq!(decoded_data.base.parent_construct, OpenAccConstructKind::Data);
    assert!(decoded_data.base.implicit);
    assert_eq!(decoded_data.base.cuda_device_id, DeviceId::from(13));
    assert_eq!(decoded_data.base.cuda_context_id, ContextId::from(14));
    assert_eq!(decoded_data.base.cuda_stream_id, StreamId::from(15u64));
    assert_eq!(decoded_data.base.external_id, ExternalCorrelationId::from(18));
    assert_eq!(decoded_data.base.source_file.as_deref(), Some("main.c".as_bytes()));
    assert_eq!(decoded_data.base.function_name.as_deref(), Some("step".as_bytes()));
    assert_eq!(decoded_data.bytes, 19);
    assert_eq!(decoded_data.host_ptr, 20);
    assert_eq!(decoded_data.device_ptr, 21);
    assert_eq!(decoded_data.variable_name.as_deref(), Some("x".as_bytes()));
    assert!(matches!(data_record.decode(), ActivityRecordData::OpenAccData(_)));

    let launch = RawOpenAccLaunch {
        base: open_acc_base(OpenAccEventKind::EnqueueLaunch, OpenAccConstructKind::Parallel, 0),
        num_gangs: 19,
        num_workers: 20,
        vector_length: 21,
        kernel_name: bytes("kernel"),
    };
    let launch_record = ActivityRecord::new(ActivityKind::OpenAccLaunch, RawActivity::OpenAccLaunch(launch));
    let decoded_launch = launch_record.clone().open_acc_launch().unwrap();

    assert_eq!(decoded_launch.base.event_kind, OpenAccEventKind::EnqueueLaunch);
    assert_eq!(decoded_launch.base.parent_construct, OpenAccConstructKind::Parallel);
    assert!(!decoded_launch.base.implicit);
    assert_eq!(decoded_launch.num_gangs, 19);
    assert_eq!(decoded_launch.num_workers, 20);
    assert_eq!(decoded_launch.vector_length, 21);
    assert_eq!(decoded_launch.kernel_name.as_deref(), Some("kernel".as_bytes()));
    assert!(matches!(launch_record.decode(), ActivityRecordData::OpenAccLaunch(_)));

    let other = RawOpenAccOther { base: open_acc_base(OpenAccEventKind::Wait, OpenAccConstructKind::Wait, 1) };
    let other_record = ActivityRecord::new(ActivityKind::OpenAccOther, RawActivity::OpenAccOther(other));
    let decoded_other = other_record.clone().open_acc_other().unwrap();

    assert_eq!(decoded_other.base.event_kind, OpenAccEventKind::Wait);
    assert_eq!(decoded_other.base.parent_construct, OpenAccConstructKind::Wait);
    assert!(matches!(other_record.decode(), ActivityRecordData::OpenAccOther(_)));
}

#[test]
fn activity_record_decodes_source_locator_record() {
    let raw = RawSourceLocator { id: 1, line_number: 2, file_name: bytes("kernel.cu") };
    let record = ActivityRecord::new(ActivityKind::SourceLocator, RawActivity::SourceLocator(raw));
    let decoded = record.clone().source_locator().unwrap();

    assert_eq!(decoded.id, SourceLocatorId::from(1));
    assert_eq!(decoded.line_number, 2);
    assert_eq!(decoded.file_name.as_deref(), Some("kernel.cu".as_bytes()));
    assert!(matches!(record.decode(), ActivityRecordData::SourceLocator(_)));
}

#[test]
fn activity_record_decodes_overhead_record() {
    let raw = RawOverhead {
        overhead_kind: ActivityOverheadKind::Resource,
        object_kind: ActivityObjectKind::Device,
        object_id: RawActivityObjectKindId { process_id: 1, thread_id: 0, device_id: 1, context_id: 0, stream_id: 0 },
        start: 2,
        end: 3,
        correlation_id: 4,
        overhead_data: 0,
    };
    let record = ActivityRecord::new(ActivityKind::Overhead, RawActivity::Overhead(raw));
    let decoded = ActivityOverhead {
        overhead_kind: ActivityOverheadKind::Resource,
        object_kind: ActivityObjectKind::Device,
        object_id: ActivityObjectId::Device { device_id: DeviceId::from(1) },
        start: 2,
        end: 3,
        correlation_id: CorrelationId::from(4),
        has_overhead_data: false,
    };

    assert_eq!(record.clone().overhead(), Some(decoded));
    assert_eq!(record.decode(), ActivityRecordData::Overhead(decoded));
}

#[test]
fn activity_record_decodes_memory_copy_record() {
    let raw = RawMemoryCopy {
        copy_kind: 1,
        source_kind: 1,
        destination_kind: 3,
        flags: ActivityFlags::DEVICE_CONCURRENT_KERNELS as u8,
        bytes: 1024,
        start: 10,
        end: 20,
        device_id: 1,
        context_id: 2,
        stream_id: 3,
        correlation_id: 4,
        runtime_correlation_id: 5,
        graph_node_id: 6,
        graph_id: 7,
        channel_id: 8,
        channel_type: ChannelType::AsynchronousMemoryCopy,
        is_device_launched: 1,
        copy_count: 2,
    };
    let record = ActivityRecord::new(ActivityKind::MemoryCopy, RawActivity::MemoryCopy(raw));

    assert_eq!(record.clone().memory_decompress(), None);
    assert_eq!(
        record.clone().memory_copy(),
        Some(ActivityMemoryCopy {
            copy_kind: ActivityMemoryCopyKind::HostToDevice,
            source_kind: ActivityMemoryKind::Pageable,
            destination_kind: ActivityMemoryKind::Device,
            flags: ActivityFlags::from_bits_truncate(ActivityFlags::DEVICE_CONCURRENT_KERNELS),
            bytes: 1024,
            start: 10,
            end: 20,
            device_id: DeviceId::from(1),
            context_id: ContextId::from(2),
            stream_id: StreamId::from(3u64),
            correlation_id: CorrelationId::from(4),
            runtime_correlation_id: CorrelationId::from(5),
            graph_node_id: GraphNodeId::from(6),
            graph_id: GraphId::from(7),
            channel_id: ChannelId::from(8),
            channel_type: ChannelType::AsynchronousMemoryCopy,
            is_device_launched: true,
            copy_count: 2,
        })
    );
    assert!(matches!(
        record.decode(),
        ActivityRecordData::MemoryCopy(ActivityMemoryCopy { copy_kind: ActivityMemoryCopyKind::HostToDevice, bytes: 1024, .. })
    ));
}

#[test]
fn activity_record_decodes_memory_set_record() {
    let raw = RawMemorySet {
        value: 255,
        bytes: 2048,
        start: 30,
        end: 40,
        device_id: 1,
        context_id: 2,
        stream_id: 3,
        correlation_id: 4,
        flags: ActivityFlags::DEVICE_CONCURRENT_KERNELS as u16,
        memory_kind: 3,
        graph_node_id: 5,
        graph_id: 6,
        channel_id: 7,
        channel_type: ChannelType::Compute,
        is_device_launched: 0,
    };
    let record = ActivityRecord::new(ActivityKind::MemorySet, RawActivity::MemorySet(raw));

    assert_eq!(record.clone().memory_copy(), None);
    assert_eq!(
        record.clone().memory_set(),
        Some(ActivityMemorySet {
            value: 255,
            bytes: 2048,
            start: 30,
            end: 40,
            device_id: DeviceId::from(1),
            context_id: ContextId::from(2),
            stream_id: StreamId::from(3u64),
            correlation_id: CorrelationId::from(4),
            flags: ActivityFlags::from_bits_truncate(ActivityFlags::DEVICE_CONCURRENT_KERNELS),
            memory_kind: ActivityMemoryKind::Device,
            graph_node_id: GraphNodeId::from(5),
            graph_id: GraphId::from(6),
            channel_id: ChannelId::from(7),
            channel_type: ChannelType::Compute,
            is_device_launched: false,
        })
    );
    assert!(matches!(record.decode(), ActivityRecordData::MemorySet(ActivityMemorySet { value: 255, bytes: 2048, .. })));
}
