use singe::cupti::activity::record::{
    ActivityComputeEngineContextSwitch, ActivityDeviceGraphTrace, ActivityGraphHostNode, ActivityGraphTrace,
    ActivityGreenContext, ActivityHostLaunch, ActivityMemoryDecompress, ActivityMemoryPool,
    ActivityMemoryPoolConfigData, ActivityApi, ActivityRecord, ActivityRecordData, ActivityStream,
    ActivitySynchronization, Dim3, RawActivity, RawApi, RawComputeEngineContextSwitch,
    RawCudaDynamicParallelismKernel, RawDeviceGraphTrace, RawGraphHostNode, RawGraphTrace, RawGreenContext,
    RawHostLaunch, RawKernel, RawLegacyMemory, RawMemory, RawMemoryDecompress, RawMemoryPool,
    RawMemoryPoolConfig, RawPeerMemoryCopy, RawStream, RawSynchronization,
    partitioned_global_cache_config_from_raw, shared_memory_limit_config_from_raw,
};
use singe::cupti::types::{
    ActivityKind, ActivityLaunchType, ActivityMemoryCopyKind, ActivityMemoryKind, ActivityMemoryOperationType,
    ActivityMemoryPoolOperationType, ActivityMemoryPoolType, ActivityPartitionedGlobalCacheConfig, ActivityStreamFlag,
    ActivitySynchronizationType, CallbackId, ChannelId, ChannelType, ComputeEngineContextSwitchOperationType,
    ContextId, CorrelationId, CudaEventId, CudaEventSyncId, DeviceGraphLaunchMode, DeviceId,
    FunctionSharedMemoryLimitConfig, GraphId, GraphNodeId, GridId, ProcessId, StreamId, ThreadId,
};

fn bytes(s: &str) -> Option<Vec<u8>> {
    Some(s.as_bytes().to_vec())
}

#[test]
fn activity_record_decodes_memory_decompress_record() {
    let raw = RawMemoryDecompress {
        device_id: 1,
        context_id: 2,
        stream_id: 3,
        channel_id: 4,
        channel_type: ChannelType::Decompress,
        correlation_id: 5,
        number_of_operations: 6,
        source_bytes: 7,
        start: 8,
        end: 9,
    };
    let record = ActivityRecord::new(ActivityKind::MemoryDecompress, RawActivity::MemoryDecompress(raw));
    let expected = ActivityMemoryDecompress {
        device_id: DeviceId::from(1),
        context_id: ContextId::from(2),
        stream_id: StreamId::from(3u64),
        channel_id: ChannelId::from(4),
        channel_type: ChannelType::Decompress,
        correlation_id: CorrelationId::from(5),
        number_of_operations: 6,
        source_bytes: 7,
        start: 8,
        end: 9,
    };

    assert_eq!(record.kind(), ActivityKind::MemoryDecompress);
    assert_eq!(record.clone().memory_decompress(), Some(expected));
    assert_eq!(record.decode(), ActivityRecordData::MemoryDecompress(expected));
}

#[test]
fn activity_record_rejects_memory_decompress_for_other_kinds() {
    let record = ActivityRecord::new(ActivityKind::Invalid, RawActivity::Other);

    assert_eq!(record.clone().memory_decompress(), None);
    assert_eq!(record.decode(), ActivityRecordData::Unsupported { kind: ActivityKind::Invalid });
}

#[test]
fn activity_record_decodes_kernel_record() {
    let raw = RawKernel {
        name: bytes("kernel"),
        device_id: 1,
        context_id: 2,
        stream_id: 3,
        correlation_id: 13,
        grid_id: 14,
        grid_x: 4,
        grid_y: 5,
        grid_z: 6,
        block_x: 7,
        block_y: 8,
        block_z: 9,
        cluster_x: 21,
        cluster_y: 22,
        cluster_z: 23,
        start: 28,
        end: 29,
        completed: 30,
        queued: 15,
        submitted: 16,
        static_shared_memory: 10,
        dynamic_shared_memory: 11,
        local_memory_per_thread: 12,
        local_memory_total: 24,
        registers_per_thread: 31,
        shared_memory_config: 32,
        shared_memory_executed: 17,
        is_shared_memory_carveout_requested: 1,
        shared_memory_carveout_requested: 50,
        partitioned_global_cache_requested: 3,
        partitioned_global_cache_executed: 2,
        launch_type: 1,
        shared_memory_limit_config: 1,
        graph_node_id: 18,
        graph_id: 19,
        channel_id: 20,
        channel_type: ChannelType::Compute,
        max_potential_cluster_size: 25,
        max_active_clusters: 26,
        is_device_launched: 1,
        priority: 27,
    };
    let record = ActivityRecord::new(ActivityKind::ConcurrentKernel, RawActivity::Kernel(raw));

    let kernel = record.clone().kernel().unwrap();
    assert_eq!(record.kind(), ActivityKind::ConcurrentKernel);
    assert_eq!(kernel.name.as_deref(), Some("kernel".as_bytes()));
    assert_eq!(kernel.device_id, DeviceId::from(1));
    assert_eq!(kernel.context_id, ContextId::from(2));
    assert_eq!(kernel.stream_id, StreamId::from(3u64));
    assert_eq!(kernel.grid, Dim3 { x: 4, y: 5, z: 6 });
    assert_eq!(kernel.block, Dim3 { x: 7, y: 8, z: 9 });
    assert_eq!(kernel.cluster, Dim3 { x: 21, y: 22, z: 23 });
    assert_eq!(kernel.correlation_id, CorrelationId::from(13));
    assert_eq!(kernel.graph_node_id, GraphNodeId::from(18));
    assert_eq!(kernel.graph_id, GraphId::from(19));
    assert_eq!(kernel.channel_id, ChannelId::from(20));
    assert_eq!(kernel.channel_type, ChannelType::Compute);
    assert_eq!(kernel.launch_type, ActivityLaunchType::CooperativeSingleDevice);
    assert_eq!(kernel.shared_memory_limit_config, FunctionSharedMemoryLimitConfig::OptIn);
    assert_eq!(kernel.partitioned_global_cache_requested, ActivityPartitionedGlobalCacheConfig::On);
    assert_eq!(kernel.partitioned_global_cache_executed, ActivityPartitionedGlobalCacheConfig::Off);
    assert_eq!(kernel.shared_memory_carveout_requested, Some(50));
    assert_eq!(kernel.local_memory_total, 24);
    assert!(kernel.is_device_launched);
    assert!(matches!(record.decode(), ActivityRecordData::Kernel(_)));
}

#[test]
fn activity_record_decodes_legacy_activity_records() {
    let memory = RawLegacyMemory {
        memory_kind: ActivityMemoryKind::Device,
        address: 1,
        bytes: 2,
        start: 3,
        end: 4,
        allocation_pc: 5,
        free_pc: 6,
        process_id: 7,
        device_id: 8,
        context_id: 9,
        name: bytes("legacy"),
    };
    let memory_record = ActivityRecord::new(ActivityKind::Memory, RawActivity::LegacyMemory(memory));
    let decoded_memory = memory_record.clone().legacy_memory().unwrap();

    assert_eq!(decoded_memory.memory_kind, ActivityMemoryKind::Device);
    assert_eq!(decoded_memory.address, 1);
    assert_eq!(decoded_memory.device_id, DeviceId::from(8));
    assert_eq!(decoded_memory.name.as_deref(), Some("legacy".as_bytes()));
    assert!(matches!(memory_record.decode(), ActivityRecordData::LegacyMemory(_)));

    let memory_copy = RawPeerMemoryCopy {
        copy_kind: 10,
        source_kind: 3,
        destination_kind: 5,
        flags: 0,
        bytes: 10,
        start: 11,
        end: 12,
        device_id: 13,
        context_id: 14,
        stream_id: 15,
        source_device_id: 16,
        source_context_id: 17,
        destination_device_id: 18,
        destination_context_id: 19,
        correlation_id: 20,
        graph_node_id: 21,
        graph_id: 22,
        channel_id: 23,
        channel_type: ChannelType::AsynchronousMemoryCopy,
    };
    let memory_copy_record = ActivityRecord::new(ActivityKind::PeerMemoryCopy, RawActivity::PeerMemoryCopy(memory_copy));
    let decoded_memory_copy = memory_copy_record.clone().peer_memory_copy().unwrap();

    assert_eq!(decoded_memory_copy.copy_kind, ActivityMemoryCopyKind::PeerToPeer);
    assert_eq!(decoded_memory_copy.source_kind, ActivityMemoryKind::Device);
    assert_eq!(decoded_memory_copy.destination_kind, ActivityMemoryKind::Managed);
    assert_eq!(decoded_memory_copy.source_device_id, DeviceId::from(16));
    assert_eq!(decoded_memory_copy.destination_context_id, ContextId::from(19));
    assert_eq!(decoded_memory_copy.channel_type, ChannelType::AsynchronousMemoryCopy);
    assert_eq!(memory_copy_record.decode(), ActivityRecordData::PeerMemoryCopy(decoded_memory_copy));

    let cdp = RawCudaDynamicParallelismKernel {
        name: bytes("child"),
        device_id: 5,
        context_id: 6,
        stream_id: 7,
        correlation_id: 18,
        grid_id: 19,
        parent_grid_id: 20,
        parent_block_x: 24,
        parent_block_y: 25,
        parent_block_z: 26,
        grid_x: 8,
        grid_y: 9,
        grid_z: 10,
        block_x: 11,
        block_y: 12,
        block_z: 13,
        start: 3,
        end: 4,
        completed: 23,
        queued: 21,
        submitted: 22,
        static_shared_memory: 14,
        dynamic_shared_memory: 15,
        local_memory_per_thread: 16,
        local_memory_total: 17,
        registers_per_thread: 2,
        shared_memory_config: 1,
    };
    let cdp_record = ActivityRecord::new(
        ActivityKind::CudaDynamicParallelismKernel,
        RawActivity::CudaDynamicParallelismKernel(cdp),
    );
    let decoded_cdp = cdp_record.clone().cuda_dynamic_parallelism_kernel().unwrap();

    assert_eq!(decoded_cdp.name.as_deref(), Some("child".as_bytes()));
    assert_eq!(decoded_cdp.grid_id, GridId::from(19));
    assert_eq!(decoded_cdp.parent_grid_id, GridId::from(20));
    assert_eq!(decoded_cdp.parent_block, Dim3 { x: 24, y: 25, z: 26 });
    assert!(matches!(cdp_record.decode(), ActivityRecordData::CudaDynamicParallelismKernel(_)));
}

#[test]
fn activity_record_decodes_api_record() {
    let raw = RawApi {
        kind: ActivityKind::Runtime,
        callback_id: 211,
        start: 1,
        end: 2,
        process_id: 3,
        thread_id: 4,
        correlation_id: 5,
        return_value: 6,
    };
    let record = ActivityRecord::new(ActivityKind::Runtime, RawActivity::Api(raw));
    let api = ActivityApi {
        kind: ActivityKind::Runtime,
        callback_id: CallbackId::from(211),
        start: 1,
        end: 2,
        process_id: ProcessId::from(3u64),
        thread_id: ThreadId::from(4),
        correlation_id: CorrelationId::from(5),
        return_value: 6,
    };
    assert_eq!(record.clone().api(), Some(api));
    assert_eq!(record.decode(), ActivityRecordData::Api(api));
}

#[test]
fn activity_record_decodes_stream_record() {
    let raw = RawStream {
        context_id: 1,
        stream_id: 2,
        priority: 3,
        flag: ActivityStreamFlag::NonBlocking,
        correlation_id: 4,
    };
    let record = ActivityRecord::new(ActivityKind::Stream, RawActivity::Stream(raw));
    let stream = ActivityStream {
        context_id: ContextId::from(1),
        stream_id: StreamId::from(2u64),
        priority: 3,
        flag: ActivityStreamFlag::NonBlocking,
        correlation_id: CorrelationId::from(4),
    };

    assert_eq!(record.clone().stream(), Some(stream));
    assert_eq!(record.decode(), ActivityRecordData::Stream(stream));
}

#[test]
fn activity_record_decodes_synchronization_record() {
    let raw = RawSynchronization {
        synchronization_type: ActivitySynchronizationType::StreamSynchronize,
        start: 1,
        end: 2,
        correlation_id: 3,
        context_id: 4,
        stream_id: 5,
        cuda_event_id: 6,
        cuda_event_sync_id: 7,
        return_value: 8,
    };
    let record = ActivityRecord::new(ActivityKind::Synchronization, RawActivity::Synchronization(raw));
    let synchronization = ActivitySynchronization {
        synchronization_type: ActivitySynchronizationType::StreamSynchronize,
        start: 1,
        end: 2,
        correlation_id: CorrelationId::from(3),
        context_id: ContextId::from(4),
        stream_id: StreamId::from(5u64),
        cuda_event_id: CudaEventId::from(6),
        cuda_event_sync_id: CudaEventSyncId::from(7),
        return_value: 8,
    };

    assert_eq!(record.clone().synchronization(), Some(synchronization));
    assert_eq!(record.decode(), ActivityRecordData::Synchronization(synchronization));
}

fn raw_memory(pool: RawMemoryPoolConfig, name: Option<Vec<u8>>, source: Option<Vec<u8>>, is_async: u32) -> RawMemory {
    RawMemory {
        operation_type: ActivityMemoryOperationType::Allocation,
        memory_kind: ActivityMemoryKind::Device,
        correlation_id: 1,
        address: 2,
        bytes: 3,
        timestamp: 4,
        pc: 5,
        process_id: 6,
        device_id: 7,
        context_id: 8,
        stream_id: 9,
        name,
        is_asynchronous: is_async,
        memory_pool_config: pool,
        source,
    }
}

#[test]
fn activity_record_decodes_memory_record() {
    let pool = RawMemoryPoolConfig {
        memory_pool_type: ActivityMemoryPoolType::Local,
        address: 10,
        pool: 12,
        release_threshold: 11,
        utilized_size: 13,
    };
    let raw = raw_memory(pool, bytes("allocation"), bytes("libcuda.so"), 1);
    let record = ActivityRecord::new(ActivityKind::Memory2, RawActivity::Memory(raw));

    let memory = record.clone().memory().unwrap();
    assert_eq!(memory.operation_type, ActivityMemoryOperationType::Allocation);
    assert_eq!(memory.memory_kind, ActivityMemoryKind::Device);
    assert_eq!(memory.correlation_id, CorrelationId::from(1));
    assert_eq!(memory.address, 2);
    assert_eq!(memory.bytes, 3);
    assert_eq!(memory.timestamp, 4);
    assert_eq!(memory.pc, 5);
    assert_eq!(memory.process_id, ProcessId::from(6u64));
    assert_eq!(memory.device_id, DeviceId::from(7));
    assert_eq!(memory.context_id, ContextId::from(8));
    assert_eq!(memory.stream_id, StreamId::from(9u64));
    assert_eq!(memory.name.as_deref(), Some("allocation".as_bytes()));
    assert!(memory.is_asynchronous);
    assert_eq!(memory.memory_pool_config.pool_type, ActivityMemoryPoolType::Local);
    assert_eq!(memory.memory_pool_config.address, 10);
    assert_eq!(
        memory.memory_pool_config.data,
        ActivityMemoryPoolConfigData::Local { size: 12, release_threshold: 11, utilized_size: 13 }
    );
    assert_eq!(memory.source.as_deref(), Some("libcuda.so".as_bytes()));
    assert!(matches!(record.decode(), ActivityRecordData::Memory(_)));
}

#[test]
fn activity_record_decodes_imported_memory_pool_config() {
    let pool = RawMemoryPoolConfig {
        memory_pool_type: ActivityMemoryPoolType::Imported,
        address: 10,
        pool: 12,
        release_threshold: 0,
        utilized_size: 0,
    };
    let raw = raw_memory(pool, None, None, 0);
    let record = ActivityRecord::new(ActivityKind::Memory2, RawActivity::Memory(raw));

    let memory = record.memory().unwrap();
    assert_eq!(memory.memory_pool_config.data, ActivityMemoryPoolConfigData::Imported { process_id: ProcessId::from(12u64) });
}

#[test]
fn activity_record_decodes_memory_pool_record() {
    let raw = RawMemoryPool {
        operation_type: ActivityMemoryPoolOperationType::Trimmed,
        pool_type: ActivityMemoryPoolType::Imported,
        correlation_id: 1,
        process_id: 2,
        device_id: 3,
        min_bytes_to_keep: 4,
        address: 5,
        size: 6,
        release_threshold: 7,
        timestamp: 8,
        utilized_size: 9,
        is_managed_pool: 1,
    };
    let record = ActivityRecord::new(ActivityKind::MemoryPool, RawActivity::MemoryPool(raw));
    let memory_pool = ActivityMemoryPool {
        operation_type: ActivityMemoryPoolOperationType::Trimmed,
        pool_type: ActivityMemoryPoolType::Imported,
        correlation_id: CorrelationId::from(1),
        process_id: ProcessId::from(2u64),
        device_id: DeviceId::from(3),
        min_bytes_to_keep: 4,
        address: 5,
        size: 6,
        release_threshold: 7,
        timestamp: 8,
        utilized_size: 9,
        is_managed_pool: true,
    };
    assert_eq!(record.clone().memory_pool(), Some(memory_pool));
    assert_eq!(record.decode(), ActivityRecordData::MemoryPool(memory_pool));
}

#[test]
fn activity_record_decodes_graph_trace_record() {
    let raw = RawGraphTrace {
        correlation_id: 1,
        start: 2,
        end: 3,
        device_id: 4,
        graph_id: 5,
        context_id: 6,
        stream_id: 7,
        end_device_id: 8,
        end_context_id: 9,
    };
    let record = ActivityRecord::new(ActivityKind::GraphTrace, RawActivity::GraphTrace(raw));
    let graph_trace = ActivityGraphTrace {
        correlation_id: CorrelationId::from(1),
        start: 2,
        end: 3,
        device_id: DeviceId::from(4),
        graph_id: GraphId::from(5),
        context_id: ContextId::from(6),
        stream_id: StreamId::from(7u64),
        end_device_id: DeviceId::from(8),
        end_context_id: ContextId::from(9),
    };

    assert_eq!(record.clone().graph_trace(), Some(graph_trace));
    assert_eq!(record.decode(), ActivityRecordData::GraphTrace(graph_trace));
}

#[test]
fn activity_record_decodes_device_graph_trace_record() {
    let raw = RawDeviceGraphTrace {
        device_id: 1,
        start: 2,
        end: 3,
        graph_id: 4,
        launcher_graph_id: 5,
        device_launch_mode: 2,
        context_id: 6,
        stream_id: 7,
    };
    let record = ActivityRecord::new(ActivityKind::DeviceGraphTrace, RawActivity::DeviceGraphTrace(raw));
    let device_graph_trace = ActivityDeviceGraphTrace {
        device_id: DeviceId::from(1),
        start: 2,
        end: 3,
        graph_id: GraphId::from(4),
        launcher_graph_id: GraphId::from(5),
        device_launch_mode: DeviceGraphLaunchMode::Tail,
        context_id: ContextId::from(6),
        stream_id: StreamId::from(7u64),
    };

    assert_eq!(record.clone().device_graph_trace(), Some(device_graph_trace));
    assert_eq!(record.decode(), ActivityRecordData::DeviceGraphTrace(device_graph_trace));
}

#[test]
fn activity_record_decodes_graph_host_node_record() {
    let raw = RawGraphHostNode {
        stream_id: 1,
        context_id: 2,
        device_id: 3,
        correlation_id: 4,
        graph_id: 5,
        graph_node_id: 6,
        process_id: 7,
        thread_id: 8,
        start: 9,
        end: 10,
    };
    let record = ActivityRecord::new(ActivityKind::GraphHostNode, RawActivity::GraphHostNode(raw));
    let graph_host_node = ActivityGraphHostNode {
        stream_id: StreamId::from(1u64),
        context_id: ContextId::from(2),
        device_id: DeviceId::from(3),
        correlation_id: CorrelationId::from(4),
        graph_id: GraphId::from(5),
        graph_node_id: GraphNodeId::from(6),
        process_id: ProcessId::from(7u64),
        thread_id: ThreadId::from(8),
        start: 9,
        end: 10,
    };

    assert_eq!(record.clone().graph_host_node(), Some(graph_host_node));
    assert_eq!(record.decode(), ActivityRecordData::GraphHostNode(graph_host_node));
}

#[test]
fn activity_record_decodes_host_launch_record() {
    let raw = RawHostLaunch {
        stream_id: 1,
        context_id: 2,
        device_id: 3,
        correlation_id: 4,
        process_id: 5,
        thread_id: 6,
        start: 7,
        end: 8,
    };
    let record = ActivityRecord::new(ActivityKind::HostLaunch, RawActivity::HostLaunch(raw));
    let host_launch = ActivityHostLaunch {
        stream_id: StreamId::from(1u64),
        context_id: ContextId::from(2),
        device_id: DeviceId::from(3),
        correlation_id: CorrelationId::from(4),
        process_id: ProcessId::from(5u64),
        thread_id: ThreadId::from(6),
        start: 7,
        end: 8,
    };

    assert_eq!(record.clone().host_launch(), Some(host_launch));
    assert_eq!(record.decode(), ActivityRecordData::HostLaunch(host_launch));
}

#[test]
fn activity_record_decodes_compute_engine_context_switch_record() {
    let raw = RawComputeEngineContextSwitch {
        context_id: 1,
        timestamp: 2,
        operation_type: ComputeEngineContextSwitchOperationType::End,
    };
    let record =
        ActivityRecord::new(ActivityKind::ComputeEngineCtxSwitch, RawActivity::ComputeEngineContextSwitch(raw));
    let context_switch = ActivityComputeEngineContextSwitch {
        context_id: ContextId::from(1),
        timestamp: 2,
        operation_type: ComputeEngineContextSwitchOperationType::End,
    };

    assert_eq!(record.clone().compute_engine_context_switch(), Some(context_switch));
    assert_eq!(record.decode(), ActivityRecordData::ComputeEngineContextSwitch(context_switch));
}

#[test]
fn activity_record_decodes_green_context_record() {
    let mut logical_tpc_mask = [0u32; 32];
    logical_tpc_mask[0] = 0b10;
    logical_tpc_mask[1] = 0b1000;
    let raw = RawGreenContext {
        context_id: 1,
        parent_context_id: 2,
        device_id: 3,
        num_tpcs: 4,
        num_multiprocessors: 5,
        logical_tpc_mask,
        logical_tpc_mask_size: 2,
    };
    let record = ActivityRecord::new(ActivityKind::GreenContext, RawActivity::GreenContext(raw));
    let green_context = ActivityGreenContext {
        context_id: ContextId::from(1),
        parent_context_id: ContextId::from(2),
        device_id: DeviceId::from(3),
        num_tpcs: 4,
        num_multiprocessors: 5,
        logical_tpc_mask,
        logical_tpc_mask_size: 2,
    };

    assert_eq!(record.clone().green_context(), Some(green_context));
    assert_eq!(green_context.logical_tpc_mask_words(), &[0b10u32, 0b1000u32]);
    assert!(green_context.has_logical_tpc(1));
    assert!(green_context.has_logical_tpc(35));
    assert!(!green_context.has_logical_tpc(2));
    assert_eq!(record.decode(), ActivityRecordData::GreenContext(green_context));
}

#[test]
fn kernel_settings_fall_back_for_undefined_values() {
    assert_eq!(partitioned_global_cache_config_from_raw(1), ActivityPartitionedGlobalCacheConfig::NotSupported);
    assert_eq!(partitioned_global_cache_config_from_raw(9), ActivityPartitionedGlobalCacheConfig::Unknown);
    assert_eq!(shared_memory_limit_config_from_raw(0), FunctionSharedMemoryLimitConfig::Default);
    assert_eq!(shared_memory_limit_config_from_raw(1), FunctionSharedMemoryLimitConfig::OptIn);
    assert_eq!(shared_memory_limit_config_from_raw(7), FunctionSharedMemoryLimitConfig::Default);
}
