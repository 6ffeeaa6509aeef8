//! Decoded activity records.
//!
//! Each record kind comes in two forms: the fields as CUPTI fills them (`Raw*`,
//! plain integers and byte arrays) and the decoded form, whose identifiers, enums
//! and flags are the typed values of [`crate::cupti::types`]. Every `from_raw`
//! states its result exactly, as the decoded form of its argument.
use vstd::prelude::*;
use crate::cupti::types::{
    ActivityComputeApiKind,
    ActivityEnvironmentKind,
    ActivityFlags,
    ActivityJitEntryType,
    ActivityJitOperationType,
    ActivityKind,
    ActivityLaunchType,
    ActivityMarkerId,
    ActivityMemoryCopyKind,
    ActivityMemoryKind,
    ActivityMemoryOperationType,
    ActivityMemoryPoolOperationType,
    ActivityMemoryPoolType,
    ActivityObjectKind,
    ActivityOverheadKind,
    ActivityPartitionedGlobalCacheConfig,
    ActivityPcSamplingStallReason,
    ActivityPreemptionKind,
    ActivityStreamFlag,
    ActivitySynchronizationType,
    ActivityUnifiedMemoryAccessType,
    ActivityUnifiedMemoryCounterKind,
    ActivityUnifiedMemoryMigrationCause,
    ActivityUnifiedMemoryRemoteMapCause,
    CallbackId,
    ChannelId,
    ChannelType,
    ComputeEngineContextSwitchOperationType,
    ComputeInstanceId,
    ConfidentialComputeRotationEventType,
    ContextCigMode,
    ContextId,
    CorrelationId,
    CudaDevice,
    CudaDeviceAttribute,
    CudaEventId,
    CudaEventSyncId,
    CuptiDomainId,
    DeviceAttribute,
    DeviceGraphLaunchMode,
    DeviceId,
    DeviceType,
    EnvironmentClocksThrottleReasons,
    EventDomainId,
    EventId,
    ExternalCorrelationId,
    ExternalCorrelationKind,
    FunctionId,
    FunctionSharedMemoryLimitConfig,
    GpuInstanceId,
    GraphId,
    GraphNodeId,
    GridId,
    JitOperationCorrelationId,
    LinkFlags,
    MetricId,
    MetricValueKind,
    MetricValueUtilizationLevel,
    ModuleId,
    NonUniformMemoryAccessId,
    NpuDomainId,
    OpenAccAsynchronousId,
    OpenAccConstructKind,
    OpenAccDeviceNumber,
    OpenAccDeviceTypeId,
    OpenAccEventKind,
    OpenMultiProcessingEventKind,
    PcieBridgeId,
    PcieBusId,
    PcieDeviceType,
    PcieDomainId,
    PcieHardwareDeviceId,
    PcieVendorId,
    ProcessId,
    SourceLocatorId,
    StreamId,
    ThreadId,
    UnifiedMemoryProcessorId,
};
use crate::cupti::types::{group_id_views, group_flag_views};

verus! {

broadcast use group_id_views, group_flag_views;

/// CUDA graph execution trace. Record fields as CUPTI fills them.
#[derive(Debug, Clone, Copy, PartialEq, Eq, Structural)]
pub struct RawGraphTrace {
    pub correlation_id: u32,
    pub start: u64,
    pub end: u64,
    pub device_id: u32,
    pub graph_id: u32,
    pub context_id: u32,
    pub stream_id: u32,
    pub end_device_id: u32,
    pub end_context_id: u32,
}

/// CUDA graph execution trace.
#[derive(Debug, Clone, Copy, PartialEq, Eq, Structural)]
pub struct ActivityGraphTrace {
    pub correlation_id: CorrelationId,
    pub start: u64,
    pub end: u64,
    pub device_id: DeviceId,
    pub graph_id: GraphId,
    pub context_id: ContextId,
    pub stream_id: StreamId,
    pub end_device_id: DeviceId,
    pub end_context_id: ContextId,
}

/// The decoded form of a raw graph trace record.
pub open spec fn decoded_graph_trace(value: RawGraphTrace) -> ActivityGraphTrace {
    ActivityGraphTrace {
        correlation_id: CorrelationId::of(value.correlation_id),
        start: value.start,
        end: value.end,
        device_id: DeviceId::of(value.device_id),
        graph_id: GraphId::of(value.graph_id),
        context_id: ContextId::of(value.context_id),
        stream_id: StreamId::of(value.stream_id as u64),
        end_device_id: DeviceId::of(value.end_device_id),
        end_context_id: ContextId::of(value.end_context_id),
    }
}

impl ActivityGraphTrace {
    /// Decodes a raw record.
    pub fn from_raw(value: RawGraphTrace) -> (r: Self)
        ensures
            r == decoded_graph_trace(value),
    {
        ActivityGraphTrace {
            correlation_id: CorrelationId::from(value.correlation_id),
            start: value.start,
            end: value.end,
            device_id: DeviceId::from(value.device_id),
            graph_id: GraphId::from(value.graph_id),
            context_id: ContextId::from(value.context_id),
            stream_id: StreamId::from(value.stream_id),
            end_device_id: DeviceId::from(value.end_device_id),
            end_context_id: ContextId::from(value.end_context_id),
        }
    }
}

/// Execution of a host node of a CUDA graph. Record fields as CUPTI fills them.
#[derive(Debug, Clone, Copy, PartialEq, Eq, Structural)]
pub struct RawGraphHostNode {
    pub stream_id: u32,
    pub context_id: u32,
    pub device_id: u32,
    pub correlation_id: u32,
    pub graph_id: u32,
    pub graph_node_id: u64,
    pub process_id: u32,
    pub thread_id: u32,
    pub start: u64,
    pub end: u64,
}

/// Execution of a host node of a CUDA graph.
#[derive(Debug, Clone, Copy, PartialEq, Eq, Structural)]
pub struct ActivityGraphHostNode {
    pub stream_id: StreamId,
    pub context_id: ContextId,
    pub device_id: DeviceId,
    pub correlation_id: CorrelationId,
    pub graph_id: GraphId,
    pub graph_node_id: GraphNodeId,
    pub process_id: ProcessId,
    pub thread_id: ThreadId,
    pub start: u64,
    pub end: u64,
}

/// The decoded form of a raw graph host node record.
pub open spec fn decoded_graph_host_node(value: RawGraphHostNode) -> ActivityGraphHostNode {
    ActivityGraphHostNode {
        stream_id: StreamId::of(value.stream_id as u64),
        context_id: ContextId::of(value.context_id),
        device_id: DeviceId::of(value.device_id),
        correlation_id: CorrelationId::of(value.correlation_id),
        graph_id: GraphId::of(value.graph_id),
        graph_node_id: GraphNodeId::of(value.graph_node_id),
        process_id: ProcessId::of(value.process_id as u64),
        thread_id: ThreadId::of(value.thread_id),
        start: value.start,
        end: value.end,
    }
}

impl ActivityGraphHostNode {
    /// Decodes a raw record.
    pub fn from_raw(value: RawGraphHostNode) -> (r: Self)
        ensures
            r == decoded_graph_host_node(value),
    {
        ActivityGraphHostNode {
            stream_id: StreamId::from(value.stream_id),
            context_id: ContextId::from(value.context_id),
            device_id: DeviceId::from(value.device_id),
            correlation_id: CorrelationId::from(value.correlation_id),
            graph_id: GraphId::from(value.graph_id),
            graph_node_id: GraphNodeId::from(value.graph_node_id),
            process_id: ProcessId::from(value.process_id),
            thread_id: ThreadId::from(value.thread_id),
            start: value.start,
            end: value.end,
        }
    }
}

/// Host function launched into a stream. Record fields as CUPTI fills them.
#[derive(Debug, Clone, Copy, PartialEq, Eq, Structural)]
pub struct RawHostLaunch {
    pub stream_id: u32,
    pub context_id: u32,
    pub device_id: u32,
    pub correlation_id: u32,
    pub process_id: u32,
    pub thread_id: u32,
    pub start: u64,
    pub end: u64,
}

/// Host function launched into a stream.
#[derive(Debug, Clone, Copy, PartialEq, Eq, Structural)]
pub struct ActivityHostLaunch {
    pub stream_id: StreamId,
    pub context_id: ContextId,
    pub device_id: DeviceId,
    pub correlation_id: CorrelationId,
    pub process_id: ProcessId,
    pub thread_id: ThreadId,
    pub start: u64,
    pub end: u64,
}

/// The decoded form of a raw host launch record.
pub open spec fn decoded_host_launch(value: RawHostLaunch) -> ActivityHostLaunch {
    ActivityHostLaunch {
        stream_id: StreamId::of(value.stream_id as u64),
        context_id: ContextId::of(value.context_id),
        device_id: DeviceId::of(value.device_id),
        correlation_id: CorrelationId::of(value.correlation_id),
        process_id: ProcessId::of(value.process_id as u64),
        thread_id: ThreadId::of(value.thread_id),
        start: value.start,
        end: value.end,
    }
}

impl ActivityHostLaunch {
    /// Decodes a raw record.
    pub fn from_raw(value: RawHostLaunch) -> (r: Self)
        ensures
            r == decoded_host_launch(value),
    {
        ActivityHostLaunch {
            stream_id: StreamId::from(value.stream_id),
            context_id: ContextId::from(value.context_id),
            device_id: DeviceId::from(value.device_id),
            correlation_id: CorrelationId::from(value.correlation_id),
            process_id: ProcessId::from(value.process_id),
            thread_id: ThreadId::from(value.thread_id),
            start: value.start,
            end: value.end,
        }
    }
}

/// Value of a metric collected for a kernel. Record fields as CUPTI fills them.
#[derive(Debug, Clone, Copy, PartialEq, Eq, Structural)]
pub struct RawMetric {
    pub id: u32,
    pub value: u64,
    pub correlation_id: u32,
    pub flags: u32,
}

/// Value of a metric collected for a kernel.
#[derive(Debug, Clone, Copy, PartialEq, Eq, Structural)]
pub struct ActivityMetric {
    pub id: MetricId,
    pub value: MetricValueRaw,
    pub correlation_id: CorrelationId,
    pub flags: ActivityFlags,
}

/// The decoded form of a raw metric record.
pub open spec fn decoded_metric(value: RawMetric) -> ActivityMetric {
    ActivityMetric {
        id: MetricId::of(value.id),
        value: MetricValueRaw::of(value.value),
        correlation_id: CorrelationId::of(value.correlation_id),
        flags: ActivityFlags::of(value.flags & 0x3ff),
    }
}

impl ActivityMetric {
    /// Decodes a raw record.
    pub fn from_raw(value: RawMetric) -> (r: Self)
        ensures
            r == decoded_metric(value),
    {
        ActivityMetric {
            id: MetricId::from(value.id),
            value: MetricValueRaw::from_bits(value.value),
            correlation_id: CorrelationId::from(value.correlation_id),
            flags: ActivityFlags::from_bits_truncate(value.flags),
        }
    }
}

/// Value of a metric for one domain instance. Record fields as CUPTI fills them.
#[derive(Debug, Clone, Copy, PartialEq, Eq, Structural)]
pub struct RawMetricInstance {
    pub id: u32,
    pub value: u64,
    pub instance: u32,
    pub correlation_id: u32,
    pub flags: u32,
}

/// Value of a metric for one domain instance.
#[derive(Debug, Clone, Copy, PartialEq, Eq, Structural)]
pub struct ActivityMetricInstance {
    pub id: MetricId,
    pub value: MetricValueRaw,
    pub instance: u32,
    pub correlation_id: CorrelationId,
    pub flags: ActivityFlags,
}

/// The decoded form of a raw metric instance record.
pub open spec fn decoded_metric_instance(value: RawMetricInstance) -> ActivityMetricInstance {
    ActivityMetricInstance {
        id: MetricId::of(value.id),
        value: MetricValueRaw::of(value.value),
        instance: value.instance,
        correlation_id: CorrelationId::of(value.correlation_id),
        flags: ActivityFlags::of(value.flags & 0x3ff),
    }
}

impl ActivityMetricInstance {
    /// Decodes a raw record.
    pub fn from_raw(value: RawMetricInstance) -> (r: Self)
        ensures
            r == decoded_metric_instance(value),
    {
        ActivityMetricInstance {
            id: MetricId::from(value.id),
            value: MetricValueRaw::from_bits(value.value),
            instance: value.instance,
            correlation_id: CorrelationId::from(value.correlation_id),
            flags: ActivityFlags::from_bits_truncate(value.flags),
        }
    }
}

/// CUDA event recorded on a stream. Record fields as CUPTI fills them.
#[derive(Debug, Clone, Copy, PartialEq, Eq, Structural)]
pub struct RawCudaEvent {
    pub correlation_id: u32,
    pub context_id: u32,
    pub stream_id: u32,
    pub event_id: u32,
    pub device_id: u32,
    pub device_timestamp: u64,
    pub cuda_event_sync_id: u64,
}

/// CUDA event recorded on a stream.
#[derive(Debug, Clone, Copy, PartialEq, Eq, Structural)]
pub struct ActivityCudaEvent {
    pub correlation_id: CorrelationId,
    pub context_id: ContextId,
    pub stream_id: StreamId,
    pub event_id: CudaEventId,
    pub device_id: DeviceId,
    pub device_timestamp: u64,
    pub cuda_event_sync_id: CudaEventSyncId,
}

/// The decoded form of a raw cuda event record.
pub open spec fn decoded_cuda_event(value: RawCudaEvent) -> ActivityCudaEvent {
    ActivityCudaEvent {
        correlation_id: CorrelationId::of(value.correlation_id),
        context_id: ContextId::of(value.context_id),
        stream_id: StreamId::of(value.stream_id as u64),
        event_id: CudaEventId::of(value.event_id),
        device_id: DeviceId::of(value.device_id),
        device_timestamp: value.device_timestamp,
        cuda_event_sync_id: CudaEventSyncId::of(value.cuda_event_sync_id),
    }
}

impl ActivityCudaEvent {
    /// Decodes a raw record.
    pub fn from_raw(value: RawCudaEvent) -> (r: Self)
        ensures
            r == decoded_cuda_event(value),
    {
        ActivityCudaEvent {
            correlation_id: CorrelationId::from(value.correlation_id),
            context_id: ContextId::from(value.context_id),
            stream_id: StreamId::from(value.stream_id),
            event_id: CudaEventId::from(value.event_id),
            device_id: DeviceId::from(value.device_id),
            device_timestamp: value.device_timestamp,
            cuda_event_sync_id: CudaEventSyncId::from(value.cuda_event_sync_id),
        }
    }
}

/// Value of an event collected for a kernel. Record fields as CUPTI fills them.
#[derive(Debug, Clone, Copy, PartialEq, Eq, Structural)]
pub struct RawEvent {
    pub id: u32,
    pub value: u64,
    pub domain_id: u32,
    pub correlation_id: u32,
}

/// Value of an event collected for a kernel.
#[derive(Debug, Clone, Copy, PartialEq, Eq, Structural)]
pub struct ActivityEvent {
    pub id: EventId,
    pub value: u64,
    pub domain_id: EventDomainId,
    pub correlation_id: CorrelationId,
}

/// The decoded form of a raw event record.
pub open spec fn decoded_event(value: RawEvent) -> ActivityEvent {
    ActivityEvent {
        id: EventId::of(value.id),
        value: value.value,
        domain_id: EventDomainId::of(value.domain_id),
        correlation_id: CorrelationId::of(value.correlation_id),
    }
}

impl ActivityEvent {
    /// Decodes a raw record.
    pub fn from_raw(value: RawEvent) -> (r: Self)
        ensures
            r == decoded_event(value),
    {
        ActivityEvent {
            id: EventId::from(value.id),
            value: value.value,
            domain_id: EventDomainId::from(value.domain_id),
            correlation_id: CorrelationId::from(value.correlation_id),
        }
    }
}

/// Value of an event for one domain instance. Record fields as CUPTI fills them.
#[derive(Debug, Clone, Copy, PartialEq, Eq, Structural)]
pub struct RawEventInstance {
    pub id: u32,
    pub domain_id: u32,
    pub instance: u32,
    pub value: u64,
    pub correlation_id: u32,
}

/// Value of an event for one domain instance.
#[derive(Debug, Clone, Copy, PartialEq, Eq, Structural)]
pub struct ActivityEventInstance {
    pub id: EventId,
    pub domain_id: EventDomainId,
    pub instance: u32,
    pub value: u64,
    pub correlation_id: CorrelationId,
}

/// The decoded form of a raw event instance record.
pub open spec fn decoded_event_instance(value: RawEventInstance) -> ActivityEventInstance {
    ActivityEventInstance {
        id: EventId::of(value.id),
        domain_id: EventDomainId::of(value.domain_id),
        instance: value.instance,
        value: value.value,
        correlation_id: CorrelationId::of(value.correlation_id),
    }
}

impl ActivityEventInstance {
    /// Decodes a raw record.
    pub fn from_raw(value: RawEventInstance) -> (r: Self)
        ensures
            r == decoded_event_instance(value),
    {
        ActivityEventInstance {
            id: EventId::from(value.id),
            domain_id: EventDomainId::from(value.domain_id),
            instance: value.instance,
            value: value.value,
            correlation_id: CorrelationId::from(value.correlation_id),
        }
    }
}

/// Event value sampled at a point in time. Record fields as CUPTI fills them.
#[derive(Debug, Clone, Copy, PartialEq, Eq, Structural)]
pub struct RawInstantaneousEvent {
    pub id: u32,
    pub value: u64,
    pub timestamp: u64,
    pub device_id: u32,
}

/// Event value sampled at a point in time.
#[derive(Debug, Clone, Copy, PartialEq, Eq, Structural)]
pub struct ActivityInstantaneousEvent {
    pub id: EventId,
    pub value: u64,
    pub timestamp: u64,
    pub device_id: DeviceId,
}

/// The decoded form of a raw instantaneous event record.
pub open spec fn decoded_instantaneous_event(value: RawInstantaneousEvent) -> ActivityInstantaneousEvent {
    ActivityInstantaneousEvent {
        id: EventId::of(value.id),
        value: value.value,
        timestamp: value.timestamp,
        device_id: DeviceId::of(value.device_id),
    }
}

impl ActivityInstantaneousEvent {
    /// Decodes a raw record.
    pub fn from_raw(value: RawInstantaneousEvent) -> (r: Self)
        ensures
            r == decoded_instantaneous_event(value),
    {
        ActivityInstantaneousEvent {
            id: EventId::from(value.id),
            value: value.value,
            timestamp: value.timestamp,
            device_id: DeviceId::from(value.device_id),
        }
    }
}

/// Event value of one domain instance sampled at a point in time. Record fields as CUPTI fills them.
#[derive(Debug, Clone, Copy, PartialEq, Eq, Structural)]
pub struct RawInstantaneousEventInstance {
    pub id: u32,
    pub value: u64,
    pub timestamp: u64,
    pub device_id: u32,
    pub instance: u8,
}

/// Event value of one domain instance sampled at a point in time.
#[derive(Debug, Clone, Copy, PartialEq, Eq, Structural)]
pub struct ActivityInstantaneousEventInstance {
    pub id: EventId,
    pub value: u64,
    pub timestamp: u64,
    pub device_id: DeviceId,
    pub instance: u8,
}

/// The decoded form of a raw instantaneous event instance record.
pub open spec fn decoded_instantaneous_event_instance(value: RawInstantaneousEventInstance) -> ActivityInstantaneousEventInstance {
    ActivityInstantaneousEventInstance {
        id: EventId::of(value.id),
        value: value.value,
        timestamp: value.timestamp,
        device_id: DeviceId::of(value.device_id),
        instance: value.instance,
    }
}

impl ActivityInstantaneousEventInstance {
    /// Decodes a raw record.
    pub fn from_raw(value: RawInstantaneousEventInstance) -> (r: Self)
        ensures
            r == decoded_instantaneous_event_instance(value),
    {
        ActivityInstantaneousEventInstance {
            id: EventId::from(value.id),
            value: value.value,
            timestamp: value.timestamp,
            device_id: DeviceId::from(value.device_id),
            instance: value.instance,
        }
    }
}

/// Metric value sampled at a point in time. Record fields as CUPTI fills them.
#[derive(Debug, Clone, Copy, PartialEq, Eq, Structural)]
pub struct RawInstantaneousMetric {
    pub id: u32,
    pub value: u64,
    pub timestamp: u64,
    pub device_id: u32,
    pub flags: u32,
}

/// Metric value sampled at a point in time.
#[derive(Debug, Clone, Copy, PartialEq, Eq, Structural)]
pub struct ActivityInstantaneousMetric {
    pub id: MetricId,
    pub value: MetricValueRaw,
    pub timestamp: u64,
    pub device_id: DeviceId,
    pub flags: ActivityFlags,
}

/// The decoded form of a raw instantaneous metric record.
pub open spec fn decoded_instantaneous_metric(value: RawInstantaneousMetric) -> ActivityInstantaneousMetric {
    ActivityInstantaneousMetric {
        id: MetricId::of(value.id),
        value: MetricValueRaw::of(value.value),
        timestamp: value.timestamp,
        device_id: DeviceId::of(value.device_id),
        flags: ActivityFlags::of(value.flags & 0x3ff),
    }
}

impl ActivityInstantaneousMetric {
    /// Decodes a raw record.
    pub fn from_raw(value: RawInstantaneousMetric) -> (r: Self)
        ensures
            r == decoded_instantaneous_metric(value),
    {
        ActivityInstantaneousMetric {
            id: MetricId::from(value.id),
            value: MetricValueRaw::from_bits(value.value),
            timestamp: value.timestamp,
            device_id: DeviceId::from(value.device_id),
            flags: ActivityFlags::from_bits_truncate(value.flags),
        }
    }
}

/// Metric value of one domain instance sampled at a point in time. Record fields as CUPTI fills them.
#[derive(Debug, Clone, Copy, PartialEq, Eq, Structural)]
pub struct RawInstantaneousMetricInstance {
    pub id: u32,
    pub value: u64,
    pub timestamp: u64,
    pub device_id: u32,
    pub flags: u32,
    pub instance: u8,
}

/// Metric value of one domain instance sampled at a point in time.
#[derive(Debug, Clone, Copy, PartialEq, Eq, Structural)]
pub struct ActivityInstantaneousMetricInstance {
    pub id: MetricId,
    pub value: MetricValueRaw,
    pub timestamp: u64,
    pub device_id: DeviceId,
    pub flags: ActivityFlags,
    pub instance: u8,
}

/// The decoded form of a raw instantaneous metric instance record.
pub open spec fn decoded_instantaneous_metric_instance(value: RawInstantaneousMetricInstance) -> ActivityInstantaneousMetricInstance {
    ActivityInstantaneousMetricInstance {
        id: MetricId::of(value.id),
        value: MetricValueRaw::of(value.value),
        timestamp: value.timestamp,
        device_id: DeviceId::of(value.device_id),
        flags: ActivityFlags::of(value.flags & 0x3ff),
        instance: value.instance,
    }
}

impl ActivityInstantaneousMetricInstance {
    /// Decodes a raw record.
    pub fn from_raw(value: RawInstantaneousMetricInstance) -> (r: Self)
        ensures
            r == decoded_instantaneous_metric_instance(value),
    {
        ActivityInstantaneousMetricInstance {
            id: MetricId::from(value.id),
            value: MetricValueRaw::from_bits(value.value),
            timestamp: value.timestamp,
            device_id: DeviceId::from(value.device_id),
            flags: ActivityFlags::from_bits_truncate(value.flags),
            instance: value.instance,
        }
    }
}

/// Global memory access counters of one instruction. Record fields as CUPTI fills them.
#[derive(Debug, Clone, Copy, PartialEq, Eq, Structural)]
pub struct RawGlobalAccess {
    pub flags: u32,
    pub source_locator_id: u32,
    pub correlation_id: u32,
    pub function_id: u32,
    pub executed: u32,
    pub pc_offset: u64,
    pub threads_executed: u64,
    pub l2_transactions: u64,
    pub theoretical_l2_transactions: u64,
}

/// Global memory access counters of one instruction.
#[derive(Debug, Clone, Copy, PartialEq, Eq, Structural)]
pub struct ActivityGlobalAccess {
    pub flags: ActivityFlags,
    pub source_locator_id: SourceLocatorId,
    pub correlation_id: CorrelationId,
    pub function_id: FunctionId,
    pub executed: u32,
    pub pc_offset: u64,
    pub threads_executed: u64,
    pub l2_transactions: u64,
    pub theoretical_l2_transactions: u64,
}

/// The decoded form of a raw global access record.
pub open spec fn decoded_global_access(value: RawGlobalAccess) -> ActivityGlobalAccess {
    ActivityGlobalAccess {
        flags: ActivityFlags::of(value.flags & 0x3ff),
        source_locator_id: SourceLocatorId::of(value.source_locator_id),
        correlation_id: CorrelationId::of(value.correlation_id),
        function_id: FunctionId::of(value.function_id),
        executed: value.executed,
        pc_offset: value.pc_offset,
        threads_executed: value.threads_executed,
        l2_transactions: value.l2_transactions,
        theoretical_l2_transactions: value.theoretical_l2_transactions,
    }
}

impl ActivityGlobalAccess {
    /// Decodes a raw record.
    pub fn from_raw(value: RawGlobalAccess) -> (r: Self)
        ensures
            r == decoded_global_access(value),
    {
        ActivityGlobalAccess {
            flags: ActivityFlags::from_bits_truncate(value.flags),
            source_locator_id: SourceLocatorId::from(value.source_locator_id),
            correlation_id: CorrelationId::from(value.correlation_id),
            function_id: FunctionId::from(value.function_id),
            executed: value.executed,
            pc_offset: value.pc_offset,
            threads_executed: value.threads_executed,
            l2_transactions: value.l2_transactions,
            theoretical_l2_transactions: value.theoretical_l2_transactions,
        }
    }
}

/// Branch counters of one instruction. Record fields as CUPTI fills them.
#[derive(Debug, Clone, Copy, PartialEq, Eq, Structural)]
pub struct RawBranch {
    pub source_locator_id: u32,
    pub correlation_id: u32,
    pub function_id: u32,
    pub pc_offset: u32,
    pub diverged: u32,
    pub threads_executed: u64,
    pub executed: u32,
}

/// Branch counters of one instruction.
#[derive(Debug, Clone, Copy, PartialEq, Eq, Structural)]
pub struct ActivityBranch {
    pub source_locator_id: SourceLocatorId,
    pub correlation_id: CorrelationId,
    pub function_id: FunctionId,
    pub pc_offset: u32,
    pub diverged: u32,
    pub threads_executed: u64,
    pub executed: u32,
}

/// The decoded form of a raw branch record.
pub open spec fn decoded_branch(value: RawBranch) -> ActivityBranch {
    ActivityBranch {
        source_locator_id: SourceLocatorId::of(value.source_locator_id),
        correlation_id: CorrelationId::of(value.correlation_id),
        function_id: FunctionId::of(value.function_id),
        pc_offset: value.pc_offset,
        diverged: value.diverged,
        threads_executed: value.threads_executed,
        executed: value.executed,
    }
}

impl ActivityBranch {
    /// Decodes a raw record.
    pub fn from_raw(value: RawBranch) -> (r: Self)
        ensures
            r == decoded_branch(value),
    {
        ActivityBranch {
            source_locator_id: SourceLocatorId::from(value.source_locator_id),
            correlation_id: CorrelationId::from(value.correlation_id),
            function_id: FunctionId::from(value.function_id),
            pc_offset: value.pc_offset,
            diverged: value.diverged,
            threads_executed: value.threads_executed,
            executed: value.executed,
        }
    }
}

/// Execution counters of one instruction. Record fields as CUPTI fills them.
#[derive(Debug, Clone, Copy, PartialEq, Eq, Structural)]
pub struct RawInstructionExecution {
    pub flags: u32,
    pub source_locator_id: u32,
    pub correlation_id: u32,
    pub function_id: u32,
    pub pc_offset: u32,
    pub threads_executed: u64,
    pub not_predicated_off_threads_executed: u64,
    pub executed: u32,
}

/// Execution counters of one instruction.
#[derive(Debug, Clone, Copy, PartialEq, Eq, Structural)]
pub struct ActivityInstructionExecution {
    pub flags: ActivityFlags,
    pub source_locator_id: SourceLocatorId,
    pub correlation_id: CorrelationId,
    pub function_id: FunctionId,
    pub pc_offset: u32,
    pub threads_executed: u64,
    pub not_predicated_off_threads_executed: u64,
    pub executed: u32,
}

/// The decoded form of a raw instruction execution record.
pub open spec fn decoded_instruction_execution(value: RawInstructionExecution) -> ActivityInstructionExecution {
    ActivityInstructionExecution {
        flags: ActivityFlags::of(value.flags & 0x3ff),
        source_locator_id: SourceLocatorId::of(value.source_locator_id),
        correlation_id: CorrelationId::of(value.correlation_id),
        function_id: FunctionId::of(value.function_id),
        pc_offset: value.pc_offset,
        threads_executed: value.threads_executed,
        not_predicated_off_threads_executed: value.not_predicated_off_threads_executed,
        executed: value.executed,
    }
}

impl ActivityInstructionExecution {
    /// Decodes a raw record.
    pub fn from_raw(value: RawInstructionExecution) -> (r: Self)
        ensures
            r == decoded_instruction_execution(value),
    {
        ActivityInstructionExecution {
            flags: ActivityFlags::from_bits_truncate(value.flags),
            source_locator_id: SourceLocatorId::from(value.source_locator_id),
            correlation_id: CorrelationId::from(value.correlation_id),
            function_id: FunctionId::from(value.function_id),
            pc_offset: value.pc_offset,
            threads_executed: value.threads_executed,
            not_predicated_off_threads_executed: value.not_predicated_off_threads_executed,
            executed: value.executed,
        }
    }
}

/// Summary of PC sampling for one kernel. Record fields as CUPTI fills them.
#[derive(Debug, Clone, Copy, PartialEq, Eq, Structural)]
pub struct RawPcSamplingRecordInfo {
    pub correlation_id: u32,
    pub total_samples: u64,
    pub dropped_samples: u64,
    pub sampling_period_in_cycles: u64,
}

/// Summary of PC sampling for one kernel.
#[derive(Debug, Clone, Copy, PartialEq, Eq, Structural)]
pub struct ActivityPcSamplingRecordInfo {
    pub correlation_id: CorrelationId,
    pub total_samples: u64,
    pub dropped_samples: u64,
    pub sampling_period_in_cycles: u64,
}

/// The decoded form of a raw pc sampling record info record.
pub open spec fn decoded_pc_sampling_record_info(value: RawPcSamplingRecordInfo) -> ActivityPcSamplingRecordInfo {
    ActivityPcSamplingRecordInfo {
        correlation_id: CorrelationId::of(value.correlation_id),
        total_samples: value.total_samples,
        dropped_samples: value.dropped_samples,
        sampling_period_in_cycles: value.sampling_period_in_cycles,
    }
}

impl ActivityPcSamplingRecordInfo {
    /// Decodes a raw record.
    pub fn from_raw(value: RawPcSamplingRecordInfo) -> (r: Self)
        ensures
            r == decoded_pc_sampling_record_info(value),
    {
        ActivityPcSamplingRecordInfo {
            correlation_id: CorrelationId::from(value.correlation_id),
            total_samples: value.total_samples,
            dropped_samples: value.dropped_samples,
            sampling_period_in_cycles: value.sampling_period_in_cycles,
        }
    }
}

/// Source correlation of one instruction. Record fields as CUPTI fills them.
#[derive(Debug, Clone, Copy, PartialEq, Eq, Structural)]
pub struct RawInstructionCorrelation {
    pub flags: u32,
    pub source_locator_id: u32,
    pub function_id: u32,
    pub pc_offset: u32,
}

/// Source correlation of one instruction.
#[derive(Debug, Clone, Copy, PartialEq, Eq, Structural)]
pub struct ActivityInstructionCorrelation {
    pub flags: ActivityFlags,
    pub source_locator_id: SourceLocatorId,
    pub function_id: FunctionId,
    pub pc_offset: u32,
}

/// The decoded form of a raw instruction correlation record.
pub open spec fn decoded_instruction_correlation(value: RawInstructionCorrelation) -> ActivityInstructionCorrelation {
    ActivityInstructionCorrelation {
        flags: ActivityFlags::of(value.flags & 0x3ff),
        source_locator_id: SourceLocatorId::of(value.source_locator_id),
        function_id: FunctionId::of(value.function_id),
        pc_offset: value.pc_offset,
    }
}

impl ActivityInstructionCorrelation {
    /// Decodes a raw record.
    pub fn from_raw(value: RawInstructionCorrelation) -> (r: Self)
        ensures
            r == decoded_instruction_correlation(value),
    {
        ActivityInstructionCorrelation {
            flags: ActivityFlags::from_bits_truncate(value.flags),
            source_locator_id: SourceLocatorId::from(value.source_locator_id),
            function_id: FunctionId::from(value.function_id),
            pc_offset: value.pc_offset,
        }
    }
}

/// Shared memory access counters of one instruction. Record fields as CUPTI fills them.
#[derive(Debug, Clone, Copy, PartialEq, Eq, Structural)]
pub struct RawSharedAccess {
    pub flags: u32,
    pub source_locator_id: u32,
    pub correlation_id: u32,
    pub function_id: u32,
    pub pc_offset: u32,
    pub threads_executed: u64,
    pub shared_transactions: u64,
    pub theoretical_shared_transactions: u64,
    pub executed: u32,
}

/// Shared memory access counters of one instruction.
#[derive(Debug, Clone, Copy, PartialEq, Eq, Structural)]
pub struct ActivitySharedAccess {
    pub flags: ActivityFlags,
    pub source_locator_id: SourceLocatorId,
    pub correlation_id: CorrelationId,
    pub function_id: FunctionId,
    pub pc_offset: u32,
    pub threads_executed: u64,
    pub shared_transactions: u64,
    pub theoretical_shared_transactions: u64,
    pub executed: u32,
}

/// The decoded form of a raw shared access record.
pub open spec fn decoded_shared_access(value: RawSharedAccess) -> ActivitySharedAccess {
    ActivitySharedAccess {
        flags: ActivityFlags::of(value.flags & 0x3ff),
        source_locator_id: SourceLocatorId::of(value.source_locator_id),
        correlation_id: CorrelationId::of(value.correlation_id),
        function_id: FunctionId::of(value.function_id),
        pc_offset: value.pc_offset,
        threads_executed: value.threads_executed,
        shared_transactions: value.shared_transactions,
        theoretical_shared_transactions: value.theoretical_shared_transactions,
        executed: value.executed,
    }
}

impl ActivitySharedAccess {
    /// Decodes a raw record.
    pub fn from_raw(value: RawSharedAccess) -> (r: Self)
        ensures
            r == decoded_shared_access(value),
    {
        ActivitySharedAccess {
            flags: ActivityFlags::from_bits_truncate(value.flags),
            source_locator_id: SourceLocatorId::from(value.source_locator_id),
            correlation_id: CorrelationId::from(value.correlation_id),
            function_id: FunctionId::from(value.function_id),
            pc_offset: value.pc_offset,
            threads_executed: value.threads_executed,
            shared_transactions: value.shared_transactions,
            theoretical_shared_transactions: value.theoretical_shared_transactions,
            executed: value.executed,
        }
    }
}


/// Raw 64 bits of a CUPTI metric value, to be read as the metric's value kind.
#[derive(Debug, Clone, Copy, PartialEq, Eq, Hash, Structural)]
pub struct MetricValueRaw {
    bits: u64,
}

impl View for MetricValueRaw {
    type V = u64;

    closed spec fn view(&self) -> u64 {
        self.bits
    }
}

impl MetricValueRaw {
    /// The value with raw bits `bits`.
    pub closed spec fn of(bits: u64) -> Self {
        MetricValueRaw { bits }
    }

    /// The bits of [`Self::of`] are the bits it was made from.
    pub broadcast proof fn lemma_of_view(bits: u64)
        ensures
            #[trigger] Self::of(bits)@ == bits,
    {
    }

    /// Wraps the raw bits of a metric value union.
    pub fn from_bits(bits: u64) -> (r: Self)
        ensures
            r == Self::of(bits),
            r@ == bits,
    {
        MetricValueRaw { bits }
    }

    /// Returns the raw bits of the metric value union.
    pub fn to_bits(self) -> (r: u64)
        ensures
            r == self@,
    {
        self.bits
    }
}

/// A metric value read as its value kind says. A floating-point value (`Double`,
/// `Percent`) is kept as the IEEE-754 bits of its `f64`.
#[derive(Debug, Clone, Copy, PartialEq, Eq, Hash, Structural)]
pub enum MetricValueBits {
    Double(u64),
    Uint64(u64),
    Percent(u64),
    Throughput(u64),
    Int64(i64),
    UtilizationLevel(MetricValueUtilizationLevel),
    NvtxExtendedPayload(u64),
}

/// The utilization level of the C value `word`, or `ForceInt`, CUPTI's reserved
/// value, for a word that the enum does not define.
pub open spec fn utilization_level_of(word: u32) -> MetricValueUtilizationLevel {
    if exists|v: MetricValueUtilizationLevel| v.raw_value() == word {
        choose|v: MetricValueUtilizationLevel| v.raw_value() == word
    } else {
        MetricValueUtilizationLevel::ForceInt
    }
}

/// The 64 bits of a metric value union read as `kind` says: the whole word for the
/// 64-bit kinds, the word as a signed integer for `Int64`, the low 32 bits (the
/// enum's place on the little-endian machines CUDA runs on) for a utilization
/// level, and an unsigned word for CUPTI's reserved kind.
pub open spec fn metric_value_bits_of(kind: MetricValueKind, bits: u64) -> MetricValueBits {
    match kind {
        MetricValueKind::Double => MetricValueBits::Double(bits),
        MetricValueKind::Uint64 => MetricValueBits::Uint64(bits),
        MetricValueKind::Percent => MetricValueBits::Percent(bits),
        MetricValueKind::Throughput => MetricValueBits::Throughput(bits),
        MetricValueKind::Int64 => MetricValueBits::Int64(bits as i64),
        MetricValueKind::UtilizationLevel => MetricValueBits::UtilizationLevel(
            utilization_level_of(bits as u32),
        ),
        MetricValueKind::NvtxExtendedPayload => MetricValueBits::NvtxExtendedPayload(bits),
        MetricValueKind::ForceInt => MetricValueBits::Uint64(bits),
    }
}

impl MetricValueRaw {
    /// Reads these bits as a metric value of kind `kind`.
    pub fn value_as(self, kind: MetricValueKind) -> (r: MetricValueBits)
        ensures
            r == metric_value_bits_of(kind, self@),
    {
        match kind {
            MetricValueKind::Double => MetricValueBits::Double(self.bits),
            MetricValueKind::Uint64 => MetricValueBits::Uint64(self.bits),
            MetricValueKind::Percent => MetricValueBits::Percent(self.bits),
            MetricValueKind::Throughput => MetricValueBits::Throughput(self.bits),
            MetricValueKind::Int64 => MetricValueBits::Int64(self.bits as i64),
            MetricValueKind::UtilizationLevel => {
                let word = self.bits as u32;
                let level = match MetricValueUtilizationLevel::try_from_raw(word) {
                    Some(level) => level,
                    None => MetricValueUtilizationLevel::ForceInt,
                };
                proof {
                    if exists|v: MetricValueUtilizationLevel| v.raw_value() == word {
                        let c = choose|v: MetricValueUtilizationLevel| v.raw_value() == word;
                        crate::cupti::types::lemma_utilization_level_raw_injective(c, level);
                    }
                }
                MetricValueBits::UtilizationLevel(level)
            },
            MetricValueKind::NvtxExtendedPayload => MetricValueBits::NvtxExtendedPayload(self.bits),
            MetricValueKind::ForceInt => MetricValueBits::Uint64(self.bits),
        }
    }
}

/// Raw 64 bits of a device attribute value, to be read as the attribute's type.
#[derive(Debug, Clone, Copy, PartialEq, Eq, Hash, Structural)]
pub struct ActivityDeviceAttributeValue {
    bits: u64,
}

impl View for ActivityDeviceAttributeValue {
    type V = u64;

    closed spec fn view(&self) -> u64 {
        self.bits
    }
}

impl ActivityDeviceAttributeValue {
    /// The value with raw bits `bits`.
    pub closed spec fn of(bits: u64) -> Self {
        ActivityDeviceAttributeValue { bits }
    }

    /// The bits of [`Self::of`] are the bits it was made from.
    pub broadcast proof fn lemma_of_view(bits: u64)
        ensures
            #[trigger] Self::of(bits)@ == bits,
    {
    }

    /// Wraps the raw bits of a device attribute value union.
    pub fn from_bits(bits: u64) -> (r: Self)
        ensures
            r == Self::of(bits),
            r@ == bits,
    {
        ActivityDeviceAttributeValue { bits }
    }

    /// Returns the raw bits of the value union.
    pub fn to_bits(self) -> (r: u64)
        ensures
            r == self@,
    {
        self.bits
    }

    /// Reads the value as a `u32`: its low 32 bits.
    pub fn as_u32(self) -> (r: u32)
        ensures
            r == self@ % 0x1_0000_0000,
    {
        let b = self.bits;
        let r = b as u32;
        assert(r == b % 0x1_0000_0000) by (bit_vector)
            requires
                r == b as u32,
        ;
        r
    }

    /// Reads the value as a `u64`: all of its bits.
    pub fn as_u64(self) -> (r: u64)
        ensures
            r == self@,
    {
        self.bits
    }

    /// Reads the value as an `i32`: its low 32 bits in two's complement.
    pub fn as_i32(self) -> (r: i32)
        ensures
            r == (if self@ % 0x1_0000_0000 < 0x8000_0000 {
                (self@ % 0x1_0000_0000) as int
            } else {
                self@ % 0x1_0000_0000 - 0x1_0000_0000
            }),
    {
        let b = self.bits;
        let low = b as u32;
        let r = low as i32;
        assert(low == b % 0x1_0000_0000) by (bit_vector)
            requires
                low == b as u32,
        ;
        assert(r == (if low < 0x8000_0000 { low as int } else { low - 0x1_0000_0000 })) by (bit_vector)
            requires
                r == low as i32,
        ;
        r
    }

    /// Reads the value as an `i64`: all of its bits in two's complement.
    pub fn as_i64(self) -> (r: i64)
        ensures
            r == (if self@ < 0x8000_0000_0000_0000 {
                self@ as int
            } else {
                self@ - 0x1_0000_0000_0000_0000
            }),
    {
        let b = self.bits;
        let r = b as i64;
        assert(r == (if b < 0x8000_0000_0000_0000 {
            b as int
        } else {
            b - 0x1_0000_0000_0000_0000
        })) by (bit_vector)
            requires
                r == b as i64,
        ;
        r
    }
}

/// Bytes of a CUDA UUID, as CUPTI stores them in C `char`s.
pub fn uuid_from_raw(value: [i8; 16]) -> (r: [u8; 16])
    ensures
        forall|i: int| 0 <= i < 16 ==> #[trigger] r[i] == value[i] as u8,
{
    let mut out = [0u8; 16];
    let mut i: usize = 0;
    while i < 16
        invariant
            i <= 16,
            forall|j: int| 0 <= j < i ==> #[trigger] out[j] == value[j] as u8,
        decreases 16 - i,
    {
        out[i] = value[i] as u8;
        i += 1;
    }
    out
}

/// Green context record fields as CUPTI fills them.
#[derive(Debug, Clone, Copy, PartialEq, Eq)]
pub struct RawGreenContext {
    pub context_id: u32,
    pub parent_context_id: u32,
    pub device_id: u32,
    pub num_tpcs: u32,
    pub num_multiprocessors: u16,
    pub logical_tpc_mask: [u32; 32],
    pub logical_tpc_mask_size: u8,
}

/// Creation of a green context and the TPCs it owns.
#[derive(Debug, Clone, Copy, PartialEq, Eq)]
pub struct ActivityGreenContext {
    pub context_id: ContextId,
    pub parent_context_id: ContextId,
    pub device_id: DeviceId,
    pub num_tpcs: u32,
    pub num_multiprocessors: u16,
    pub logical_tpc_mask: [u32; 32],
    pub logical_tpc_mask_size: u8,
}

/// The decoded form of a raw green context record.
pub open spec fn decoded_green_context(value: RawGreenContext) -> ActivityGreenContext {
    ActivityGreenContext {
        context_id: ContextId::of(value.context_id),
        parent_context_id: ContextId::of(value.parent_context_id),
        device_id: DeviceId::of(value.device_id),
        num_tpcs: value.num_tpcs,
        num_multiprocessors: value.num_multiprocessors,
        logical_tpc_mask: value.logical_tpc_mask,
        logical_tpc_mask_size: value.logical_tpc_mask_size,
    }
}

/// Whether bit `bit` (0 being the least significant) of `word` is set.
pub open spec fn bit_set(word: u32, bit: u32) -> bool {
    (word >> bit) & 1 == 1
}

impl ActivityGreenContext {
    /// Decodes a raw record.
    pub fn from_raw(value: RawGreenContext) -> (r: Self)
        ensures
            r == decoded_green_context(value),
    {
        ActivityGreenContext {
            context_id: ContextId::from(value.context_id),
            parent_context_id: ContextId::from(value.parent_context_id),
            device_id: DeviceId::from(value.device_id),
            num_tpcs: value.num_tpcs,
            num_multiprocessors: value.num_multiprocessors,
            logical_tpc_mask: value.logical_tpc_mask,
            logical_tpc_mask_size: value.logical_tpc_mask_size,
        }
    }

    /// Number of mask words in use: the recorded size, at most the 32 words the record holds.
    pub open spec fn mask_len(&self) -> nat {
        if self.logical_tpc_mask_size <= 32 { self.logical_tpc_mask_size as nat } else { 32 }
    }

    /// Returns the logical TPC mask words in use.
    pub fn logical_tpc_mask_words(&self) -> (r: &[u32])
        ensures
            r@ == self.logical_tpc_mask@.subrange(0, self.mask_len() as int),
    {
        let len: usize = if self.logical_tpc_mask_size <= 32 {
            self.logical_tpc_mask_size as usize
        } else {
            32
        };
        let words = self.logical_tpc_mask.as_slice();
        &words[0..len]
    }

    /// Returns `true` if the logical TPC `logical_tpc_id` belongs to the green context:
    /// bit `logical_tpc_id % 32` of mask word `logical_tpc_id / 32`, among the words in use.
    pub fn has_logical_tpc(&self, logical_tpc_id: u32) -> (r: bool)
        ensures
            r == ((logical_tpc_id / 32) < self.mask_len()
                && bit_set(self.logical_tpc_mask[(logical_tpc_id / 32) as int], logical_tpc_id % 32)),
    {
        let word = logical_tpc_id / 32;
        let bit = logical_tpc_id % 32;
        let words = self.logical_tpc_mask_words();
        if (word as usize) < words.len() {
            let mask = words[word as usize];
            let set = (mask & (1u32 << bit)) != 0;
            assert(set == ((mask >> bit) & 1 == 1)) by (bit_vector)
                requires
                    bit < 32,
                    set == ((mask & (1u32 << bit)) != 0),
            ;
            set
        } else {
            false
        }
    }
}

/// The object a name or overhead record refers to, as CUPTI fills the union: both
/// readings of the same bytes.
#[derive(Debug, Clone, Copy, PartialEq, Eq, Structural)]
pub struct RawActivityObjectKindId {
    /// `pt.processId`.
    pub process_id: u32,
    /// `pt.threadId`.
    pub thread_id: u32,
    /// `dcs.deviceId`.
    pub device_id: u32,
    /// `dcs.contextId`.
    pub context_id: u32,
    /// `dcs.streamId`.
    pub stream_id: u32,
}

/// Identifier of the object an activity record refers to.
#[derive(Debug, Clone, Copy, PartialEq, Eq, Structural)]
#[non_exhaustive]
pub enum ActivityObjectId {
    Unknown,
    Process { process_id: ProcessId },
    Thread { process_id: ProcessId, thread_id: ThreadId },
    Device { device_id: DeviceId },
    Context { device_id: DeviceId, context_id: ContextId },
    Stream { device_id: DeviceId, context_id: ContextId, stream_id: StreamId },
}

/// The identifier of an object of kind `kind` whose identifier union holds `value`.
pub open spec fn decoded_object_id(kind: ActivityObjectKind, value: RawActivityObjectKindId) -> ActivityObjectId {
    match kind {
        ActivityObjectKind::Process => ActivityObjectId::Process { process_id: ProcessId::of(value.process_id as u64) },
        ActivityObjectKind::Thread => ActivityObjectId::Thread {
            process_id: ProcessId::of(value.process_id as u64),
            thread_id: ThreadId::of(value.thread_id),
        },
        ActivityObjectKind::Device => ActivityObjectId::Device { device_id: DeviceId::of(value.device_id) },
        ActivityObjectKind::Context => ActivityObjectId::Context {
            device_id: DeviceId::of(value.device_id),
            context_id: ContextId::of(value.context_id),
        },
        ActivityObjectKind::Stream => ActivityObjectId::Stream {
            device_id: DeviceId::of(value.device_id),
            context_id: ContextId::of(value.context_id),
            stream_id: StreamId::of(value.stream_id as u64),
        },
        _ => ActivityObjectId::Unknown,
    }
}

impl ActivityObjectId {
    /// Reads the identifier union as the kind of object says.
    pub fn from_raw(kind: ActivityObjectKind, value: RawActivityObjectKindId) -> (r: Self)
        ensures
            r == decoded_object_id(kind, value),
    {
        match kind {
            ActivityObjectKind::Process => ActivityObjectId::Process { process_id: ProcessId::from(value.process_id) },
            ActivityObjectKind::Thread => ActivityObjectId::Thread {
                process_id: ProcessId::from(value.process_id),
                thread_id: ThreadId::from(value.thread_id),
            },
            ActivityObjectKind::Device => ActivityObjectId::Device { device_id: DeviceId::from(value.device_id) },
            ActivityObjectKind::Context => ActivityObjectId::Context {
                device_id: DeviceId::from(value.device_id),
                context_id: ContextId::from(value.context_id),
            },
            ActivityObjectKind::Stream => ActivityObjectId::Stream {
                device_id: DeviceId::from(value.device_id),
                context_id: ContextId::from(value.context_id),
                stream_id: StreamId::from(value.stream_id),
            },
            _ => ActivityObjectId::Unknown,
        }
    }
}

/// Name record fields as CUPTI fills them; `name` holds the bytes of the C string
/// before its nul, `None` for a null pointer.
#[derive(Debug, Clone, PartialEq, Eq)]
pub struct RawName {
    pub object_kind: ActivityObjectKind,
    pub object_id: RawActivityObjectKindId,
    pub name: Option<Vec<u8>>,
}

/// Name given to a process, thread, device, context or stream.
#[derive(Debug, Clone, PartialEq, Eq)]
pub struct ActivityName {
    pub object_kind: ActivityObjectKind,
    pub object_id: ActivityObjectId,
    pub name: Option<Vec<u8>>,
}

/// Whether `r` is the decoded form of the raw name record `value`.
pub open spec fn name_decodes(value: RawName, r: ActivityName) -> bool {
    &&& r.object_kind == value.object_kind
    &&& r.object_id == decoded_object_id(value.object_kind, value.object_id)
    &&& r.name == value.name
}

impl ActivityName {
    /// Decodes a raw record.
    pub fn from_raw(value: RawName) -> (r: Self)
        ensures
            name_decodes(value, r),
    {
        ActivityName {
            object_kind: value.object_kind,
            object_id: ActivityObjectId::from_raw(value.object_kind, value.object_id),
            name: value.name,
        }
    }
}

/// Module record fields as CUPTI fills them; `cubin` holds the `cubin_size` bytes at
/// the cubin pointer, `None` for a null pointer.
#[derive(Debug, Clone, PartialEq, Eq)]
pub struct RawModule {
    pub context_id: u32,
    pub id: u32,
    pub cubin_size: u32,
    pub cubin: Option<Vec<u8>>,
}

/// Loading of a CUDA module and its cubin image.
#[derive(Debug, Clone, PartialEq, Eq)]
pub struct ActivityModule {
    pub context_id: ContextId,
    pub id: ModuleId,
    pub cubin: Option<Vec<u8>>,
}

/// Whether `r` is the decoded form of the raw module record `value`.
pub open spec fn module_decodes(value: RawModule, r: ActivityModule) -> bool {
    &&& r.context_id == ContextId::of(value.context_id)
    &&& r.id == ModuleId::of(value.id)
    &&& r.cubin == (if value.cubin is None || value.cubin_size == 0 { None } else { value.cubin })
}

impl ActivityModule {
    /// Decodes a raw record; a null or empty cubin is reported as absent.
    pub fn from_raw(value: RawModule) -> (r: Self)
        ensures
            module_decodes(value, r),
    {
        let cubin = if value.cubin_size == 0 {
            None
        } else {
            value.cubin
        };
        ActivityModule { context_id: ContextId::from(value.context_id), id: ModuleId::from(value.id), cubin }
    }
}

/// Device graph trace record fields as CUPTI fills them.
#[derive(Debug, Clone, Copy, PartialEq, Eq, Structural)]
pub struct RawDeviceGraphTrace {
    pub device_id: u32,
    pub start: u64,
    pub end: u64,
    pub graph_id: u32,
    pub launcher_graph_id: u32,
    pub device_launch_mode: u32,
    pub context_id: u32,
    pub stream_id: u32,
}

/// CUDA graph launched from the device.
#[derive(Debug, Clone, Copy, PartialEq, Eq, Structural)]
pub struct ActivityDeviceGraphTrace {
    pub device_id: DeviceId,
    pub start: u64,
    pub end: u64,
    pub graph_id: GraphId,
    pub launcher_graph_id: GraphId,
    pub device_launch_mode: DeviceGraphLaunchMode,
    pub context_id: ContextId,
    pub stream_id: StreamId,
}

/// The launch mode with raw value `value`, `Invalid` for a value CUPTI does not define.
pub open spec fn launch_mode_of(value: u32) -> DeviceGraphLaunchMode {
    if exists|m: DeviceGraphLaunchMode| m.raw_value() == value {
        choose|m: DeviceGraphLaunchMode| m.raw_value() == value
    } else {
        DeviceGraphLaunchMode::Invalid
    }
}

/// The decoded form of a raw device graph trace record.
pub open spec fn decoded_device_graph_trace(value: RawDeviceGraphTrace) -> ActivityDeviceGraphTrace {
    ActivityDeviceGraphTrace {
        device_id: DeviceId::of(value.device_id),
        start: value.start,
        end: value.end,
        graph_id: GraphId::of(value.graph_id),
        launcher_graph_id: GraphId::of(value.launcher_graph_id),
        device_launch_mode: launch_mode_of(value.device_launch_mode),
        context_id: ContextId::of(value.context_id),
        stream_id: StreamId::of(value.stream_id as u64),
    }
}

impl ActivityDeviceGraphTrace {
    /// Decodes a raw record; an unknown launch mode decodes as `Invalid`.
    pub fn from_raw(value: RawDeviceGraphTrace) -> (r: Self)
        ensures
            r == decoded_device_graph_trace(value),
    {
        let device_launch_mode = match DeviceGraphLaunchMode::try_from_raw(value.device_launch_mode) {
            Some(mode) => mode,
            None => DeviceGraphLaunchMode::Invalid,
        };
        ActivityDeviceGraphTrace {
            device_id: DeviceId::from(value.device_id),
            start: value.start,
            end: value.end,
            graph_id: GraphId::from(value.graph_id),
            launcher_graph_id: GraphId::from(value.launcher_graph_id),
            device_launch_mode,
            context_id: ContextId::from(value.context_id),
            stream_id: StreamId::from(value.stream_id),
        }
    }
}

/// Environment record fields as CUPTI fills them: the data union read in each of its forms.
#[derive(Debug, Clone, Copy, PartialEq, Eq, Structural)]
pub struct RawEnvironment {
    pub device_id: u32,
    pub timestamp: u64,
    pub environment_kind: ActivityEnvironmentKind,
    /// `data.speed.smClock`.
    pub sm_clock: u32,
    /// `data.speed.memoryClock`.
    pub memory_clock: u32,
    /// `data.speed.pcieLinkGen`.
    pub pcie_link_gen: u32,
    /// `data.speed.pcieLinkWidth`.
    pub pcie_link_width: u32,
    /// `data.speed.clocksThrottleReasons`.
    pub clocks_throttle_reasons: u32,
    /// `data.temperature.gpuTemperature`.
    pub gpu_temperature: u32,
    /// `data.power.power`.
    pub power: u32,
    /// `data.power.powerLimit`.
    pub power_limit: u32,
    /// `data.cooling.fanSpeed`.
    pub fan_speed: u32,
}

/// Clock and link speeds of a device.
#[derive(Debug, Clone, Copy, PartialEq, Eq, Structural)]
pub struct ActivityEnvironmentSpeed {
    pub sm_clock: u32,
    pub memory_clock: u32,
    pub pcie_link_gen: u32,
    pub pcie_link_width: u32,
    pub clocks_throttle_reasons: EnvironmentClocksThrottleReasons,
}

/// Power draw and limit of a device.
#[derive(Debug, Clone, Copy, PartialEq, Eq, Structural)]
pub struct ActivityEnvironmentPower {
    pub power: u32,
    pub power_limit: u32,
}

/// Environment data of the kind the record reports.
#[derive(Debug, Clone, Copy, PartialEq, Eq, Structural)]
#[non_exhaustive]
pub enum ActivityEnvironmentData {
    Unknown,
    Speed(ActivityEnvironmentSpeed),
    Temperature { gpu_temperature: u32 },
    Power(ActivityEnvironmentPower),
    Cooling { fan_speed: u32 },
}

/// Device environment sample.
#[derive(Debug, Clone, Copy, PartialEq, Eq, Structural)]
pub struct ActivityEnvironment {
    pub device_id: DeviceId,
    pub timestamp: u64,
    pub environment_kind: ActivityEnvironmentKind,
    pub data: ActivityEnvironmentData,
}

/// The environment data a raw record holds for its kind.
pub open spec fn decoded_environment_data(value: RawEnvironment) -> ActivityEnvironmentData {
    match value.environment_kind {
        ActivityEnvironmentKind::Speed => ActivityEnvironmentData::Speed(ActivityEnvironmentSpeed {
            sm_clock: value.sm_clock,
            memory_clock: value.memory_clock,
            pcie_link_gen: value.pcie_link_gen,
            pcie_link_width: value.pcie_link_width,
            clocks_throttle_reasons: EnvironmentClocksThrottleReasons::of(value.clocks_throttle_reasons & 0xc000000f),
        }),
        ActivityEnvironmentKind::Temperature => ActivityEnvironmentData::Temperature { gpu_temperature: value.gpu_temperature },
        ActivityEnvironmentKind::Power => ActivityEnvironmentData::Power(ActivityEnvironmentPower {
            power: value.power,
            power_limit: value.power_limit,
        }),
        ActivityEnvironmentKind::Cooling => ActivityEnvironmentData::Cooling { fan_speed: value.fan_speed },
        _ => ActivityEnvironmentData::Unknown,
    }
}

/// Whether `r` is the decoded form of the raw environment record `value`.
pub open spec fn environment_decodes(value: RawEnvironment, r: ActivityEnvironment) -> bool {
    &&& r.device_id == DeviceId::of(value.device_id)
    &&& r.timestamp == value.timestamp
    &&& r.environment_kind == value.environment_kind
    &&& r.data == decoded_environment_data(value)
}

impl ActivityEnvironment {
    /// Decodes a raw record, reading the data union as its kind says.
    pub fn from_raw(value: RawEnvironment) -> (r: Self)
        ensures
            environment_decodes(value, r),
    {
        let data = match value.environment_kind {
            ActivityEnvironmentKind::Speed => ActivityEnvironmentData::Speed(ActivityEnvironmentSpeed {
                sm_clock: value.sm_clock,
                memory_clock: value.memory_clock,
                pcie_link_gen: value.pcie_link_gen,
                pcie_link_width: value.pcie_link_width,
                clocks_throttle_reasons: EnvironmentClocksThrottleReasons::from_bits_truncate(value.clocks_throttle_reasons),
            }),
            ActivityEnvironmentKind::Temperature => ActivityEnvironmentData::Temperature { gpu_temperature: value.gpu_temperature },
            ActivityEnvironmentKind::Power => ActivityEnvironmentData::Power(ActivityEnvironmentPower {
                power: value.power,
                power_limit: value.power_limit,
            }),
            ActivityEnvironmentKind::Cooling => ActivityEnvironmentData::Cooling { fan_speed: value.fan_speed },
            _ => ActivityEnvironmentData::Unknown,
        };
        ActivityEnvironment {
            device_id: DeviceId::from(value.device_id),
            timestamp: value.timestamp,
            environment_kind: value.environment_kind,
            data,
        }
    }
}

/// PCIe record fields as CUPTI fills them: the `id` and `attr` unions read in each of their forms.
#[derive(Debug, Clone, Copy, PartialEq, Eq)]
pub struct RawPcie {
    pub device_type: PcieDeviceType,
    /// `id.devId`.
    pub dev_id: i32,
    /// `id.bridgeId`.
    pub bridge_id: u32,
    pub domain: u32,
    pub pcie_generation: u16,
    pub link_rate: u16,
    pub link_width: u16,
    pub upstream_bus: u16,
    /// `attr.gpuAttr.uuidDev`.
    pub gpu_uuid: [i8; 16],
    /// `attr.gpuAttr.peerDev`.
    pub gpu_peer_devices: [i32; 32],
    /// `attr.bridgeAttr.secondaryBus`.
    pub bridge_secondary_bus: u16,
    /// `attr.bridgeAttr.deviceId`.
    pub bridge_device_id: u16,
    /// `attr.bridgeAttr.vendorId`.
    pub bridge_vendor_id: u16,
}

/// PCIe attributes of a GPU.
#[derive(Debug, Clone, Copy, PartialEq, Eq)]
pub struct ActivityPcieGpuAttributes {
    pub uuid: [u8; 16],
    pub peer_devices: [CudaDevice; 32],
}

/// PCIe attributes of a bridge.
#[derive(Debug, Clone, Copy, PartialEq, Eq, Structural)]
pub struct ActivityPcieBridgeAttributes {
    pub secondary_bus: PcieBusId,
    pub device_id: PcieHardwareDeviceId,
    pub vendor_id: PcieVendorId,
}

/// Identifier of a PCIe device.
#[derive(Debug, Clone, Copy, PartialEq, Eq, Structural)]
#[non_exhaustive]
pub enum ActivityPcieDeviceId {
    Gpu(CudaDevice),
    Bridge(PcieBridgeId),
}

/// Attributes of a PCIe device.
#[derive(Debug, Clone, Copy, PartialEq, Eq)]
#[non_exhaustive]
pub enum ActivityPcieAttributes {
    Gpu(ActivityPcieGpuAttributes),
    Bridge(ActivityPcieBridgeAttributes),
}

/// PCIe topology record of a GPU or bridge.
#[derive(Debug, Clone, Copy, PartialEq, Eq)]
pub struct ActivityPcie {
    pub device_type: PcieDeviceType,
    pub id: ActivityPcieDeviceId,
    pub domain: PcieDomainId,
    pub pcie_generation: u16,
    pub link_rate: u16,
    pub link_width: u16,
    pub upstream_bus: u16,
    pub attributes: ActivityPcieAttributes,
}

/// Peer devices of a GPU, one per raw device ordinal.
pub fn peer_devices_from_raw(value: [i32; 32]) -> (r: [CudaDevice; 32])
    ensures
        forall|i: int| 0 <= i < 32 ==> #[trigger] r[i] == CudaDevice::of(value[i]),
{
    let mut out = [CudaDevice::from(0i32); 32];
    let mut i: usize = 0;
    while i < 32
        invariant
            i <= 32,
            forall|j: int| 0 <= j < i ==> #[trigger] out[j] == CudaDevice::of(value[j]),
        decreases 32 - i,
    {
        out[i] = CudaDevice::from(value[i]);
        i += 1;
    }
    out
}

/// Whether `r` is the decoded form of the raw pcie record `value`.
pub open spec fn pcie_decodes(value: RawPcie, r: ActivityPcie) -> bool {
    &&& r.device_type == value.device_type
    &&& r.domain == PcieDomainId::of(value.domain)
    &&& r.pcie_generation == value.pcie_generation
    &&& r.link_rate == value.link_rate
    &&& r.link_width == value.link_width
    &&& r.upstream_bus == value.upstream_bus
    &&& value.device_type == PcieDeviceType::Gpu ==> {
            &&& r.id == ActivityPcieDeviceId::Gpu(CudaDevice::of(value.dev_id))
            &&& r.attributes matches ActivityPcieAttributes::Gpu(a)
            &&& forall|i: int| 0 <= i < 16 ==> #[trigger] a.uuid[i] == value.gpu_uuid[i] as u8
            &&& forall|i: int| 0 <= i < 32 ==> #[trigger] a.peer_devices[i] == CudaDevice::of(value.gpu_peer_devices[i])
        }
    &&& value.device_type == PcieDeviceType::Bridge ==> {
            &&& r.id == ActivityPcieDeviceId::Bridge(PcieBridgeId::of(value.bridge_id))
            &&& r.attributes == ActivityPcieAttributes::Bridge(ActivityPcieBridgeAttributes {
                secondary_bus: PcieBusId::of(value.bridge_secondary_bus),
                device_id: PcieHardwareDeviceId::of(value.bridge_device_id),
                vendor_id: PcieVendorId::of(value.bridge_vendor_id),
            })
        }
    &&& value.device_type == PcieDeviceType::ForceInt ==> {
            &&& r.id == ActivityPcieDeviceId::Bridge(PcieBridgeId::of(value.bridge_id))
            &&& r.attributes == ActivityPcieAttributes::Bridge(ActivityPcieBridgeAttributes {
                secondary_bus: PcieBusId::of(0),
                device_id: PcieHardwareDeviceId::of(0),
                vendor_id: PcieVendorId::of(0),
            })
        }
}

impl ActivityPcie {
    /// Decodes a raw record, reading the unions as the device type says; a device
    /// type of `ForceInt` reads the bridge identifier with zeroed bridge attributes.
    pub fn from_raw(value: RawPcie) -> (r: Self)
        ensures
            pcie_decodes(value, r),
    {
        let (id, attributes) = match value.device_type {
            PcieDeviceType::Gpu => (
                ActivityPcieDeviceId::Gpu(CudaDevice::from(value.dev_id)),
                ActivityPcieAttributes::Gpu(ActivityPcieGpuAttributes {
                    uuid: uuid_from_raw(value.gpu_uuid),
                    peer_devices: peer_devices_from_raw(value.gpu_peer_devices),
                }),
            ),
            PcieDeviceType::Bridge => (
                ActivityPcieDeviceId::Bridge(PcieBridgeId::from(value.bridge_id)),
                ActivityPcieAttributes::Bridge(ActivityPcieBridgeAttributes {
                    secondary_bus: PcieBusId::from(value.bridge_secondary_bus),
                    device_id: PcieHardwareDeviceId::from(value.bridge_device_id),
                    vendor_id: PcieVendorId::from(value.bridge_vendor_id),
                }),
            ),
            PcieDeviceType::ForceInt => (
                ActivityPcieDeviceId::Bridge(PcieBridgeId::from(value.bridge_id)),
                ActivityPcieAttributes::Bridge(ActivityPcieBridgeAttributes {
                    secondary_bus: PcieBusId::from(0u16),
                    device_id: PcieHardwareDeviceId::from(0u16),
                    vendor_id: PcieVendorId::from(0u16),
                }),
            ),
        };
        ActivityPcie {
            device_type: value.device_type,
            id,
            domain: PcieDomainId::from(value.domain),
            pcie_generation: value.pcie_generation,
            link_rate: value.link_rate,
            link_width: value.link_width,
            upstream_bus: value.upstream_bus,
            attributes,
        }
    }
}

/// Identifier of an NPU.
#[derive(Debug, Clone, Copy, PartialEq, Eq, Structural)]
pub struct ActivityNpuId {
    pub index: u32,
    pub domain_id: NpuDomainId,
}

/// Identifier of the device at one end of an NVLink.
#[derive(Debug, Clone, Copy, PartialEq, Eq)]
#[non_exhaustive]
pub enum ActivityTopologyDeviceId {
    Unknown,
    Gpu { uuid: [u8; 16] },
    Npu(ActivityNpuId),
}

/// The device identifier union of one NVLink end, read in each of its forms.
#[derive(Debug, Clone, Copy, PartialEq, Eq)]
pub struct RawTopologyDeviceId {
    /// `uuidDev`.
    pub uuid: [i8; 16],
    /// `npu.index`.
    pub npu_index: u32,
    /// `npu.domainId`.
    pub npu_domain_id: u32,
}

/// Whether `r` is the identifier union `value` of an NVLink end read as `device_type`
/// says: the UUID for a GPU, index and domain for an NPU, `Unknown` otherwise.
pub open spec fn topology_device_id_decodes(
    device_type: DeviceType,
    value: RawTopologyDeviceId,
    r: ActivityTopologyDeviceId,
) -> bool {
    &&& device_type == DeviceType::Gpu ==> (r matches ActivityTopologyDeviceId::Gpu { uuid }
        && forall|i: int| 0 <= i < 16 ==> #[trigger] uuid[i] == value.uuid[i] as u8)
    &&& device_type == DeviceType::Npu ==> r == ActivityTopologyDeviceId::Npu(ActivityNpuId {
        index: value.npu_index,
        domain_id: NpuDomainId::of(value.npu_domain_id),
    })
    &&& device_type != DeviceType::Gpu && device_type != DeviceType::Npu ==> r == ActivityTopologyDeviceId::Unknown
}

/// Reads the identifier union of an NVLink end as its device type says.
pub fn nvlink_device_id_from_raw(device_type: DeviceType, value: RawTopologyDeviceId) -> (r: ActivityTopologyDeviceId)
    ensures
        topology_device_id_decodes(device_type, value, r),
{
    match device_type {
        DeviceType::Gpu => ActivityTopologyDeviceId::Gpu { uuid: uuid_from_raw(value.uuid) },
        DeviceType::Npu => ActivityTopologyDeviceId::Npu(ActivityNpuId {
            index: value.npu_index,
            domain_id: NpuDomainId::from(value.npu_domain_id),
        }),
        _ => ActivityTopologyDeviceId::Unknown,
    }
}

/// NVLink record fields as CUPTI fills them; each port list holds the
/// `physical_nvlink_count` entries at its pointer, `None` for a null pointer.
#[derive(Debug, Clone, PartialEq, Eq)]
pub struct RawNvLink {
    pub nvlink_version: u32,
    pub type_dev0: DeviceType,
    pub type_dev1: DeviceType,
    pub id_dev0: RawTopologyDeviceId,
    pub id_dev1: RawTopologyDeviceId,
    pub flag: u32,
    pub physical_nvlink_count: u32,
    pub port_dev0: Option<Vec<u32>>,
    pub port_dev1: Option<Vec<u32>>,
    pub bandwidth: u64,
    pub nvswitch_connected: u8,
}

/// NVLink topology record.
#[derive(Debug, Clone, PartialEq, Eq)]
pub struct ActivityNvLink {
    pub version: u32,
    pub device0_type: DeviceType,
    pub device1_type: DeviceType,
    pub device0_id: ActivityTopologyDeviceId,
    pub device1_id: ActivityTopologyDeviceId,
    pub flags: LinkFlags,
    pub physical_link_count: u32,
    pub device0_ports: Option<Vec<u32>>,
    pub device1_ports: Option<Vec<u32>>,
    pub bandwidth: u64,
    pub nvswitch_connected: bool,
}

/// Whether `r` is the decoded form of the raw nvlink record `value`.
pub open spec fn nvlink_decodes(value: RawNvLink, r: ActivityNvLink) -> bool {
    &&& r.version == value.nvlink_version
    &&& r.device0_type == value.type_dev0
    &&& r.device1_type == value.type_dev1
    &&& topology_device_id_decodes(value.type_dev0, value.id_dev0, r.device0_id)
    &&& topology_device_id_decodes(value.type_dev1, value.id_dev1, r.device1_id)
    &&& r.flags == LinkFlags::of(value.flag & 0x1e)
    &&& r.physical_link_count == value.physical_nvlink_count
    &&& r.device0_ports == (if value.physical_nvlink_count == 0 { None } else { value.port_dev0 })
    &&& r.device1_ports == (if value.physical_nvlink_count == 0 { None } else { value.port_dev1 })
    &&& r.bandwidth == value.bandwidth
    &&& r.nvswitch_connected == (value.nvswitch_connected != 0)
}

impl ActivityNvLink {
    /// Decodes a raw record; a null port list, or any port list of a link with no
    /// physical links, is reported as absent.
    pub fn from_raw(value: RawNvLink) -> (r: Self)
        ensures
            nvlink_decodes(value, r),
    {
        let count_is_zero = value.physical_nvlink_count == 0;
        ActivityNvLink {
            version: value.nvlink_version,
            device0_type: value.type_dev0,
            device1_type: value.type_dev1,
            device0_id: nvlink_device_id_from_raw(value.type_dev0, value.id_dev0),
            device1_id: nvlink_device_id_from_raw(value.type_dev1, value.id_dev1),
            flags: LinkFlags::from_bits_truncate(value.flag),
            physical_link_count: value.physical_nvlink_count,
            device0_ports: if count_is_zero { None } else { value.port_dev0 },
            device1_ports: if count_is_zero { None } else { value.port_dev1 },
            bandwidth: value.bandwidth,
            nvswitch_connected: value.nvswitch_connected != 0,
        }
    }
}


/// Extent of a grid, block or cluster in three dimensions.
#[derive(Debug, Clone, Copy, PartialEq, Eq, Hash, Structural)]
pub struct Dim3 {
    pub x: u32,
    pub y: u32,
    pub z: u32,
}

/// The memory copy kind with raw value `value`, `Unknown` for a value CUPTI does not define.
pub open spec fn memory_copy_kind_of(value: u32) -> ActivityMemoryCopyKind {
    if exists|k: ActivityMemoryCopyKind| k.raw_value() == value {
        choose|k: ActivityMemoryCopyKind| k.raw_value() == value
    } else {
        ActivityMemoryCopyKind::Unknown
    }
}

/// Decodes the copy kind of a memory copy record, `Unknown` for a value CUPTI does not define.
pub fn memory_copy_kind_from_raw(value: u32) -> (r: ActivityMemoryCopyKind)
    ensures
        r == memory_copy_kind_of(value),
{
    match ActivityMemoryCopyKind::try_from_raw(value) {
        Some(kind) => kind,
        None => ActivityMemoryCopyKind::Unknown,
    }
}

/// The memory kind with raw value `value`, `Unknown` for a value CUPTI does not define.
pub open spec fn memory_kind_of(value: u32) -> ActivityMemoryKind {
    if exists|k: ActivityMemoryKind| k.raw_value() == value {
        choose|k: ActivityMemoryKind| k.raw_value() == value
    } else {
        ActivityMemoryKind::Unknown
    }
}

/// Decodes a memory kind field, `Unknown` for a value CUPTI does not define.
pub fn memory_kind_from_raw(value: u32) -> (r: ActivityMemoryKind)
    ensures
        r == memory_kind_of(value),
{
    match ActivityMemoryKind::try_from_raw(value) {
        Some(kind) => kind,
        None => ActivityMemoryKind::Unknown,
    }
}

/// The launch type with raw value `value`, `Regular` for a value CUPTI does not define.
pub open spec fn launch_type_of(value: u32) -> ActivityLaunchType {
    if exists|k: ActivityLaunchType| k.raw_value() == value {
        choose|k: ActivityLaunchType| k.raw_value() == value
    } else {
        ActivityLaunchType::Regular
    }
}

/// Decodes the launch type of a kernel record, `Regular` for a value CUPTI does not define.
pub fn launch_type_from_raw(value: u32) -> (r: ActivityLaunchType)
    ensures
        r == launch_type_of(value),
{
    match ActivityLaunchType::try_from_raw(value) {
        Some(kind) => kind,
        None => ActivityLaunchType::Regular,
    }
}

/// The partitioned global cache setting with raw value `value`, `Unknown` for a value
/// CUPTI does not define.
pub open spec fn partitioned_global_cache_config_of(value: u32) -> ActivityPartitionedGlobalCacheConfig {
    if exists|k: ActivityPartitionedGlobalCacheConfig| k.raw_value() == value {
        choose|k: ActivityPartitionedGlobalCacheConfig| k.raw_value() == value
    } else {
        ActivityPartitionedGlobalCacheConfig::Unknown
    }
}

/// Decodes a partitioned global cache setting of a kernel record, `Unknown` for a value
/// CUPTI does not define.
pub fn partitioned_global_cache_config_from_raw(value: u32) -> (r: ActivityPartitionedGlobalCacheConfig)
    ensures
        r == partitioned_global_cache_config_of(value),
{
    match ActivityPartitionedGlobalCacheConfig::try_from_raw(value) {
        Some(config) => config,
        None => ActivityPartitionedGlobalCacheConfig::Unknown,
    }
}

/// The shared memory limit setting with raw value `value`, `Default` for a value CUPTI
/// does not define.
pub open spec fn shared_memory_limit_config_of(value: u32) -> FunctionSharedMemoryLimitConfig {
    if exists|k: FunctionSharedMemoryLimitConfig| k.raw_value() == value {
        choose|k: FunctionSharedMemoryLimitConfig| k.raw_value() == value
    } else {
        FunctionSharedMemoryLimitConfig::Default
    }
}

/// Decodes the shared memory limit setting of a kernel record, `Default` for a value
/// CUPTI does not define.
pub fn shared_memory_limit_config_from_raw(value: u32) -> (r: FunctionSharedMemoryLimitConfig)
    ensures
        r == shared_memory_limit_config_of(value),
{
    match FunctionSharedMemoryLimitConfig::try_from_raw(value) {
        Some(config) => config,
        None => FunctionSharedMemoryLimitConfig::Default,
    }
}

/// The compute API kind with raw value `value`, `Unknown` for a value CUPTI does not define.
pub open spec fn compute_api_kind_of(value: u32) -> ActivityComputeApiKind {
    if exists|k: ActivityComputeApiKind| k.raw_value() == value {
        choose|k: ActivityComputeApiKind| k.raw_value() == value
    } else {
        ActivityComputeApiKind::Unknown
    }
}

/// Decodes the compute API kind of a context record, `Unknown` for a value CUPTI does not define.
pub fn compute_api_kind_from_raw(value: u32) -> (r: ActivityComputeApiKind)
    ensures
        r == compute_api_kind_of(value),
{
    match ActivityComputeApiKind::try_from_raw(value) {
        Some(kind) => kind,
        None => ActivityComputeApiKind::Unknown,
    }
}

/// Memory pool configuration fields of a memory record as CUPTI fills them; `pool`
/// holds the pool union, read as its size or as its process identifier.
#[derive(Debug, Clone, Copy, PartialEq, Eq, Structural)]
pub struct RawMemoryPoolConfig {
    pub memory_pool_type: ActivityMemoryPoolType,
    pub address: u64,
    pub pool: u64,
    pub release_threshold: u64,
    pub utilized_size: u64,
}

/// Memory pool configuration of a memory record.
#[derive(Debug, Clone, Copy, PartialEq, Eq, Structural)]
pub struct ActivityMemoryPoolConfig {
    pub pool_type: ActivityMemoryPoolType,
    pub address: u64,
    pub data: ActivityMemoryPoolConfigData,
}

/// What the memory pool union holds, by pool type.
#[derive(Debug, Clone, Copy, PartialEq, Eq, Structural)]
#[non_exhaustive]
pub enum ActivityMemoryPoolConfigData {
    Local { size: u64, release_threshold: u64, utilized_size: u64 },
    Imported { process_id: ProcessId },
    Unknown { raw_value: u64, release_threshold: u64, utilized_size: u64 },
}

/// The decoded form of a raw memory pool configuration.
pub open spec fn decoded_memory_pool_config(value: RawMemoryPoolConfig) -> ActivityMemoryPoolConfig {
    ActivityMemoryPoolConfig {
        pool_type: value.memory_pool_type,
        address: value.address,
        data: match value.memory_pool_type {
            ActivityMemoryPoolType::Local => ActivityMemoryPoolConfigData::Local {
                size: value.pool,
                release_threshold: value.release_threshold,
                utilized_size: value.utilized_size,
            },
            ActivityMemoryPoolType::Imported => ActivityMemoryPoolConfigData::Imported {
                process_id: ProcessId::of(value.pool),
            },
            _ => ActivityMemoryPoolConfigData::Unknown {
                raw_value: value.pool,
                release_threshold: value.release_threshold,
                utilized_size: value.utilized_size,
            },
        },
    }
}

impl ActivityMemoryPoolConfig {
    /// Decodes a raw configuration, reading the pool union as the pool type says.
    pub fn from_raw(value: RawMemoryPoolConfig) -> (r: Self)
        ensures
            r == decoded_memory_pool_config(value),
    {
        let data = match value.memory_pool_type {
            ActivityMemoryPoolType::Local => ActivityMemoryPoolConfigData::Local {
                size: value.pool,
                release_threshold: value.release_threshold,
                utilized_size: value.utilized_size,
            },
            ActivityMemoryPoolType::Imported => ActivityMemoryPoolConfigData::Imported {
                process_id: ProcessId::from(value.pool),
            },
            _ => ActivityMemoryPoolConfigData::Unknown {
                raw_value: value.pool,
                release_threshold: value.release_threshold,
                utilized_size: value.utilized_size,
            },
        };
        ActivityMemoryPoolConfig { pool_type: value.memory_pool_type, address: value.address, data }
    }
}

/// The unified memory access type with raw value `value`, `Unknown` for a value CUPTI does not define.
pub open spec fn access_type_of(value: u32) -> ActivityUnifiedMemoryAccessType {
    if exists|k: ActivityUnifiedMemoryAccessType| k.raw_value() == value {
        choose|k: ActivityUnifiedMemoryAccessType| k.raw_value() == value
    } else {
        ActivityUnifiedMemoryAccessType::Unknown
    }
}

/// The migration cause with raw value `value`, `Unknown` for a value CUPTI does not define.
pub open spec fn migration_cause_of(value: u32) -> ActivityUnifiedMemoryMigrationCause {
    if exists|k: ActivityUnifiedMemoryMigrationCause| k.raw_value() == value {
        choose|k: ActivityUnifiedMemoryMigrationCause| k.raw_value() == value
    } else {
        ActivityUnifiedMemoryMigrationCause::Unknown
    }
}

/// The remote map cause with raw value `value`, `Unknown` for a value CUPTI does not define.
pub open spec fn remote_map_cause_of(value: u32) -> ActivityUnifiedMemoryRemoteMapCause {
    if exists|k: ActivityUnifiedMemoryRemoteMapCause| k.raw_value() == value {
        choose|k: ActivityUnifiedMemoryRemoteMapCause| k.raw_value() == value
    } else {
        ActivityUnifiedMemoryRemoteMapCause::Unknown
    }
}

/// The flag word of a unified memory counter record, read as its counter kind says.
#[derive(Debug, Clone, Copy, PartialEq, Eq, Structural)]
#[non_exhaustive]
pub enum ActivityUnifiedMemoryCounterFlags {
    AccessType(ActivityUnifiedMemoryAccessType),
    MigrationCause(ActivityUnifiedMemoryMigrationCause),
    RemoteMapCause(ActivityUnifiedMemoryRemoteMapCause),
    Activity(ActivityFlags),
    Raw(u32),
}

/// The flag word `flags` of a counter of kind `kind`, read as that kind says.
pub open spec fn decoded_counter_flags(
    kind: ActivityUnifiedMemoryCounterKind,
    flags: u32,
) -> ActivityUnifiedMemoryCounterFlags {
    match kind {
        ActivityUnifiedMemoryCounterKind::GpuPageFault => ActivityUnifiedMemoryCounterFlags::AccessType(
            access_type_of(flags),
        ),
        ActivityUnifiedMemoryCounterKind::BytesTransferHostToDevice
        | ActivityUnifiedMemoryCounterKind::BytesTransferDeviceToHost
        | ActivityUnifiedMemoryCounterKind::BytesTransferDeviceToDevice => {
            ActivityUnifiedMemoryCounterFlags::MigrationCause(migration_cause_of(flags))
        },
        ActivityUnifiedMemoryCounterKind::RemoteMap => ActivityUnifiedMemoryCounterFlags::RemoteMapCause(
            remote_map_cause_of(flags),
        ),
        ActivityUnifiedMemoryCounterKind::Thrashing
        | ActivityUnifiedMemoryCounterKind::Throttling => ActivityUnifiedMemoryCounterFlags::Activity(
            ActivityFlags::of(flags & 0x3ff),
        ),
        _ => ActivityUnifiedMemoryCounterFlags::Raw(flags),
    }
}

impl ActivityUnifiedMemoryCounterFlags {
    /// Reads the flag word of a counter of kind `kind`: an access type for GPU page
    /// faults, a migration cause for transfers, a remote map cause for remote maps,
    /// activity flags for thrashing and throttling, and the raw word otherwise; a
    /// value that the chosen enum does not define reads as its `Unknown`.
    pub fn from_raw(kind: ActivityUnifiedMemoryCounterKind, flags: u32) -> (r: Self)
        ensures
            r == decoded_counter_flags(kind, flags),
    {
        match kind {
            ActivityUnifiedMemoryCounterKind::GpuPageFault => {
                let access = match ActivityUnifiedMemoryAccessType::try_from_raw(flags) {
                    Some(v) => v,
                    None => ActivityUnifiedMemoryAccessType::Unknown,
                };
                ActivityUnifiedMemoryCounterFlags::AccessType(access)
            },
            ActivityUnifiedMemoryCounterKind::BytesTransferHostToDevice
            | ActivityUnifiedMemoryCounterKind::BytesTransferDeviceToHost
            | ActivityUnifiedMemoryCounterKind::BytesTransferDeviceToDevice => {
                let cause = match ActivityUnifiedMemoryMigrationCause::try_from_raw(flags) {
                    Some(v) => v,
                    None => ActivityUnifiedMemoryMigrationCause::Unknown,
                };
                ActivityUnifiedMemoryCounterFlags::MigrationCause(cause)
            },
            ActivityUnifiedMemoryCounterKind::RemoteMap => {
                let cause = match ActivityUnifiedMemoryRemoteMapCause::try_from_raw(flags) {
                    Some(v) => v,
                    None => ActivityUnifiedMemoryRemoteMapCause::Unknown,
                };
                ActivityUnifiedMemoryCounterFlags::RemoteMapCause(cause)
            },
            ActivityUnifiedMemoryCounterKind::Thrashing
            | ActivityUnifiedMemoryCounterKind::Throttling => ActivityUnifiedMemoryCounterFlags::Activity(
                ActivityFlags::from_bits_truncate(flags),
            ),
            _ => ActivityUnifiedMemoryCounterFlags::Raw(flags),
        }
    }
}

/// Unified memory counter record fields as CUPTI fills them.
#[derive(Debug, Clone, Copy, PartialEq, Eq)]
pub struct RawUnifiedMemoryCounter {
    pub counter_kind: ActivityUnifiedMemoryCounterKind,
    pub value: u64,
    pub start: u64,
    pub end: u64,
    pub address: u64,
    pub src_id: u32,
    pub dst_id: u32,
    pub stream_id: u32,
    pub process_id: u32,
    pub flags: u32,
    pub processors: [u64; 5],
}

/// Unified memory counter sample.
#[derive(Debug, Clone, Copy, PartialEq, Eq)]
pub struct ActivityUnifiedMemoryCounter {
    pub counter_kind: ActivityUnifiedMemoryCounterKind,
    pub value: u64,
    pub start: u64,
    pub end: u64,
    pub address: u64,
    pub source_id: UnifiedMemoryProcessorId,
    pub destination_id: UnifiedMemoryProcessorId,
    pub stream_id: StreamId,
    pub process_id: ProcessId,
    pub flags: ActivityUnifiedMemoryCounterFlags,
    pub processors: [u64; 5],
}

/// Whether `r` is the decoded form of the raw unified memory counter record `value`.
pub open spec fn unified_memory_counter_decodes(
    value: RawUnifiedMemoryCounter,
    r: ActivityUnifiedMemoryCounter,
) -> bool {
    &&& r.counter_kind == value.counter_kind
    &&& r.value == value.value
    &&& r.start == value.start
    &&& r.end == value.end
    &&& r.address == value.address
    &&& r.source_id == UnifiedMemoryProcessorId::of(value.src_id)
    &&& r.destination_id == UnifiedMemoryProcessorId::of(value.dst_id)
    &&& r.stream_id == StreamId::of(value.stream_id as u64)
    &&& r.process_id == ProcessId::of(value.process_id as u64)
    &&& r.flags == decoded_counter_flags(value.counter_kind, value.flags)
    &&& r.processors == value.processors
}

impl ActivityUnifiedMemoryCounter {
    /// Decodes a raw record, reading its flag word as its counter kind says.
    pub fn from_raw(value: RawUnifiedMemoryCounter) -> (r: Self)
        ensures
            unified_memory_counter_decodes(value, r),
    {
        ActivityUnifiedMemoryCounter {
            counter_kind: value.counter_kind,
            value: value.value,
            start: value.start,
            end: value.end,
            address: value.address,
            source_id: UnifiedMemoryProcessorId::from(value.src_id),
            destination_id: UnifiedMemoryProcessorId::from(value.dst_id),
            stream_id: StreamId::from(value.stream_id),
            process_id: ProcessId::from(value.process_id),
            flags: ActivityUnifiedMemoryCounterFlags::from_raw(value.counter_kind, value.flags),
            processors: value.processors,
        }
    }
}

/// Which attribute a device attribute record reports.
#[derive(Debug, Clone, Copy, PartialEq, Eq, Structural)]
#[non_exhaustive]
pub enum ActivityDeviceAttributeKind {
    Cupti(DeviceAttribute),
    Cuda(CudaDeviceAttribute),
}

/// Device attribute record fields as CUPTI fills them; the attribute union is read
/// both as a CUDA driver attribute number and as a CUPTI device attribute.
#[derive(Debug, Clone, Copy, PartialEq, Eq, Structural)]
pub struct RawDeviceAttribute {
    pub flags: u32,
    pub device_id: u32,
    pub attribute_cu: u32,
    pub attribute_cupti: DeviceAttribute,
    pub value: u64,
}

/// Value of one device attribute.
#[derive(Debug, Clone, Copy, PartialEq, Eq, Structural)]
pub struct ActivityDeviceAttribute {
    pub flags: ActivityFlags,
    pub device_id: DeviceId,
    pub attribute: ActivityDeviceAttributeKind,
    pub value: ActivityDeviceAttributeValue,
}

/// The decoded form of a raw device attribute record: a CUDA driver attribute when
/// the record's flags mark one, a CUPTI device attribute otherwise.
pub open spec fn decoded_device_attribute(value: RawDeviceAttribute) -> ActivityDeviceAttribute {
    let flags = ActivityFlags::of(value.flags & 0x3ff);
    ActivityDeviceAttribute {
        flags,
        device_id: DeviceId::of(value.device_id),
        attribute: if flags@ & ActivityFlags::DEVICE_ATTRIBUTE_CUDEVICE == ActivityFlags::DEVICE_ATTRIBUTE_CUDEVICE {
            ActivityDeviceAttributeKind::Cuda(CudaDeviceAttribute::of(value.attribute_cu))
        } else {
            ActivityDeviceAttributeKind::Cupti(value.attribute_cupti)
        },
        value: ActivityDeviceAttributeValue::of(value.value),
    }
}

impl ActivityDeviceAttribute {
    /// Decodes a raw record.
    pub fn from_raw(value: RawDeviceAttribute) -> (r: Self)
        ensures
            r == decoded_device_attribute(value),
    {
        let flags = ActivityFlags::from_bits_truncate(value.flags);
        let attribute = if flags.contains(ActivityFlags::DEVICE_ATTRIBUTE_CUDEVICE) {
            ActivityDeviceAttributeKind::Cuda(CudaDeviceAttribute::from(value.attribute_cu))
        } else {
            ActivityDeviceAttributeKind::Cupti(value.attribute_cupti)
        };
        ActivityDeviceAttribute {
            flags,
            device_id: DeviceId::from(value.device_id),
            attribute,
            value: ActivityDeviceAttributeValue::from_bits(value.value),
        }
    }
}

/// Driver, runtime or internal launch API call. Record fields as CUPTI fills them.
#[derive(Debug, Clone, Copy, PartialEq, Eq, Structural)]
pub struct RawApi {
    pub kind: ActivityKind,
    pub callback_id: u32,
    pub start: u64,
    pub end: u64,
    pub process_id: u32,
    pub thread_id: u32,
    pub correlation_id: u32,
    pub return_value: u32,
}

/// Driver, runtime or internal launch API call.
#[derive(Debug, Clone, Copy, PartialEq, Eq, Structural)]
pub struct ActivityApi {
    pub kind: ActivityKind,
    pub callback_id: CallbackId,
    pub start: u64,
    pub end: u64,
    pub process_id: ProcessId,
    pub thread_id: ThreadId,
    pub correlation_id: CorrelationId,
    pub return_value: u32,
}

/// The decoded form of a raw api record.
pub open spec fn decoded_api(value: RawApi) -> ActivityApi {
    ActivityApi {
        kind: value.kind,
        callback_id: CallbackId::of(value.callback_id),
        start: value.start,
        end: value.end,
        process_id: ProcessId::of(value.process_id as u64),
        thread_id: ThreadId::of(value.thread_id),
        correlation_id: CorrelationId::of(value.correlation_id),
        return_value: value.return_value,
    }
}

impl ActivityApi {
    /// Decodes a raw record.
    pub fn from_raw(value: RawApi) -> (r: Self)
        ensures
            r == decoded_api(value),
    {
        ActivityApi {
            kind: value.kind,
            callback_id: CallbackId::from(value.callback_id),
            start: value.start,
            end: value.end,
            process_id: ProcessId::from(value.process_id),
            thread_id: ThreadId::from(value.thread_id),
            correlation_id: CorrelationId::from(value.correlation_id),
            return_value: value.return_value,
        }
    }
}

/// Creation of a CUDA stream. Record fields as CUPTI fills them.
#[derive(Debug, Clone, Copy, PartialEq, Eq, Structural)]
pub struct RawStream {
    pub context_id: u32,
    pub stream_id: u32,
    pub priority: u32,
    pub flag: ActivityStreamFlag,
    pub correlation_id: u32,
}

/// Creation of a CUDA stream.
#[derive(Debug, Clone, Copy, PartialEq, Eq, Structural)]
pub struct ActivityStream {
    pub context_id: ContextId,
    pub stream_id: StreamId,
    pub priority: u32,
    pub flag: ActivityStreamFlag,
    pub correlation_id: CorrelationId,
}

/// The decoded form of a raw stream record.
pub open spec fn decoded_stream(value: RawStream) -> ActivityStream {
    ActivityStream {
        context_id: ContextId::of(value.context_id),
        stream_id: StreamId::of(value.stream_id as u64),
        priority: value.priority,
        flag: value.flag,
        correlation_id: CorrelationId::of(value.correlation_id),
    }
}

impl ActivityStream {
    /// Decodes a raw record.
    pub fn from_raw(value: RawStream) -> (r: Self)
        ensures
            r == decoded_stream(value),
    {
        ActivityStream {
            context_id: ContextId::from(value.context_id),
            stream_id: StreamId::from(value.stream_id),
            priority: value.priority,
            flag: value.flag,
            correlation_id: CorrelationId::from(value.correlation_id),
        }
    }
}

/// Synchronization between host and device, or between streams. Record fields as CUPTI fills them.
#[derive(Debug, Clone, Copy, PartialEq, Eq, Structural)]
pub struct RawSynchronization {
    pub synchronization_type: ActivitySynchronizationType,
    pub start: u64,
    pub end: u64,
    pub correlation_id: u32,
    pub context_id: u32,
    pub stream_id: u32,
    pub cuda_event_id: u32,
    pub cuda_event_sync_id: u64,
    pub return_value: u32,
}

/// Synchronization between host and device, or between streams.
#[derive(Debug, Clone, Copy, PartialEq, Eq, Structural)]
pub struct ActivitySynchronization {
    pub synchronization_type: ActivitySynchronizationType,
    pub start: u64,
    pub end: u64,
    pub correlation_id: CorrelationId,
    pub context_id: ContextId,
    pub stream_id: StreamId,
    pub cuda_event_id: CudaEventId,
    pub cuda_event_sync_id: CudaEventSyncId,
    pub return_value: u32,
}

/// The decoded form of a raw synchronization record.
pub open spec fn decoded_synchronization(value: RawSynchronization) -> ActivitySynchronization {
    ActivitySynchronization {
        synchronization_type: value.synchronization_type,
        start: value.start,
        end: value.end,
        correlation_id: CorrelationId::of(value.correlation_id),
        context_id: ContextId::of(value.context_id),
        stream_id: StreamId::of(value.stream_id as u64),
        cuda_event_id: CudaEventId::of(value.cuda_event_id),
        cuda_event_sync_id: CudaEventSyncId::of(value.cuda_event_sync_id),
        return_value: value.return_value,
    }
}

impl ActivitySynchronization {
    /// Decodes a raw record.
    pub fn from_raw(value: RawSynchronization) -> (r: Self)
        ensures
            r == decoded_synchronization(value),
    {
        ActivitySynchronization {
            synchronization_type: value.synchronization_type,
            start: value.start,
            end: value.end,
            correlation_id: CorrelationId::from(value.correlation_id),
            context_id: ContextId::from(value.context_id),
            stream_id: StreamId::from(value.stream_id),
            cuda_event_id: CudaEventId::from(value.cuda_event_id),
            cuda_event_sync_id: CudaEventSyncId::from(value.cuda_event_sync_id),
            return_value: value.return_value,
        }
    }
}

/// Allocation or release of memory. Record fields as CUPTI fills them; each string is the bytes before the
/// terminating nul at its pointer, `None` for a null pointer.
#[derive(Debug, Clone, PartialEq, Eq)]
pub struct RawMemory {
    pub operation_type: ActivityMemoryOperationType,
    pub memory_kind: ActivityMemoryKind,
    pub correlation_id: u32,
    pub address: u64,
    pub bytes: u64,
    pub timestamp: u64,
    pub pc: u64,
    pub process_id: u32,
    pub device_id: u32,
    pub context_id: u32,
    pub stream_id: u32,
    pub name: Option<Vec<u8>>,
    pub is_asynchronous: u32,
    pub memory_pool_config: RawMemoryPoolConfig,
    pub source: Option<Vec<u8>>,
}

/// Allocation or release of memory.
#[derive(Debug, Clone, PartialEq, Eq)]
pub struct ActivityMemory {
    pub operation_type: ActivityMemoryOperationType,
    pub memory_kind: ActivityMemoryKind,
    pub correlation_id: CorrelationId,
    pub address: u64,
    pub bytes: u64,
    pub timestamp: u64,
    pub pc: u64,
    pub process_id: ProcessId,
    pub device_id: DeviceId,
    pub context_id: ContextId,
    pub stream_id: StreamId,
    pub name: Option<Vec<u8>>,
    pub is_asynchronous: bool,
    pub memory_pool_config: ActivityMemoryPoolConfig,
    pub source: Option<Vec<u8>>,
}

/// The decoded form of a raw memory record.
pub open spec fn decoded_memory(value: RawMemory) -> ActivityMemory {
    ActivityMemory {
        operation_type: value.operation_type,
        memory_kind: value.memory_kind,
        correlation_id: CorrelationId::of(value.correlation_id),
        address: value.address,
        bytes: value.bytes,
        timestamp: value.timestamp,
        pc: value.pc,
        process_id: ProcessId::of(value.process_id as u64),
        device_id: DeviceId::of(value.device_id),
        context_id: ContextId::of(value.context_id),
        stream_id: StreamId::of(value.stream_id as u64),
        name: value.name,
        is_asynchronous: value.is_asynchronous != 0,
        memory_pool_config: decoded_memory_pool_config(value.memory_pool_config),
        source: value.source,
    }
}

impl ActivityMemory {
    /// Decodes a raw record.
    pub fn from_raw(value: RawMemory) -> (r: Self)
        ensures
            r == decoded_memory(value),
    {
        ActivityMemory {
            operation_type: value.operation_type,
            memory_kind: value.memory_kind,
            correlation_id: CorrelationId::from(value.correlation_id),
            address: value.address,
            bytes: value.bytes,
            timestamp: value.timestamp,
            pc: value.pc,
            process_id: ProcessId::from(value.process_id),
            device_id: DeviceId::from(value.device_id),
            context_id: ContextId::from(value.context_id),
            stream_id: StreamId::from(value.stream_id),
            name: value.name,
            is_asynchronous: value.is_asynchronous != 0,
            memory_pool_config: ActivityMemoryPoolConfig::from_raw(value.memory_pool_config),
            source: value.source,
        }
    }
}

/// Lifetime of a memory allocation, in the older memory record layout. Record fields as CUPTI fills them; each string is the bytes before the
/// terminating nul at its pointer, `None` for a null pointer.
#[derive(Debug, Clone, PartialEq, Eq)]
pub struct RawLegacyMemory {
    pub memory_kind: ActivityMemoryKind,
    pub address: u64,
    pub bytes: u64,
    pub start: u64,
    pub end: u64,
    pub allocation_pc: u64,
    pub free_pc: u64,
    pub process_id: u32,
    pub device_id: u32,
    pub context_id: u32,
    pub name: Option<Vec<u8>>,
}

/// Lifetime of a memory allocation, in the older memory record layout.
#[derive(Debug, Clone, PartialEq, Eq)]
pub struct ActivityLegacyMemory {
    pub memory_kind: ActivityMemoryKind,
    pub address: u64,
    pub bytes: u64,
    pub start: u64,
    pub end: u64,
    pub allocation_pc: u64,
    pub free_pc: u64,
    pub process_id: ProcessId,
    pub device_id: DeviceId,
    pub context_id: ContextId,
    pub name: Option<Vec<u8>>,
}

/// The decoded form of a raw legacy memory record.
pub open spec fn decoded_legacy_memory(value: RawLegacyMemory) -> ActivityLegacyMemory {
    ActivityLegacyMemory {
        memory_kind: value.memory_kind,
        address: value.address,
        bytes: value.bytes,
        start: value.start,
        end: value.end,
        allocation_pc: value.allocation_pc,
        free_pc: value.free_pc,
        process_id: ProcessId::of(value.process_id as u64),
        device_id: DeviceId::of(value.device_id),
        context_id: ContextId::of(value.context_id),
        name: value.name,
    }
}

impl ActivityLegacyMemory {
    /// Decodes a raw record.
    pub fn from_raw(value: RawLegacyMemory) -> (r: Self)
        ensures
            r == decoded_legacy_memory(value),
    {
        ActivityLegacyMemory {
            memory_kind: value.memory_kind,
            address: value.address,
            bytes: value.bytes,
            start: value.start,
            end: value.end,
            allocation_pc: value.allocation_pc,
            free_pc: value.free_pc,
            process_id: ProcessId::from(value.process_id),
            device_id: DeviceId::from(value.device_id),
            context_id: ContextId::from(value.context_id),
            name: value.name,
        }
    }
}

/// Creation, destruction or trimming of a memory pool. Record fields as CUPTI fills them.
#[derive(Debug, Clone, Copy, PartialEq, Eq, Structural)]
pub struct RawMemoryPool {
    pub operation_type: ActivityMemoryPoolOperationType,
    pub pool_type: ActivityMemoryPoolType,
    pub correlation_id: u32,
    pub process_id: u32,
    pub device_id: u32,
    pub min_bytes_to_keep: u64,
    pub address: u64,
    pub size: u64,
    pub release_threshold: u64,
    pub timestamp: u64,
    pub utilized_size: u64,
    pub is_managed_pool: u32,
}

/// Creation, destruction or trimming of a memory pool.
#[derive(Debug, Clone, Copy, PartialEq, Eq, Structural)]
pub struct ActivityMemoryPool {
    pub operation_type: ActivityMemoryPoolOperationType,
    pub pool_type: ActivityMemoryPoolType,
    pub correlation_id: CorrelationId,
    pub process_id: ProcessId,
    pub device_id: DeviceId,
    pub min_bytes_to_keep: u64,
    pub address: u64,
    pub size: u64,
    pub release_threshold: u64,
    pub timestamp: u64,
    pub utilized_size: u64,
    pub is_managed_pool: bool,
}

/// The decoded form of a raw memory pool record.
pub open spec fn decoded_memory_pool(value: RawMemoryPool) -> ActivityMemoryPool {
    ActivityMemoryPool {
        operation_type: value.operation_type,
        pool_type: value.pool_type,
        correlation_id: CorrelationId::of(value.correlation_id),
        process_id: ProcessId::of(value.process_id as u64),
        device_id: DeviceId::of(value.device_id),
        min_bytes_to_keep: value.min_bytes_to_keep,
        address: value.address,
        size: value.size,
        release_threshold: value.release_threshold,
        timestamp: value.timestamp,
        utilized_size: value.utilized_size,
        is_managed_pool: value.is_managed_pool != 0,
    }
}

impl ActivityMemoryPool {
    /// Decodes a raw record.
    pub fn from_raw(value: RawMemoryPool) -> (r: Self)
        ensures
            r == decoded_memory_pool(value),
    {
        ActivityMemoryPool {
            operation_type: value.operation_type,
            pool_type: value.pool_type,
            correlation_id: CorrelationId::from(value.correlation_id),
            process_id: ProcessId::from(value.process_id),
            device_id: DeviceId::from(value.device_id),
            min_bytes_to_keep: value.min_bytes_to_keep,
            address: value.address,
            size: value.size,
            release_threshold: value.release_threshold,
            timestamp: value.timestamp,
            utilized_size: value.utilized_size,
            is_managed_pool: value.is_managed_pool != 0,
        }
    }
}

/// Context switch of a compute engine. Record fields as CUPTI fills them.
#[derive(Debug, Clone, Copy, PartialEq, Eq, Structural)]
pub struct RawComputeEngineContextSwitch {
    pub context_id: u32,
    pub timestamp: u64,
    pub operation_type: ComputeEngineContextSwitchOperationType,
}

/// Context switch of a compute engine.
#[derive(Debug, Clone, Copy, PartialEq, Eq, Structural)]
pub struct ActivityComputeEngineContextSwitch {
    pub context_id: ContextId,
    pub timestamp: u64,
    pub operation_type: ComputeEngineContextSwitchOperationType,
}

/// The decoded form of a raw compute engine context switch record.
pub open spec fn decoded_compute_engine_context_switch(value: RawComputeEngineContextSwitch) -> ActivityComputeEngineContextSwitch {
    ActivityComputeEngineContextSwitch {
        context_id: ContextId::of(value.context_id),
        timestamp: value.timestamp,
        operation_type: value.operation_type,
    }
}

impl ActivityComputeEngineContextSwitch {
    /// Decodes a raw record.
    pub fn from_raw(value: RawComputeEngineContextSwitch) -> (r: Self)
        ensures
            r == decoded_compute_engine_context_switch(value),
    {
        ActivityComputeEngineContextSwitch {
            context_id: ContextId::from(value.context_id),
            timestamp: value.timestamp,
            operation_type: value.operation_type,
        }
    }
}

/// Instantaneous marker or the start or end of a marked range. Record fields as CUPTI fills them; each string is the bytes before the
/// terminating nul at its pointer, `None` for a null pointer.
#[derive(Debug, Clone, PartialEq, Eq)]
pub struct RawMarker {
    pub flags: u32,
    pub timestamp: u64,
    pub id: u32,
    pub object_kind: ActivityObjectKind,
    pub object_id: RawActivityObjectKindId,
    pub name: Option<Vec<u8>>,
    pub domain: Option<Vec<u8>>,
}

/// Instantaneous marker or the start or end of a marked range.
#[derive(Debug, Clone, PartialEq, Eq)]
pub struct ActivityMarker {
    pub flags: ActivityFlags,
    pub timestamp: u64,
    pub id: ActivityMarkerId,
    pub object_kind: ActivityObjectKind,
    pub object_id: ActivityObjectId,
    pub name: Option<Vec<u8>>,
    pub domain: Option<Vec<u8>>,
}

/// The decoded form of a raw marker record.
pub open spec fn decoded_marker(value: RawMarker) -> ActivityMarker {
    ActivityMarker {
        flags: ActivityFlags::of(value.flags & 0x3ff),
        timestamp: value.timestamp,
        id: ActivityMarkerId::of(value.id),
        object_kind: value.object_kind,
        object_id: decoded_object_id(value.object_kind, value.object_id),
        name: value.name,
        domain: value.domain,
    }
}

impl ActivityMarker {
    /// Decodes a raw record.
    pub fn from_raw(value: RawMarker) -> (r: Self)
        ensures
            r == decoded_marker(value),
    {
        ActivityMarker {
            flags: ActivityFlags::from_bits_truncate(value.flags),
            timestamp: value.timestamp,
            id: ActivityMarkerId::from(value.id),
            object_kind: value.object_kind,
            object_id: ActivityObjectId::from_raw(value.object_kind, value.object_id),
            name: value.name,
            domain: value.domain,
        }
    }
}

/// Correlation of a CUPTI correlation identifier with an external one. Record fields as CUPTI fills them.
#[derive(Debug, Clone, Copy, PartialEq, Eq, Structural)]
pub struct RawExternalCorrelation {
    pub external_kind: ExternalCorrelationKind,
    pub external_id: u64,
    pub correlation_id: u32,
}

/// Correlation of a CUPTI correlation identifier with an external one.
#[derive(Debug, Clone, Copy, PartialEq, Eq, Structural)]
pub struct ActivityExternalCorrelation {
    pub external_kind: ExternalCorrelationKind,
    pub external_id: ExternalCorrelationId,
    pub correlation_id: CorrelationId,
}

/// The decoded form of a raw external correlation record.
pub open spec fn decoded_external_correlation(value: RawExternalCorrelation) -> ActivityExternalCorrelation {
    ActivityExternalCorrelation {
        external_kind: value.external_kind,
        external_id: ExternalCorrelationId::of(value.external_id),
        correlation_id: CorrelationId::of(value.correlation_id),
    }
}

impl ActivityExternalCorrelation {
    /// Decodes a raw record.
    pub fn from_raw(value: RawExternalCorrelation) -> (r: Self)
        ensures
            r == decoded_external_correlation(value),
    {
        ActivityExternalCorrelation {
            external_kind: value.external_kind,
            external_id: ExternalCorrelationId::from(value.external_id),
            correlation_id: CorrelationId::from(value.correlation_id),
        }
    }
}

/// Payload and presentation data of a marker. Record fields as CUPTI fills them.
#[derive(Debug, Clone, Copy, PartialEq, Eq, Structural)]
pub struct RawMarkerData {
    pub flags: u32,
    pub id: u32,
    pub payload_kind: MetricValueKind,
    pub payload: u64,
    pub color: u32,
    pub category: u32,
    pub cupti_domain_id: u32,
}

/// Payload and presentation data of a marker.
#[derive(Debug, Clone, Copy, PartialEq, Eq, Structural)]
pub struct ActivityMarkerData {
    pub flags: ActivityFlags,
    pub id: ActivityMarkerId,
    pub payload_kind: MetricValueKind,
    pub payload: MetricValueRaw,
    pub color: u32,
    pub category: u32,
    pub cupti_domain_id: CuptiDomainId,
}

/// The decoded form of a raw marker data record.
pub open spec fn decoded_marker_data(value: RawMarkerData) -> ActivityMarkerData {
    ActivityMarkerData {
        flags: ActivityFlags::of(value.flags & 0x3ff),
        id: ActivityMarkerId::of(value.id),
        payload_kind: value.payload_kind,
        payload: MetricValueRaw::of(value.payload),
        color: value.color,
        category: value.category,
        cupti_domain_id: CuptiDomainId::of(value.cupti_domain_id),
    }
}

impl ActivityMarkerData {
    /// Decodes a raw record.
    pub fn from_raw(value: RawMarkerData) -> (r: Self)
        ensures
            r == decoded_marker_data(value),
    {
        ActivityMarkerData {
            flags: ActivityFlags::from_bits_truncate(value.flags),
            id: ActivityMarkerId::from(value.id),
            payload_kind: value.payload_kind,
            payload: MetricValueRaw::from_bits(value.payload),
            color: value.color,
            category: value.category,
            cupti_domain_id: CuptiDomainId::from(value.cupti_domain_id),
        }
    }
}

/// Creation of a CUDA context. Record fields as CUPTI fills them.
#[derive(Debug, Clone, Copy, PartialEq, Eq, Structural)]
pub struct RawContext {
    pub context_id: u32,
    pub device_id: u32,
    pub compute_api_kind: u16,
    pub null_stream_id: u32,
    pub parent_context_id: u32,
    pub is_green_context: u8,
    pub num_multiprocessors: u16,
    pub cig_mode: ContextCigMode,
    pub process_id: u32,
}

/// Creation of a CUDA context.
#[derive(Debug, Clone, Copy, PartialEq, Eq, Structural)]
pub struct ActivityContext {
    pub context_id: ContextId,
    pub device_id: DeviceId,
    pub compute_api_kind: ActivityComputeApiKind,
    pub null_stream_id: StreamId,
    pub parent_context_id: ContextId,
    pub is_green_context: bool,
    pub num_multiprocessors: u16,
    pub cig_mode: ContextCigMode,
    pub process_id: ProcessId,
}

/// The decoded form of a raw context record.
pub open spec fn decoded_context(value: RawContext) -> ActivityContext {
    ActivityContext {
        context_id: ContextId::of(value.context_id),
        device_id: DeviceId::of(value.device_id),
        compute_api_kind: compute_api_kind_of(value.compute_api_kind as u32),
        null_stream_id: StreamId::of(value.null_stream_id as u64),
        parent_context_id: ContextId::of(value.parent_context_id),
        is_green_context: value.is_green_context != 0,
        num_multiprocessors: value.num_multiprocessors,
        cig_mode: value.cig_mode,
        process_id: ProcessId::of(value.process_id as u64),
    }
}

impl ActivityContext {
    /// Decodes a raw record.
    pub fn from_raw(value: RawContext) -> (r: Self)
        ensures
            r == decoded_context(value),
    {
        ActivityContext {
            context_id: ContextId::from(value.context_id),
            device_id: DeviceId::from(value.device_id),
            compute_api_kind: compute_api_kind_from_raw(value.compute_api_kind as u32),
            null_stream_id: StreamId::from(value.null_stream_id),
            parent_context_id: ContextId::from(value.parent_context_id),
            is_green_context: value.is_green_context != 0,
            num_multiprocessors: value.num_multiprocessors,
            cig_mode: value.cig_mode,
            process_id: ProcessId::from(value.process_id),
        }
    }
}

/// Program counter sample. Record fields as CUPTI fills them.
#[derive(Debug, Clone, Copy, PartialEq, Eq, Structural)]
pub struct RawPcSampling {
    pub flags: u32,
    pub source_locator_id: u32,
    pub correlation_id: u32,
    pub function_id: u32,
    pub latency_samples: u32,
    pub samples: u32,
    pub stall_reason: ActivityPcSamplingStallReason,
    pub pc_offset: u64,
}

/// Program counter sample.
#[derive(Debug, Clone, Copy, PartialEq, Eq, Structural)]
pub struct ActivityPcSampling {
    pub flags: ActivityFlags,
    pub source_locator_id: SourceLocatorId,
    pub correlation_id: CorrelationId,
    pub function_id: FunctionId,
    pub latency_samples: u32,
    pub samples: u32,
    pub stall_reason: ActivityPcSamplingStallReason,
    pub pc_offset: u64,
}

/// The decoded form of a raw pc sampling record.
pub open spec fn decoded_pc_sampling(value: RawPcSampling) -> ActivityPcSampling {
    ActivityPcSampling {
        flags: ActivityFlags::of(value.flags & 0x3ff),
        source_locator_id: SourceLocatorId::of(value.source_locator_id),
        correlation_id: CorrelationId::of(value.correlation_id),
        function_id: FunctionId::of(value.function_id),
        latency_samples: value.latency_samples,
        samples: value.samples,
        stall_reason: value.stall_reason,
        pc_offset: value.pc_offset,
    }
}

impl ActivityPcSampling {
    /// Decodes a raw record.
    pub fn from_raw(value: RawPcSampling) -> (r: Self)
        ensures
            r == decoded_pc_sampling(value),
    {
        ActivityPcSampling {
            flags: ActivityFlags::from_bits_truncate(value.flags),
            source_locator_id: SourceLocatorId::from(value.source_locator_id),
            correlation_id: CorrelationId::from(value.correlation_id),
            function_id: FunctionId::from(value.function_id),
            latency_samples: value.latency_samples,
            samples: value.samples,
            stall_reason: value.stall_reason,
            pc_offset: value.pc_offset,
        }
    }
}

/// Properties of a CUDA device. Record fields as CUPTI fills them; each string is the bytes before the
/// terminating nul at its pointer, `None` for a null pointer.
#[derive(Debug, Clone, PartialEq, Eq)]
pub struct RawDevice {
    pub flags: u32,
    pub global_memory_bandwidth: u64,
    pub global_memory_size: u64,
    pub constant_memory_size: u32,
    pub l2_cache_size: u32,
    pub num_threads_per_warp: u32,
    pub core_clock_rate: u32,
    pub num_memory_copy_engines: u32,
    pub num_multiprocessors: u32,
    pub max_instructions_per_cycle: u32,
    pub max_warps_per_multiprocessor: u32,
    pub max_blocks_per_multiprocessor: u32,
    pub max_shared_memory_per_multiprocessor: u32,
    pub max_registers_per_multiprocessor: u32,
    pub max_registers_per_block: u32,
    pub max_shared_memory_per_block: u32,
    pub max_threads_per_block: u32,
    pub max_block_dim_x: u32,
    pub max_block_dim_y: u32,
    pub max_block_dim_z: u32,
    pub max_grid_dim_x: u32,
    pub max_grid_dim_y: u32,
    pub max_grid_dim_z: u32,
    pub compute_capability_major: u32,
    pub compute_capability_minor: u32,
    pub device_id: u32,
    pub ecc_enabled: u32,
    pub uuid: [i8; 16],
    pub name: Option<Vec<u8>>,
    pub is_cuda_visible: u8,
    pub is_mig_enabled: u8,
    pub gpu_instance_id: u32,
    pub compute_instance_id: u32,
    pub mig_uuid: [i8; 16],
    pub is_non_uniform_memory_access_node: u32,
    pub non_uniform_memory_access_id: u32,
    pub num_tpcs: u32,
}

/// Properties of a CUDA device.
#[derive(Debug, Clone, PartialEq, Eq)]
pub struct ActivityDevice {
    pub flags: ActivityFlags,
    pub global_memory_bandwidth: u64,
    pub global_memory_size: u64,
    pub constant_memory_size: u32,
    pub l2_cache_size: u32,
    pub num_threads_per_warp: u32,
    pub core_clock_rate: u32,
    pub num_memory_copy_engines: u32,
    pub num_multiprocessors: u32,
    pub max_instructions_per_cycle: u32,
    pub max_warps_per_multiprocessor: u32,
    pub max_blocks_per_multiprocessor: u32,
    pub max_shared_memory_per_multiprocessor: u32,
    pub max_registers_per_multiprocessor: u32,
    pub max_registers_per_block: u32,
    pub max_shared_memory_per_block: u32,
    pub max_threads_per_block: u32,
    pub max_block_dim: Dim3,
    pub max_grid_dim: Dim3,
    pub compute_capability_major: u32,
    pub compute_capability_minor: u32,
    pub device_id: DeviceId,
    pub ecc_enabled: bool,
    pub uuid: [u8; 16],
    pub name: Option<Vec<u8>>,
    pub is_cuda_visible: bool,
    pub is_mig_enabled: bool,
    pub gpu_instance_id: GpuInstanceId,
    pub compute_instance_id: ComputeInstanceId,
    pub mig_uuid: [u8; 16],
    pub is_non_uniform_memory_access_node: bool,
    pub non_uniform_memory_access_id: NonUniformMemoryAccessId,
    pub num_tpcs: u32,
}

/// Whether `r` is the decoded form of the raw device record `value`.
pub open spec fn device_decodes(value: RawDevice, r: ActivityDevice) -> bool {
    &&& r.flags == ActivityFlags::of(value.flags & 0x3ff)
    &&& r.global_memory_bandwidth == value.global_memory_bandwidth
    &&& r.global_memory_size == value.global_memory_size
    &&& r.constant_memory_size == value.constant_memory_size
    &&& r.l2_cache_size == value.l2_cache_size
    &&& r.num_threads_per_warp == value.num_threads_per_warp
    &&& r.core_clock_rate == value.core_clock_rate
    &&& r.num_memory_copy_engines == value.num_memory_copy_engines
    &&& r.num_multiprocessors == value.num_multiprocessors
    &&& r.max_instructions_per_cycle == value.max_instructions_per_cycle
    &&& r.max_warps_per_multiprocessor == value.max_warps_per_multiprocessor
    &&& r.max_blocks_per_multiprocessor == value.max_blocks_per_multiprocessor
    &&& r.max_shared_memory_per_multiprocessor == value.max_shared_memory_per_multiprocessor
    &&& r.max_registers_per_multiprocessor == value.max_registers_per_multiprocessor
    &&& r.max_registers_per_block == value.max_registers_per_block
    &&& r.max_shared_memory_per_block == value.max_shared_memory_per_block
    &&& r.max_threads_per_block == value.max_threads_per_block
    &&& r.max_block_dim == Dim3 { x: value.max_block_dim_x, y: value.max_block_dim_y, z: value.max_block_dim_z }
    &&& r.max_grid_dim == Dim3 { x: value.max_grid_dim_x, y: value.max_grid_dim_y, z: value.max_grid_dim_z }
    &&& r.compute_capability_major == value.compute_capability_major
    &&& r.compute_capability_minor == value.compute_capability_minor
    &&& r.device_id == DeviceId::of(value.device_id)
    &&& r.ecc_enabled == (value.ecc_enabled != 0)
    &&& forall|i: int| 0 <= i < 16 ==> #[trigger] r.uuid[i] == value.uuid[i] as u8
    &&& r.name == value.name
    &&& r.is_cuda_visible == (value.is_cuda_visible != 0)
    &&& r.is_mig_enabled == (value.is_mig_enabled != 0)
    &&& r.gpu_instance_id == GpuInstanceId::of(value.gpu_instance_id)
    &&& r.compute_instance_id == ComputeInstanceId::of(value.compute_instance_id)
    &&& forall|i: int| 0 <= i < 16 ==> #[trigger] r.mig_uuid[i] == value.mig_uuid[i] as u8
    &&& r.is_non_uniform_memory_access_node == (value.is_non_uniform_memory_access_node != 0)
    &&& r.non_uniform_memory_access_id == NonUniformMemoryAccessId::of(value.non_uniform_memory_access_id)
    &&& r.num_tpcs == value.num_tpcs
}

impl ActivityDevice {
    /// Decodes a raw record.
    pub fn from_raw(value: RawDevice) -> (r: Self)
        ensures
            device_decodes(value, r),
    {
        let uuid = uuid_from_raw(value.uuid);
        let mig_uuid = uuid_from_raw(value.mig_uuid);
        ActivityDevice {
            flags: ActivityFlags::from_bits_truncate(value.flags),
            global_memory_bandwidth: value.global_memory_bandwidth,
            global_memory_size: value.global_memory_size,
            constant_memory_size: value.constant_memory_size,
            l2_cache_size: value.l2_cache_size,
            num_threads_per_warp: value.num_threads_per_warp,
            core_clock_rate: value.core_clock_rate,
            num_memory_copy_engines: value.num_memory_copy_engines,
            num_multiprocessors: value.num_multiprocessors,
            max_instructions_per_cycle: value.max_instructions_per_cycle,
            max_warps_per_multiprocessor: value.max_warps_per_multiprocessor,
            max_blocks_per_multiprocessor: value.max_blocks_per_multiprocessor,
            max_shared_memory_per_multiprocessor: value.max_shared_memory_per_multiprocessor,
            max_registers_per_multiprocessor: value.max_registers_per_multiprocessor,
            max_registers_per_block: value.max_registers_per_block,
            max_shared_memory_per_block: value.max_shared_memory_per_block,
            max_threads_per_block: value.max_threads_per_block,
            max_block_dim: Dim3 { x: value.max_block_dim_x, y: value.max_block_dim_y, z: value.max_block_dim_z },
            max_grid_dim: Dim3 { x: value.max_grid_dim_x, y: value.max_grid_dim_y, z: value.max_grid_dim_z },
            compute_capability_major: value.compute_capability_major,
            compute_capability_minor: value.compute_capability_minor,
            device_id: DeviceId::from(value.device_id),
            ecc_enabled: value.ecc_enabled != 0,
            uuid,
            name: value.name,
            is_cuda_visible: value.is_cuda_visible != 0,
            is_mig_enabled: value.is_mig_enabled != 0,
            gpu_instance_id: GpuInstanceId::from(value.gpu_instance_id),
            compute_instance_id: ComputeInstanceId::from(value.compute_instance_id),
            mig_uuid,
            is_non_uniform_memory_access_node: value.is_non_uniform_memory_access_node != 0,
            non_uniform_memory_access_id: NonUniformMemoryAccessId::from(value.non_uniform_memory_access_id),
            num_tpcs: value.num_tpcs,
        }
    }
}

/// Just-in-time compilation, or a load or store of the compilation cache. Record fields as CUPTI fills them; each string is the bytes before the
/// terminating nul at its pointer, `None` for a null pointer.
#[derive(Debug, Clone, PartialEq, Eq)]
pub struct RawJit {
    pub entry_type: ActivityJitEntryType,
    pub operation_type: ActivityJitOperationType,
    pub device_id: u32,
    pub start: u64,
    pub end: u64,
    pub correlation_id: u32,
    pub operation_correlation_id: u64,
    pub cache_size: u64,
    pub cache_path: Option<Vec<u8>>,
    pub process_id: u32,
    pub thread_id: u32,
}

/// Just-in-time compilation, or a load or store of the compilation cache.
#[derive(Debug, Clone, PartialEq, Eq)]
pub struct ActivityJit {
    pub entry_type: ActivityJitEntryType,
    pub operation_type: ActivityJitOperationType,
    pub device_id: DeviceId,
    pub start: u64,
    pub end: u64,
    pub correlation_id: CorrelationId,
    pub operation_correlation_id: JitOperationCorrelationId,
    pub cache_size: u64,
    pub cache_path: Option<Vec<u8>>,
    pub process_id: ProcessId,
    pub thread_id: ThreadId,
}

/// The decoded form of a raw jit record.
pub open spec fn decoded_jit(value: RawJit) -> ActivityJit {
    ActivityJit {
        entry_type: value.entry_type,
        operation_type: value.operation_type,
        device_id: DeviceId::of(value.device_id),
        start: value.start,
        end: value.end,
        correlation_id: CorrelationId::of(value.correlation_id),
        operation_correlation_id: JitOperationCorrelationId::of(value.operation_correlation_id),
        cache_size: value.cache_size,
        cache_path: value.cache_path,
        process_id: ProcessId::of(value.process_id as u64),
        thread_id: ThreadId::of(value.thread_id),
    }
}

impl ActivityJit {
    /// Decodes a raw record.
    pub fn from_raw(value: RawJit) -> (r: Self)
        ensures
            r == decoded_jit(value),
    {
        ActivityJit {
            entry_type: value.entry_type,
            operation_type: value.operation_type,
            device_id: DeviceId::from(value.device_id),
            start: value.start,
            end: value.end,
            correlation_id: CorrelationId::from(value.correlation_id),
            operation_correlation_id: JitOperationCorrelationId::from(value.operation_correlation_id),
            cache_size: value.cache_size,
            cache_path: value.cache_path,
            process_id: ProcessId::from(value.process_id),
            thread_id: ThreadId::from(value.thread_id),
        }
    }
}

/// OpenMP region or task. Record fields as CUPTI fills them.
#[derive(Debug, Clone, Copy, PartialEq, Eq, Structural)]
pub struct RawOpenMultiProcessing {
    pub event_kind: OpenMultiProcessingEventKind,
    pub version: u32,
    pub thread_id: u32,
    pub start: u64,
    pub end: u64,
    pub process_id: u32,
    pub cu_thread_id: u32,
}

/// OpenMP region or task.
#[derive(Debug, Clone, Copy, PartialEq, Eq, Structural)]
pub struct ActivityOpenMultiProcessing {
    pub event_kind: OpenMultiProcessingEventKind,
    pub version: u32,
    pub thread_id: ThreadId,
    pub start: u64,
    pub end: u64,
    pub process_id: ProcessId,
    pub cu_thread_id: ThreadId,
}

/// The decoded form of a raw open multi processing record.
pub open spec fn decoded_open_multi_processing(value: RawOpenMultiProcessing) -> ActivityOpenMultiProcessing {
    ActivityOpenMultiProcessing {
        event_kind: value.event_kind,
        version: value.version,
        thread_id: ThreadId::of(value.thread_id),
        start: value.start,
        end: value.end,
        process_id: ProcessId::of(value.process_id as u64),
        cu_thread_id: ThreadId::of(value.cu_thread_id),
    }
}

impl ActivityOpenMultiProcessing {
    /// Decodes a raw record.
    pub fn from_raw(value: RawOpenMultiProcessing) -> (r: Self)
        ensures
            r == decoded_open_multi_processing(value),
    {
        ActivityOpenMultiProcessing {
            event_kind: value.event_kind,
            version: value.version,
            thread_id: ThreadId::from(value.thread_id),
            start: value.start,
            end: value.end,
            process_id: ProcessId::from(value.process_id),
            cu_thread_id: ThreadId::from(value.cu_thread_id),
        }
    }
}

/// Fields shared by the OpenACC activity records. Record fields as CUPTI fills them; each string is the bytes before the
/// terminating nul at its pointer, `None` for a null pointer.
#[derive(Debug, Clone, PartialEq, Eq)]
pub struct RawOpenAccBase {
    pub event_kind: OpenAccEventKind,
    pub parent_construct: OpenAccConstructKind,
    pub version: u32,
    pub implicit: u32,
    pub device_type: u32,
    pub device_number: u32,
    pub thread_id: u32,
    pub asynchronous_id: u64,
    pub asynchronous_map: u64,
    pub line_number: u32,
    pub end_line_number: u32,
    pub function_line_number: u32,
    pub function_end_line_number: u32,
    pub start: u64,
    pub end: u64,
    pub cuda_device_id: u32,
    pub cuda_context_id: u32,
    pub cuda_stream_id: u32,
    pub process_id: u32,
    pub cuda_thread_id: u32,
    pub external_id: u64,
    pub source_file: Option<Vec<u8>>,
    pub function_name: Option<Vec<u8>>,
}

/// Fields shared by the OpenACC activity records.
#[derive(Debug, Clone, PartialEq, Eq)]
pub struct ActivityOpenAccBase {
    pub event_kind: OpenAccEventKind,
    pub parent_construct: OpenAccConstructKind,
    pub version: u32,
    pub implicit: bool,
    pub device_type: OpenAccDeviceTypeId,
    pub device_number: OpenAccDeviceNumber,
    pub thread_id: ThreadId,
    pub asynchronous_id: OpenAccAsynchronousId,
    pub asynchronous_map: u64,
    pub line_number: u32,
    pub end_line_number: u32,
    pub function_line_number: u32,
    pub function_end_line_number: u32,
    pub start: u64,
    pub end: u64,
    pub cuda_device_id: DeviceId,
    pub cuda_context_id: ContextId,
    pub cuda_stream_id: StreamId,
    pub process_id: ProcessId,
    pub cuda_thread_id: ThreadId,
    pub external_id: ExternalCorrelationId,
    pub source_file: Option<Vec<u8>>,
    pub function_name: Option<Vec<u8>>,
}

/// The decoded form of a raw open acc base record.
pub open spec fn decoded_open_acc_base(value: RawOpenAccBase) -> ActivityOpenAccBase {
    ActivityOpenAccBase {
        event_kind: value.event_kind,
        parent_construct: value.parent_construct,
        version: value.version,
        implicit: value.implicit != 0,
        device_type: OpenAccDeviceTypeId::of(value.device_type),
        device_number: OpenAccDeviceNumber::of(value.device_number),
        thread_id: ThreadId::of(value.thread_id),
        asynchronous_id: OpenAccAsynchronousId::of(value.asynchronous_id),
        asynchronous_map: value.asynchronous_map,
        line_number: value.line_number,
        end_line_number: value.end_line_number,
        function_line_number: value.function_line_number,
        function_end_line_number: value.function_end_line_number,
        start: value.start,
        end: value.end,
        cuda_device_id: DeviceId::of(value.cuda_device_id),
        cuda_context_id: ContextId::of(value.cuda_context_id),
        cuda_stream_id: StreamId::of(value.cuda_stream_id as u64),
        process_id: ProcessId::of(value.process_id as u64),
        cuda_thread_id: ThreadId::of(value.cuda_thread_id),
        external_id: ExternalCorrelationId::of(value.external_id),
        source_file: value.source_file,
        function_name: value.function_name,
    }
}

impl ActivityOpenAccBase {
    /// Decodes a raw record.
    pub fn from_raw(value: RawOpenAccBase) -> (r: Self)
        ensures
            r == decoded_open_acc_base(value),
    {
        ActivityOpenAccBase {
            event_kind: value.event_kind,
            parent_construct: value.parent_construct,
            version: value.version,
            implicit: value.implicit != 0,
            device_type: OpenAccDeviceTypeId::from(value.device_type),
            device_number: OpenAccDeviceNumber::from(value.device_number),
            thread_id: ThreadId::from(value.thread_id),
            asynchronous_id: OpenAccAsynchronousId::from(value.asynchronous_id),
            asynchronous_map: value.asynchronous_map,
            line_number: value.line_number,
            end_line_number: value.end_line_number,
            function_line_number: value.function_line_number,
            function_end_line_number: value.function_end_line_number,
            start: value.start,
            end: value.end,
            cuda_device_id: DeviceId::from(value.cuda_device_id),
            cuda_context_id: ContextId::from(value.cuda_context_id),
            cuda_stream_id: StreamId::from(value.cuda_stream_id),
            process_id: ProcessId::from(value.process_id),
            cuda_thread_id: ThreadId::from(value.cuda_thread_id),
            external_id: ExternalCorrelationId::from(value.external_id),
            source_file: value.source_file,
            function_name: value.function_name,
        }
    }
}

/// OpenACC data event. Record fields as CUPTI fills them; each string is the bytes before the
/// terminating nul at its pointer, `None` for a null pointer.
#[derive(Debug, Clone, PartialEq, Eq)]
pub struct RawOpenAccData {
    pub base: RawOpenAccBase,
    pub bytes: u64,
    pub host_ptr: u64,
    pub device_ptr: u64,
    pub variable_name: Option<Vec<u8>>,
}

/// OpenACC data event.
#[derive(Debug, Clone, PartialEq, Eq)]
pub struct ActivityOpenAccData {
    pub base: ActivityOpenAccBase,
    pub bytes: u64,
    pub host_ptr: u64,
    pub device_ptr: u64,
    pub variable_name: Option<Vec<u8>>,
}

/// The decoded form of a raw open acc data record.
pub open spec fn decoded_open_acc_data(value: RawOpenAccData) -> ActivityOpenAccData {
    ActivityOpenAccData {
        base: decoded_open_acc_base(value.base),
        bytes: value.bytes,
        host_ptr: value.host_ptr,
        device_ptr: value.device_ptr,
        variable_name: value.variable_name,
    }
}

impl ActivityOpenAccData {
    /// Decodes a raw record.
    pub fn from_raw(value: RawOpenAccData) -> (r: Self)
        ensures
            r == decoded_open_acc_data(value),
    {
        ActivityOpenAccData {
            base: ActivityOpenAccBase::from_raw(value.base),
            bytes: value.bytes,
            host_ptr: value.host_ptr,
            device_ptr: value.device_ptr,
            variable_name: value.variable_name,
        }
    }
}

/// OpenACC kernel launch. Record fields as CUPTI fills them; each string is the bytes before the
/// terminating nul at its pointer, `None` for a null pointer.
#[derive(Debug, Clone, PartialEq, Eq)]
pub struct RawOpenAccLaunch {
    pub base: RawOpenAccBase,
    pub num_gangs: u64,
    pub num_workers: u64,
    pub vector_length: u64,
    pub kernel_name: Option<Vec<u8>>,
}

/// OpenACC kernel launch.
#[derive(Debug, Clone, PartialEq, Eq)]
pub struct ActivityOpenAccLaunch {
    pub base: ActivityOpenAccBase,
    pub num_gangs: u64,
    pub num_workers: u64,
    pub vector_length: u64,
    pub kernel_name: Option<Vec<u8>>,
}

/// The decoded form of a raw open acc launch record.
pub open spec fn decoded_open_acc_launch(value: RawOpenAccLaunch) -> ActivityOpenAccLaunch {
    ActivityOpenAccLaunch {
        base: decoded_open_acc_base(value.base),
        num_gangs: value.num_gangs,
        num_workers: value.num_workers,
        vector_length: value.vector_length,
        kernel_name: value.kernel_name,
    }
}

impl ActivityOpenAccLaunch {
    /// Decodes a raw record.
    pub fn from_raw(value: RawOpenAccLaunch) -> (r: Self)
        ensures
            r == decoded_open_acc_launch(value),
    {
        ActivityOpenAccLaunch {
            base: ActivityOpenAccBase::from_raw(value.base),
            num_gangs: value.num_gangs,
            num_workers: value.num_workers,
            vector_length: value.vector_length,
            kernel_name: value.kernel_name,
        }
    }
}

/// Other OpenACC event. Record fields as CUPTI fills them.
#[derive(Debug, Clone, PartialEq, Eq)]
pub struct RawOpenAccOther {
    pub base: RawOpenAccBase,
}

/// Other OpenACC event.
#[derive(Debug, Clone, PartialEq, Eq)]
pub struct ActivityOpenAccOther {
    pub base: ActivityOpenAccBase,
}

/// The decoded form of a raw open acc other record.
pub open spec fn decoded_open_acc_other(value: RawOpenAccOther) -> ActivityOpenAccOther {
    ActivityOpenAccOther {
        base: decoded_open_acc_base(value.base),
    }
}

impl ActivityOpenAccOther {
    /// Decodes a raw record.
    pub fn from_raw(value: RawOpenAccOther) -> (r: Self)
        ensures
            r == decoded_open_acc_other(value),
    {
        ActivityOpenAccOther {
            base: ActivityOpenAccBase::from_raw(value.base),
        }
    }
}

/// Preemption of a thread block. Record fields as CUPTI fills them.
#[derive(Debug, Clone, Copy, PartialEq, Eq, Structural)]
pub struct RawPreemption {
    pub preemption_kind: ActivityPreemptionKind,
    pub timestamp: u64,
    pub grid_id: i64,
    pub block_x: u32,
    pub block_y: u32,
    pub block_z: u32,
}

/// Preemption of a thread block.
#[derive(Debug, Clone, Copy, PartialEq, Eq, Structural)]
pub struct ActivityPreemption {
    pub preemption_kind: ActivityPreemptionKind,
    pub timestamp: u64,
    pub grid_id: GridId,
    pub block: Dim3,
}

/// The decoded form of a raw preemption record.
pub open spec fn decoded_preemption(value: RawPreemption) -> ActivityPreemption {
    ActivityPreemption {
        preemption_kind: value.preemption_kind,
        timestamp: value.timestamp,
        grid_id: GridId::of(value.grid_id),
        block: Dim3 { x: value.block_x, y: value.block_y, z: value.block_z },
    }
}

impl ActivityPreemption {
    /// Decodes a raw record.
    pub fn from_raw(value: RawPreemption) -> (r: Self)
        ensures
            r == decoded_preemption(value),
    {
        ActivityPreemption {
            preemption_kind: value.preemption_kind,
            timestamp: value.timestamp,
            grid_id: GridId::from(value.grid_id),
            block: Dim3 { x: value.block_x, y: value.block_y, z: value.block_z },
        }
    }
}

/// Global function of a CUDA module. Record fields as CUPTI fills them; each string is the bytes before the
/// terminating nul at its pointer, `None` for a null pointer.
#[derive(Debug, Clone, PartialEq, Eq)]
pub struct RawFunction {
    pub id: u32,
    pub context_id: u32,
    pub module_id: u32,
    pub function_index: u32,
    pub name: Option<Vec<u8>>,
}

/// Global function of a CUDA module.
#[derive(Debug, Clone, PartialEq, Eq)]
pub struct ActivityFunction {
    pub id: FunctionId,
    pub context_id: ContextId,
    pub module_id: ModuleId,
    pub function_index: u32,
    pub name: Option<Vec<u8>>,
}

/// The decoded form of a raw function record.
pub open spec fn decoded_function(value: RawFunction) -> ActivityFunction {
    ActivityFunction {
        id: FunctionId::of(value.id),
        context_id: ContextId::of(value.context_id),
        module_id: ModuleId::of(value.module_id),
        function_index: value.function_index,
        name: value.name,
    }
}

impl ActivityFunction {
    /// Decodes a raw record.
    pub fn from_raw(value: RawFunction) -> (r: Self)
        ensures
            r == decoded_function(value),
    {
        ActivityFunction {
            id: FunctionId::from(value.id),
            context_id: ContextId::from(value.context_id),
            module_id: ModuleId::from(value.module_id),
            function_index: value.function_index,
            name: value.name,
        }
    }
}

/// Key rotation event of a confidential compute channel. Record fields as CUPTI fills them.
#[derive(Debug, Clone, Copy, PartialEq, Eq, Structural)]
pub struct RawConfidentialComputeRotation {
    pub event_type: ConfidentialComputeRotationEventType,
    pub device_id: u32,
    pub context_id: u32,
    pub channel_id: u32,
    pub channel_type: ChannelType,
    pub timestamp: u64,
}

/// Key rotation event of a confidential compute channel.
#[derive(Debug, Clone, Copy, PartialEq, Eq, Structural)]
pub struct ActivityConfidentialComputeRotation {
    pub event_type: ConfidentialComputeRotationEventType,
    pub device_id: DeviceId,
    pub context_id: ContextId,
    pub channel_id: ChannelId,
    pub channel_type: ChannelType,
    pub timestamp: u64,
}

/// The decoded form of a raw confidential compute rotation record.
pub open spec fn decoded_confidential_compute_rotation(value: RawConfidentialComputeRotation) -> ActivityConfidentialComputeRotation {
    ActivityConfidentialComputeRotation {
        event_type: value.event_type,
        device_id: DeviceId::of(value.device_id),
        context_id: ContextId::of(value.context_id),
        channel_id: ChannelId::of(value.channel_id),
        channel_type: value.channel_type,
        timestamp: value.timestamp,
    }
}

impl ActivityConfidentialComputeRotation {
    /// Decodes a raw record.
    pub fn from_raw(value: RawConfidentialComputeRotation) -> (r: Self)
        ensures
            r == decoded_confidential_compute_rotation(value),
    {
        ActivityConfidentialComputeRotation {
            event_type: value.event_type,
            device_id: DeviceId::from(value.device_id),
            context_id: ContextId::from(value.context_id),
            channel_id: ChannelId::from(value.channel_id),
            channel_type: value.channel_type,
            timestamp: value.timestamp,
        }
    }
}

/// Source file and line of instructions. Record fields as CUPTI fills them; each string is the bytes before the
/// terminating nul at its pointer, `None` for a null pointer.
#[derive(Debug, Clone, PartialEq, Eq)]
pub struct RawSourceLocator {
    pub id: u32,
    pub line_number: u32,
    pub file_name: Option<Vec<u8>>,
}

/// Source file and line of instructions.
#[derive(Debug, Clone, PartialEq, Eq)]
pub struct ActivitySourceLocator {
    pub id: SourceLocatorId,
    pub line_number: u32,
    pub file_name: Option<Vec<u8>>,
}

/// The decoded form of a raw source locator record.
pub open spec fn decoded_source_locator(value: RawSourceLocator) -> ActivitySourceLocator {
    ActivitySourceLocator {
        id: SourceLocatorId::of(value.id),
        line_number: value.line_number,
        file_name: value.file_name,
    }
}

impl ActivitySourceLocator {
    /// Decodes a raw record.
    pub fn from_raw(value: RawSourceLocator) -> (r: Self)
        ensures
            r == decoded_source_locator(value),
    {
        ActivitySourceLocator {
            id: SourceLocatorId::from(value.id),
            line_number: value.line_number,
            file_name: value.file_name,
        }
    }
}

/// Overhead that CUPTI or the driver added. Record fields as CUPTI fills them.
#[derive(Debug, Clone, Copy, PartialEq, Eq, Structural)]
pub struct RawOverhead {
    pub overhead_kind: ActivityOverheadKind,
    pub object_kind: ActivityObjectKind,
    pub object_id: RawActivityObjectKindId,
    pub start: u64,
    pub end: u64,
    pub correlation_id: u32,
    pub overhead_data: usize,
}

/// Overhead that CUPTI or the driver added.
#[derive(Debug, Clone, Copy, PartialEq, Eq, Structural)]
pub struct ActivityOverhead {
    pub overhead_kind: ActivityOverheadKind,
    pub object_kind: ActivityObjectKind,
    pub object_id: ActivityObjectId,
    pub start: u64,
    pub end: u64,
    pub correlation_id: CorrelationId,
    pub has_overhead_data: bool,
}

/// The decoded form of a raw overhead record.
pub open spec fn decoded_overhead(value: RawOverhead) -> ActivityOverhead {
    ActivityOverhead {
        overhead_kind: value.overhead_kind,
        object_kind: value.object_kind,
        object_id: decoded_object_id(value.object_kind, value.object_id),
        start: value.start,
        end: value.end,
        correlation_id: CorrelationId::of(value.correlation_id),
        has_overhead_data: value.overhead_data != 0,
    }
}

impl ActivityOverhead {
    /// Decodes a raw record.
    pub fn from_raw(value: RawOverhead) -> (r: Self)
        ensures
            r == decoded_overhead(value),
    {
        ActivityOverhead {
            overhead_kind: value.overhead_kind,
            object_kind: value.object_kind,
            object_id: ActivityObjectId::from_raw(value.object_kind, value.object_id),
            start: value.start,
            end: value.end,
            correlation_id: CorrelationId::from(value.correlation_id),
            has_overhead_data: value.overhead_data != 0,
        }
    }
}

/// Execution of a CUDA kernel. Record fields as CUPTI fills them; each string is the bytes before the
/// terminating nul at its pointer, `None` for a null pointer.
#[derive(Debug, Clone, PartialEq, Eq)]
pub struct RawKernel {
    pub name: Option<Vec<u8>>,
    pub device_id: u32,
    pub context_id: u32,
    pub stream_id: u32,
    pub correlation_id: u32,
    pub grid_id: i64,
    pub grid_x: i32,
    pub grid_y: i32,
    pub grid_z: i32,
    pub block_x: i32,
    pub block_y: i32,
    pub block_z: i32,
    pub cluster_x: u32,
    pub cluster_y: u32,
    pub cluster_z: u32,
    pub start: u64,
    pub end: u64,
    pub completed: u64,
    pub queued: u64,
    pub submitted: u64,
    pub static_shared_memory: i32,
    pub dynamic_shared_memory: i32,
    pub local_memory_per_thread: u32,
    pub local_memory_total: u64,
    pub registers_per_thread: u16,
    pub shared_memory_config: u8,
    pub shared_memory_executed: u32,
    pub is_shared_memory_carveout_requested: u8,
    pub shared_memory_carveout_requested: u8,
    pub partitioned_global_cache_requested: u32,
    pub partitioned_global_cache_executed: u32,
    pub launch_type: u8,
    pub shared_memory_limit_config: u32,
    pub graph_node_id: u64,
    pub graph_id: u32,
    pub channel_id: u32,
    pub channel_type: ChannelType,
    pub max_potential_cluster_size: u32,
    pub max_active_clusters: u32,
    pub is_device_launched: u8,
    pub priority: i32,
}

/// Execution of a CUDA kernel.
#[derive(Debug, Clone, PartialEq, Eq)]
pub struct ActivityKernel {
    pub name: Option<Vec<u8>>,
    pub device_id: DeviceId,
    pub context_id: ContextId,
    pub stream_id: StreamId,
    pub correlation_id: CorrelationId,
    pub grid_id: GridId,
    pub grid: Dim3,
    pub block: Dim3,
    pub cluster: Dim3,
    pub start: u64,
    pub end: u64,
    pub completed: u64,
    pub queued: u64,
    pub submitted: u64,
    pub static_shared_memory: u32,
    pub dynamic_shared_memory: u32,
    pub local_memory_per_thread: u32,
    pub local_memory_total: u64,
    pub registers_per_thread: u16,
    pub shared_memory_config: u8,
    pub shared_memory_executed: u32,
    pub shared_memory_carveout_requested: Option<u8>,
    pub partitioned_global_cache_requested: ActivityPartitionedGlobalCacheConfig,
    pub partitioned_global_cache_executed: ActivityPartitionedGlobalCacheConfig,
    pub launch_type: ActivityLaunchType,
    pub shared_memory_limit_config: FunctionSharedMemoryLimitConfig,
    pub graph_node_id: GraphNodeId,
    pub graph_id: GraphId,
    pub channel_id: ChannelId,
    pub channel_type: ChannelType,
    pub max_potential_cluster_size: u32,
    pub max_active_clusters: u32,
    pub is_device_launched: bool,
    pub priority: i32,
}

/// The decoded form of a raw kernel record.
pub open spec fn decoded_kernel(value: RawKernel) -> ActivityKernel {
    ActivityKernel {
        name: value.name,
        device_id: DeviceId::of(value.device_id),
        context_id: ContextId::of(value.context_id),
        stream_id: StreamId::of(value.stream_id as u64),
        correlation_id: CorrelationId::of(value.correlation_id),
        grid_id: GridId::of(value.grid_id),
        grid: Dim3 { x: value.grid_x as u32, y: value.grid_y as u32, z: value.grid_z as u32 },
        block: Dim3 { x: value.block_x as u32, y: value.block_y as u32, z: value.block_z as u32 },
        cluster: Dim3 { x: value.cluster_x, y: value.cluster_y, z: value.cluster_z },
        start: value.start,
        end: value.end,
        completed: value.completed,
        queued: value.queued,
        submitted: value.submitted,
        static_shared_memory: value.static_shared_memory as u32,
        dynamic_shared_memory: value.dynamic_shared_memory as u32,
        local_memory_per_thread: value.local_memory_per_thread,
        local_memory_total: value.local_memory_total,
        registers_per_thread: value.registers_per_thread,
        shared_memory_config: value.shared_memory_config,
        shared_memory_executed: value.shared_memory_executed,
        shared_memory_carveout_requested: if value.is_shared_memory_carveout_requested != 0 { Some(value.shared_memory_carveout_requested) } else { None },
        partitioned_global_cache_requested: partitioned_global_cache_config_of(value.partitioned_global_cache_requested),
        partitioned_global_cache_executed: partitioned_global_cache_config_of(value.partitioned_global_cache_executed),
        launch_type: launch_type_of(value.launch_type as u32),
        shared_memory_limit_config: shared_memory_limit_config_of(value.shared_memory_limit_config),
        graph_node_id: GraphNodeId::of(value.graph_node_id),
        graph_id: GraphId::of(value.graph_id),
        channel_id: ChannelId::of(value.channel_id),
        channel_type: value.channel_type,
        max_potential_cluster_size: value.max_potential_cluster_size,
        max_active_clusters: value.max_active_clusters,
        is_device_launched: value.is_device_launched != 0,
        priority: value.priority,
    }
}

impl ActivityKernel {
    /// Decodes a raw record.
    pub fn from_raw(value: RawKernel) -> (r: Self)
        ensures
            r == decoded_kernel(value),
    {
        ActivityKernel {
            name: value.name,
            device_id: DeviceId::from(value.device_id),
            context_id: ContextId::from(value.context_id),
            stream_id: StreamId::from(value.stream_id),
            correlation_id: CorrelationId::from(value.correlation_id),
            grid_id: GridId::from(value.grid_id),
            grid: Dim3 { x: value.grid_x as u32, y: value.grid_y as u32, z: value.grid_z as u32 },
            block: Dim3 { x: value.block_x as u32, y: value.block_y as u32, z: value.block_z as u32 },
            cluster: Dim3 { x: value.cluster_x, y: value.cluster_y, z: value.cluster_z },
            start: value.start,
            end: value.end,
            completed: value.completed,
            queued: value.queued,
            submitted: value.submitted,
            static_shared_memory: value.static_shared_memory as u32,
            dynamic_shared_memory: value.dynamic_shared_memory as u32,
            local_memory_per_thread: value.local_memory_per_thread,
            local_memory_total: value.local_memory_total,
            registers_per_thread: value.registers_per_thread,
            shared_memory_config: value.shared_memory_config,
            shared_memory_executed: value.shared_memory_executed,
            shared_memory_carveout_requested: if value.is_shared_memory_carveout_requested != 0 { Some(value.shared_memory_carveout_requested) } else { None },
            partitioned_global_cache_requested: partitioned_global_cache_config_from_raw(
                value.partitioned_global_cache_requested,
            ),
            partitioned_global_cache_executed: partitioned_global_cache_config_from_raw(
                value.partitioned_global_cache_executed,
            ),
            launch_type: launch_type_from_raw(value.launch_type as u32),
            shared_memory_limit_config: shared_memory_limit_config_from_raw(value.shared_memory_limit_config),
            graph_node_id: GraphNodeId::from(value.graph_node_id),
            graph_id: GraphId::from(value.graph_id),
            channel_id: ChannelId::from(value.channel_id),
            channel_type: value.channel_type,
            max_potential_cluster_size: value.max_potential_cluster_size,
            max_active_clusters: value.max_active_clusters,
            is_device_launched: value.is_device_launched != 0,
            priority: value.priority,
        }
    }
}

/// Execution of a kernel launched from the device. Record fields as CUPTI fills them; each string is the bytes before the
/// terminating nul at its pointer, `None` for a null pointer.
#[derive(Debug, Clone, PartialEq, Eq)]
pub struct RawCudaDynamicParallelismKernel {
    pub name: Option<Vec<u8>>,
    pub device_id: u32,
    pub context_id: u32,
    pub stream_id: u32,
    pub correlation_id: u32,
    pub grid_id: i64,
    pub parent_grid_id: i64,
    pub parent_block_x: u32,
    pub parent_block_y: u32,
    pub parent_block_z: u32,
    pub grid_x: i32,
    pub grid_y: i32,
    pub grid_z: i32,
    pub block_x: i32,
    pub block_y: i32,
    pub block_z: i32,
    pub start: u64,
    pub end: u64,
    pub completed: u64,
    pub queued: u64,
    pub submitted: u64,
    pub static_shared_memory: i32,
    pub dynamic_shared_memory: i32,
    pub local_memory_per_thread: u32,
    pub local_memory_total: u32,
    pub registers_per_thread: u16,
    pub shared_memory_config: u8,
}

/// Execution of a kernel launched from the device.
#[derive(Debug, Clone, PartialEq, Eq)]
pub struct ActivityCudaDynamicParallelismKernel {
    pub name: Option<Vec<u8>>,
    pub device_id: DeviceId,
    pub context_id: ContextId,
    pub stream_id: StreamId,
    pub correlation_id: CorrelationId,
    pub grid_id: GridId,
    pub parent_grid_id: GridId,
    pub parent_block: Dim3,
    pub grid: Dim3,
    pub block: Dim3,
    pub start: u64,
    pub end: u64,
    pub completed: u64,
    pub queued: u64,
    pub submitted: u64,
    pub static_shared_memory: u32,
    pub dynamic_shared_memory: u32,
    pub local_memory_per_thread: u32,
    pub local_memory_total: u32,
    pub registers_per_thread: u16,
    pub shared_memory_config: u8,
}

/// The decoded form of a raw cuda dynamic parallelism kernel record.
pub open spec fn decoded_cuda_dynamic_parallelism_kernel(value: RawCudaDynamicParallelismKernel) -> ActivityCudaDynamicParallelismKernel {
    ActivityCudaDynamicParallelismKernel {
        name: value.name,
        device_id: DeviceId::of(value.device_id),
        context_id: ContextId::of(value.context_id),
        stream_id: StreamId::of(value.stream_id as u64),
        correlation_id: CorrelationId::of(value.correlation_id),
        grid_id: GridId::of(value.grid_id),
        parent_grid_id: GridId::of(value.parent_grid_id),
        parent_block: Dim3 { x: value.parent_block_x, y: value.parent_block_y, z: value.parent_block_z },
        grid: Dim3 { x: value.grid_x as u32, y: value.grid_y as u32, z: value.grid_z as u32 },
        block: Dim3 { x: value.block_x as u32, y: value.block_y as u32, z: value.block_z as u32 },
        start: value.start,
        end: value.end,
        completed: value.completed,
        queued: value.queued,
        submitted: value.submitted,
        static_shared_memory: value.static_shared_memory as u32,
        dynamic_shared_memory: value.dynamic_shared_memory as u32,
        local_memory_per_thread: value.local_memory_per_thread,
        local_memory_total: value.local_memory_total,
        registers_per_thread: value.registers_per_thread,
        shared_memory_config: value.shared_memory_config,
    }
}

impl ActivityCudaDynamicParallelismKernel {
    /// Decodes a raw record.
    pub fn from_raw(value: RawCudaDynamicParallelismKernel) -> (r: Self)
        ensures
            r == decoded_cuda_dynamic_parallelism_kernel(value),
    {
        ActivityCudaDynamicParallelismKernel {
            name: value.name,
            device_id: DeviceId::from(value.device_id),
            context_id: ContextId::from(value.context_id),
            stream_id: StreamId::from(value.stream_id),
            correlation_id: CorrelationId::from(value.correlation_id),
            grid_id: GridId::from(value.grid_id),
            parent_grid_id: GridId::from(value.parent_grid_id),
            parent_block: Dim3 { x: value.parent_block_x, y: value.parent_block_y, z: value.parent_block_z },
            grid: Dim3 { x: value.grid_x as u32, y: value.grid_y as u32, z: value.grid_z as u32 },
            block: Dim3 { x: value.block_x as u32, y: value.block_y as u32, z: value.block_z as u32 },
            start: value.start,
            end: value.end,
            completed: value.completed,
            queued: value.queued,
            submitted: value.submitted,
            static_shared_memory: value.static_shared_memory as u32,
            dynamic_shared_memory: value.dynamic_shared_memory as u32,
            local_memory_per_thread: value.local_memory_per_thread,
            local_memory_total: value.local_memory_total,
            registers_per_thread: value.registers_per_thread,
            shared_memory_config: value.shared_memory_config,
        }
    }
}

/// Decompression of memory. Record fields as CUPTI fills them.
#[derive(Debug, Clone, Copy, PartialEq, Eq, Structural)]
pub struct RawMemoryDecompress {
    pub device_id: u32,
    pub context_id: u32,
    pub stream_id: u32,
    pub channel_id: u32,
    pub channel_type: ChannelType,
    pub correlation_id: u32,
    pub number_of_operations: u32,
    pub source_bytes: u64,
    pub start: u64,
    pub end: u64,
}

/// Decompression of memory.
#[derive(Debug, Clone, Copy, PartialEq, Eq, Structural)]
pub struct ActivityMemoryDecompress {
    pub device_id: DeviceId,
    pub context_id: ContextId,
    pub stream_id: StreamId,
    pub channel_id: ChannelId,
    pub channel_type: ChannelType,
    pub correlation_id: CorrelationId,
    pub number_of_operations: u32,
    pub source_bytes: u64,
    pub start: u64,
    pub end: u64,
}

/// The decoded form of a raw memory decompress record.
pub open spec fn decoded_memory_decompress(value: RawMemoryDecompress) -> ActivityMemoryDecompress {
    ActivityMemoryDecompress {
        device_id: DeviceId::of(value.device_id),
        context_id: ContextId::of(value.context_id),
        stream_id: StreamId::of(value.stream_id as u64),
        channel_id: ChannelId::of(value.channel_id),
        channel_type: value.channel_type,
        correlation_id: CorrelationId::of(value.correlation_id),
        number_of_operations: value.number_of_operations,
        source_bytes: value.source_bytes,
        start: value.start,
        end: value.end,
    }
}

impl ActivityMemoryDecompress {
    /// Decodes a raw record.
    pub fn from_raw(value: RawMemoryDecompress) -> (r: Self)
        ensures
            r == decoded_memory_decompress(value),
    {
        ActivityMemoryDecompress {
            device_id: DeviceId::from(value.device_id),
            context_id: ContextId::from(value.context_id),
            stream_id: StreamId::from(value.stream_id),
            channel_id: ChannelId::from(value.channel_id),
            channel_type: value.channel_type,
            correlation_id: CorrelationId::from(value.correlation_id),
            number_of_operations: value.number_of_operations,
            source_bytes: value.source_bytes,
            start: value.start,
            end: value.end,
        }
    }
}

/// Memory copy. Record fields as CUPTI fills them.
#[derive(Debug, Clone, Copy, PartialEq, Eq, Structural)]
pub struct RawMemoryCopy {
    pub copy_kind: u8,
    pub source_kind: u8,
    pub destination_kind: u8,
    pub flags: u8,
    pub bytes: u64,
    pub start: u64,
    pub end: u64,
    pub device_id: u32,
    pub context_id: u32,
    pub stream_id: u32,
    pub correlation_id: u32,
    pub runtime_correlation_id: u32,
    pub graph_node_id: u64,
    pub graph_id: u32,
    pub channel_id: u32,
    pub channel_type: ChannelType,
    pub is_device_launched: u8,
    pub copy_count: u64,
}

/// Memory copy.
#[derive(Debug, Clone, Copy, PartialEq, Eq, Structural)]
pub struct ActivityMemoryCopy {
    pub copy_kind: ActivityMemoryCopyKind,
    pub source_kind: ActivityMemoryKind,
    pub destination_kind: ActivityMemoryKind,
    pub flags: ActivityFlags,
    pub bytes: u64,
    pub start: u64,
    pub end: u64,
    pub device_id: DeviceId,
    pub context_id: ContextId,
    pub stream_id: StreamId,
    pub correlation_id: CorrelationId,
    pub runtime_correlation_id: CorrelationId,
    pub graph_node_id: GraphNodeId,
    pub graph_id: GraphId,
    pub channel_id: ChannelId,
    pub channel_type: ChannelType,
    pub is_device_launched: bool,
    pub copy_count: u64,
}

/// The decoded form of a raw memory copy record.
pub open spec fn decoded_memory_copy(value: RawMemoryCopy) -> ActivityMemoryCopy {
    ActivityMemoryCopy {
        copy_kind: memory_copy_kind_of(value.copy_kind as u32),
        source_kind: memory_kind_of(value.source_kind as u32),
        destination_kind: memory_kind_of(value.destination_kind as u32),
        flags: ActivityFlags::of((value.flags as u32) & 0x3ff),
        bytes: value.bytes,
        start: value.start,
        end: value.end,
        device_id: DeviceId::of(value.device_id),
        context_id: ContextId::of(value.context_id),
        stream_id: StreamId::of(value.stream_id as u64),
        correlation_id: CorrelationId::of(value.correlation_id),
        runtime_correlation_id: CorrelationId::of(value.runtime_correlation_id),
        graph_node_id: GraphNodeId::of(value.graph_node_id),
        graph_id: GraphId::of(value.graph_id),
        channel_id: ChannelId::of(value.channel_id),
        channel_type: value.channel_type,
        is_device_launched: value.is_device_launched != 0,
        copy_count: value.copy_count,
    }
}

impl ActivityMemoryCopy {
    /// Decodes a raw record.
    pub fn from_raw(value: RawMemoryCopy) -> (r: Self)
        ensures
            r == decoded_memory_copy(value),
    {
        ActivityMemoryCopy {
            copy_kind: memory_copy_kind_from_raw(value.copy_kind as u32),
            source_kind: memory_kind_from_raw(value.source_kind as u32),
            destination_kind: memory_kind_from_raw(value.destination_kind as u32),
            flags: ActivityFlags::from_bits_truncate(value.flags as u32),
            bytes: value.bytes,
            start: value.start,
            end: value.end,
            device_id: DeviceId::from(value.device_id),
            context_id: ContextId::from(value.context_id),
            stream_id: StreamId::from(value.stream_id),
            correlation_id: CorrelationId::from(value.correlation_id),
            runtime_correlation_id: CorrelationId::from(value.runtime_correlation_id),
            graph_node_id: GraphNodeId::from(value.graph_node_id),
            graph_id: GraphId::from(value.graph_id),
            channel_id: ChannelId::from(value.channel_id),
            channel_type: value.channel_type,
            is_device_launched: value.is_device_launched != 0,
            copy_count: value.copy_count,
        }
    }
}

/// Memory copy between two devices. Record fields as CUPTI fills them.
#[derive(Debug, Clone, Copy, PartialEq, Eq, Structural)]
pub struct RawPeerMemoryCopy {
    pub copy_kind: u8,
    pub source_kind: u8,
    pub destination_kind: u8,
    pub flags: u8,
    pub bytes: u64,
    pub start: u64,
    pub end: u64,
    pub device_id: u32,
    pub context_id: u32,
    pub stream_id: u32,
    pub source_device_id: u32,
    pub source_context_id: u32,
    pub destination_device_id: u32,
    pub destination_context_id: u32,
    pub correlation_id: u32,
    pub graph_node_id: u64,
    pub graph_id: u32,
    pub channel_id: u32,
    pub channel_type: ChannelType,
}

/// Memory copy between two devices.
#[derive(Debug, Clone, Copy, PartialEq, Eq, Structural)]
pub struct ActivityPeerMemoryCopy {
    pub copy_kind: ActivityMemoryCopyKind,
    pub source_kind: ActivityMemoryKind,
    pub destination_kind: ActivityMemoryKind,
    pub flags: ActivityFlags,
    pub bytes: u64,
    pub start: u64,
    pub end: u64,
    pub device_id: DeviceId,
    pub context_id: ContextId,
    pub stream_id: StreamId,
    pub source_device_id: DeviceId,
    pub source_context_id: ContextId,
    pub destination_device_id: DeviceId,
    pub destination_context_id: ContextId,
    pub correlation_id: CorrelationId,
    pub graph_node_id: GraphNodeId,
    pub graph_id: GraphId,
    pub channel_id: ChannelId,
    pub channel_type: ChannelType,
}

/// The decoded form of a raw peer memory copy record.
pub open spec fn decoded_peer_memory_copy(value: RawPeerMemoryCopy) -> ActivityPeerMemoryCopy {
    ActivityPeerMemoryCopy {
        copy_kind: memory_copy_kind_of(value.copy_kind as u32),
        source_kind: memory_kind_of(value.source_kind as u32),
        destination_kind: memory_kind_of(value.destination_kind as u32),
        flags: ActivityFlags::of((value.flags as u32) & 0x3ff),
        bytes: value.bytes,
        start: value.start,
        end: value.end,
        device_id: DeviceId::of(value.device_id),
        context_id: ContextId::of(value.context_id),
        stream_id: StreamId::of(value.stream_id as u64),
        source_device_id: DeviceId::of(value.source_device_id),
        source_context_id: ContextId::of(value.source_context_id),
        destination_device_id: DeviceId::of(value.destination_device_id),
        destination_context_id: ContextId::of(value.destination_context_id),
        correlation_id: CorrelationId::of(value.correlation_id),
        graph_node_id: GraphNodeId::of(value.graph_node_id),
        graph_id: GraphId::of(value.graph_id),
        channel_id: ChannelId::of(value.channel_id),
        channel_type: value.channel_type,
    }
}

impl ActivityPeerMemoryCopy {
    /// Decodes a raw record.
    pub fn from_raw(value: RawPeerMemoryCopy) -> (r: Self)
        ensures
            r == decoded_peer_memory_copy(value),
    {
        ActivityPeerMemoryCopy {
            copy_kind: memory_copy_kind_from_raw(value.copy_kind as u32),
            source_kind: memory_kind_from_raw(value.source_kind as u32),
            destination_kind: memory_kind_from_raw(value.destination_kind as u32),
            flags: ActivityFlags::from_bits_truncate(value.flags as u32),
            bytes: value.bytes,
            start: value.start,
            end: value.end,
            device_id: DeviceId::from(value.device_id),
            context_id: ContextId::from(value.context_id),
            stream_id: StreamId::from(value.stream_id),
            source_device_id: DeviceId::from(value.source_device_id),
            source_context_id: ContextId::from(value.source_context_id),
            destination_device_id: DeviceId::from(value.destination_device_id),
            destination_context_id: ContextId::from(value.destination_context_id),
            correlation_id: CorrelationId::from(value.correlation_id),
            graph_node_id: GraphNodeId::from(value.graph_node_id),
            graph_id: GraphId::from(value.graph_id),
            channel_id: ChannelId::from(value.channel_id),
            channel_type: value.channel_type,
        }
    }
}

/// Memory set. Record fields as CUPTI fills them.
#[derive(Debug, Clone, Copy, PartialEq, Eq, Structural)]
pub struct RawMemorySet {
    pub value: u32,
    pub bytes: u64,
    pub start: u64,
    pub end: u64,
    pub device_id: u32,
    pub context_id: u32,
    pub stream_id: u32,
    pub correlation_id: u32,
    pub flags: u16,
    pub memory_kind: u16,
    pub graph_node_id: u64,
    pub graph_id: u32,
    pub channel_id: u32,
    pub channel_type: ChannelType,
    pub is_device_launched: u8,
}

/// Memory set.
#[derive(Debug, Clone, Copy, PartialEq, Eq, Structural)]
pub struct ActivityMemorySet {
    pub value: u32,
    pub bytes: u64,
    pub start: u64,
    pub end: u64,
    pub device_id: DeviceId,
    pub context_id: ContextId,
    pub stream_id: StreamId,
    pub correlation_id: CorrelationId,
    pub flags: ActivityFlags,
    pub memory_kind: ActivityMemoryKind,
    pub graph_node_id: GraphNodeId,
    pub graph_id: GraphId,
    pub channel_id: ChannelId,
    pub channel_type: ChannelType,
    pub is_device_launched: bool,
}

/// The decoded form of a raw memory set record.
pub open spec fn decoded_memory_set(value: RawMemorySet) -> ActivityMemorySet {
    ActivityMemorySet {
        value: value.value,
        bytes: value.bytes,
        start: value.start,
        end: value.end,
        device_id: DeviceId::of(value.device_id),
        context_id: ContextId::of(value.context_id),
        stream_id: StreamId::of(value.stream_id as u64),
        correlation_id: CorrelationId::of(value.correlation_id),
        flags: ActivityFlags::of((value.flags as u32) & 0x3ff),
        memory_kind: memory_kind_of(value.memory_kind as u32),
        graph_node_id: GraphNodeId::of(value.graph_node_id),
        graph_id: GraphId::of(value.graph_id),
        channel_id: ChannelId::of(value.channel_id),
        channel_type: value.channel_type,
        is_device_launched: value.is_device_launched != 0,
    }
}

impl ActivityMemorySet {
    /// Decodes a raw record.
    pub fn from_raw(value: RawMemorySet) -> (r: Self)
        ensures
            r == decoded_memory_set(value),
    {
        ActivityMemorySet {
            value: value.value,
            bytes: value.bytes,
            start: value.start,
            end: value.end,
            device_id: DeviceId::from(value.device_id),
            context_id: ContextId::from(value.context_id),
            stream_id: StreamId::from(value.stream_id),
            correlation_id: CorrelationId::from(value.correlation_id),
            flags: ActivityFlags::from_bits_truncate(value.flags as u32),
            memory_kind: memory_kind_from_raw(value.memory_kind as u32),
            graph_node_id: GraphNodeId::from(value.graph_node_id),
            graph_id: GraphId::from(value.graph_id),
            channel_id: ChannelId::from(value.channel_id),
            channel_type: value.channel_type,
            is_device_launched: value.is_device_launched != 0,
        }
    }
}



/// The fields of one activity record as CUPTI laid them out, in the layout its kind
/// selects.
#[derive(Debug, Clone, PartialEq, Eq)]
#[non_exhaustive]
pub enum RawActivity {
    MemoryDecompress(RawMemoryDecompress),
    MemoryCopy(RawMemoryCopy),
    PeerMemoryCopy(RawPeerMemoryCopy),
    MemorySet(RawMemorySet),
    Kernel(RawKernel),
    CudaDynamicParallelismKernel(RawCudaDynamicParallelismKernel),
    Api(RawApi),
    Stream(RawStream),
    Synchronization(RawSynchronization),
    Memory(RawMemory),
    LegacyMemory(RawLegacyMemory),
    MemoryPool(RawMemoryPool),
    GraphTrace(RawGraphTrace),
    DeviceGraphTrace(RawDeviceGraphTrace),
    GraphHostNode(RawGraphHostNode),
    HostLaunch(RawHostLaunch),
    ComputeEngineContextSwitch(RawComputeEngineContextSwitch),
    GreenContext(RawGreenContext),
    Name(RawName),
    Marker(RawMarker),
    ExternalCorrelation(RawExternalCorrelation),
    MarkerData(RawMarkerData),
    CudaEvent(RawCudaEvent),
    Context(RawContext),
    Event(RawEvent),
    EventInstance(RawEventInstance),
    Metric(RawMetric),
    MetricInstance(RawMetricInstance),
    InstantaneousEvent(RawInstantaneousEvent),
    InstantaneousEventInstance(RawInstantaneousEventInstance),
    InstantaneousMetric(RawInstantaneousMetric),
    InstantaneousMetricInstance(RawInstantaneousMetricInstance),
    GlobalAccess(RawGlobalAccess),
    Branch(RawBranch),
    InstructionExecution(RawInstructionExecution),
    PcSampling(RawPcSampling),
    PcSamplingRecordInfo(RawPcSamplingRecordInfo),
    UnifiedMemoryCounter(RawUnifiedMemoryCounter),
    DeviceAttribute(RawDeviceAttribute),
    Environment(RawEnvironment),
    Device(RawDevice),
    Jit(RawJit),
    NvLink(RawNvLink),
    Pcie(RawPcie),
    InstructionCorrelation(RawInstructionCorrelation),
    OpenMultiProcessing(RawOpenMultiProcessing),
    OpenAccData(RawOpenAccData),
    OpenAccLaunch(RawOpenAccLaunch),
    OpenAccOther(RawOpenAccOther),
    Preemption(RawPreemption),
    Function(RawFunction),
    Module(RawModule),
    SharedAccess(RawSharedAccess),
    ConfidentialComputeRotation(RawConfidentialComputeRotation),
    SourceLocator(RawSourceLocator),
    Overhead(RawOverhead),
    /// A record whose layout this library does not read.
    Other,
}

/// Whether `raw` holds the layout that records of kind `kind` use.
pub open spec fn layout_matches(kind: ActivityKind, raw: RawActivity) -> bool {
    match raw {
        RawActivity::MemoryDecompress(_) => kind == ActivityKind::MemoryDecompress,
        RawActivity::MemoryCopy(_) => kind == ActivityKind::MemoryCopy,
        RawActivity::PeerMemoryCopy(_) => kind == ActivityKind::PeerMemoryCopy,
        RawActivity::MemorySet(_) => kind == ActivityKind::MemorySet,
        RawActivity::Kernel(_) => kind == ActivityKind::Kernel || kind == ActivityKind::ConcurrentKernel,
        RawActivity::CudaDynamicParallelismKernel(_) => kind == ActivityKind::CudaDynamicParallelismKernel,
        RawActivity::Api(_) => kind == ActivityKind::Driver || kind == ActivityKind::Runtime || kind == ActivityKind::InternalLaunchApi,
        RawActivity::Stream(_) => kind == ActivityKind::Stream,
        RawActivity::Synchronization(_) => kind == ActivityKind::Synchronization,
        RawActivity::Memory(_) => kind == ActivityKind::Memory2,
        RawActivity::LegacyMemory(_) => kind == ActivityKind::Memory,
        RawActivity::MemoryPool(_) => kind == ActivityKind::MemoryPool,
        RawActivity::GraphTrace(_) => kind == ActivityKind::GraphTrace,
        RawActivity::DeviceGraphTrace(_) => kind == ActivityKind::DeviceGraphTrace,
        RawActivity::GraphHostNode(_) => kind == ActivityKind::GraphHostNode,
        RawActivity::HostLaunch(_) => kind == ActivityKind::HostLaunch,
        RawActivity::ComputeEngineContextSwitch(_) => kind == ActivityKind::ComputeEngineCtxSwitch,
        RawActivity::GreenContext(_) => kind == ActivityKind::GreenContext,
        RawActivity::Name(_) => kind == ActivityKind::Name,
        RawActivity::Marker(_) => kind == ActivityKind::Marker,
        RawActivity::ExternalCorrelation(_) => kind == ActivityKind::ExternalCorrelation,
        RawActivity::MarkerData(_) => kind == ActivityKind::MarkerData,
        RawActivity::CudaEvent(_) => kind == ActivityKind::CudaEvent,
        RawActivity::Context(_) => kind == ActivityKind::Context,
        RawActivity::Event(_) => kind == ActivityKind::Event,
        RawActivity::EventInstance(_) => kind == ActivityKind::EventInstance,
        RawActivity::Metric(_) => kind == ActivityKind::Metric,
        RawActivity::MetricInstance(_) => kind == ActivityKind::MetricInstance,
        RawActivity::InstantaneousEvent(_) => kind == ActivityKind::InstantaneousEvent,
        RawActivity::InstantaneousEventInstance(_) => kind == ActivityKind::InstantaneousEventInstance,
        RawActivity::InstantaneousMetric(_) => kind == ActivityKind::InstantaneousMetric,
        RawActivity::InstantaneousMetricInstance(_) => kind == ActivityKind::InstantaneousMetricInstance,
        RawActivity::GlobalAccess(_) => kind == ActivityKind::GlobalAccess,
        RawActivity::Branch(_) => kind == ActivityKind::Branch,
        RawActivity::InstructionExecution(_) => kind == ActivityKind::InstructionExecution,
        RawActivity::PcSampling(_) => kind == ActivityKind::PcSampling,
        RawActivity::PcSamplingRecordInfo(_) => kind == ActivityKind::PcSamplingRecordInfo,
        RawActivity::UnifiedMemoryCounter(_) => kind == ActivityKind::UnifiedMemoryCounter,
        RawActivity::DeviceAttribute(_) => kind == ActivityKind::DeviceAttribute,
        RawActivity::Environment(_) => kind == ActivityKind::Environment,
        RawActivity::Device(_) => kind == ActivityKind::Device,
        RawActivity::Jit(_) => kind == ActivityKind::Jit,
        RawActivity::NvLink(_) => kind == ActivityKind::NvLink,
        RawActivity::Pcie(_) => kind == ActivityKind::Pcie,
        RawActivity::InstructionCorrelation(_) => kind == ActivityKind::InstructionCorrelation,
        RawActivity::OpenMultiProcessing(_) => kind == ActivityKind::OpenMultiProcessing,
        RawActivity::OpenAccData(_) => kind == ActivityKind::OpenAccData,
        RawActivity::OpenAccLaunch(_) => kind == ActivityKind::OpenAccLaunch,
        RawActivity::OpenAccOther(_) => kind == ActivityKind::OpenAccOther,
        RawActivity::Preemption(_) => kind == ActivityKind::Preemption,
        RawActivity::Function(_) => kind == ActivityKind::Function,
        RawActivity::Module(_) => kind == ActivityKind::Module,
        RawActivity::SharedAccess(_) => kind == ActivityKind::SharedAccess,
        RawActivity::ConfidentialComputeRotation(_) => kind == ActivityKind::ConfidentialComputeRotation,
        RawActivity::SourceLocator(_) => kind == ActivityKind::SourceLocator,
        RawActivity::Overhead(_) => kind == ActivityKind::Overhead,
        RawActivity::Other => false,
    }
}

/// A decoded activity record, one variant per record layout.
#[derive(Debug, Clone, PartialEq, Eq)]
#[non_exhaustive]
pub enum ActivityRecordData {
    Api(ActivityApi),
    MemoryCopy(ActivityMemoryCopy),
    PeerMemoryCopy(ActivityPeerMemoryCopy),
    MemorySet(ActivityMemorySet),
    MemoryDecompress(ActivityMemoryDecompress),
    Kernel(ActivityKernel),
    CudaDynamicParallelismKernel(ActivityCudaDynamicParallelismKernel),
    Stream(ActivityStream),
    Synchronization(ActivitySynchronization),
    Memory(ActivityMemory),
    LegacyMemory(ActivityLegacyMemory),
    MemoryPool(ActivityMemoryPool),
    GraphTrace(ActivityGraphTrace),
    DeviceGraphTrace(ActivityDeviceGraphTrace),
    GraphHostNode(ActivityGraphHostNode),
    HostLaunch(ActivityHostLaunch),
    ComputeEngineContextSwitch(ActivityComputeEngineContextSwitch),
    GreenContext(ActivityGreenContext),
    Name(ActivityName),
    Marker(ActivityMarker),
    ExternalCorrelation(ActivityExternalCorrelation),
    MarkerData(ActivityMarkerData),
    CudaEvent(ActivityCudaEvent),
    Context(ActivityContext),
    Event(ActivityEvent),
    EventInstance(ActivityEventInstance),
    Metric(ActivityMetric),
    MetricInstance(ActivityMetricInstance),
    InstantaneousEvent(ActivityInstantaneousEvent),
    InstantaneousEventInstance(ActivityInstantaneousEventInstance),
    InstantaneousMetric(ActivityInstantaneousMetric),
    InstantaneousMetricInstance(ActivityInstantaneousMetricInstance),
    GlobalAccess(ActivityGlobalAccess),
    Branch(ActivityBranch),
    InstructionExecution(ActivityInstructionExecution),
    PcSampling(ActivityPcSampling),
    PcSamplingRecordInfo(ActivityPcSamplingRecordInfo),
    UnifiedMemoryCounter(ActivityUnifiedMemoryCounter),
    DeviceAttribute(ActivityDeviceAttribute),
    Environment(ActivityEnvironment),
    Device(ActivityDevice),
    Jit(ActivityJit),
    NvLink(ActivityNvLink),
    Pcie(ActivityPcie),
    InstructionCorrelation(ActivityInstructionCorrelation),
    OpenMultiProcessing(ActivityOpenMultiProcessing),
    OpenAccData(ActivityOpenAccData),
    OpenAccLaunch(ActivityOpenAccLaunch),
    OpenAccOther(ActivityOpenAccOther),
    Preemption(ActivityPreemption),
    Function(ActivityFunction),
    Module(ActivityModule),
    SharedAccess(ActivitySharedAccess),
    ConfidentialComputeRotation(ActivityConfidentialComputeRotation),
    SourceLocator(ActivitySourceLocator),
    Overhead(ActivityOverhead),
    /// A record of a kind that has no decoded form, or whose layout does not match its kind.
    Unsupported { kind: ActivityKind },
}

/// Whether `data` is the decoding of a record of kind `kind` with fields `raw`: the
/// decoded form of `raw` when `raw` is the layout of `kind`, and `Unsupported` otherwise.
pub open spec fn record_decodes(kind: ActivityKind, raw: RawActivity, data: ActivityRecordData) -> bool {
    if layout_matches(kind, raw) {
        match raw {
            RawActivity::MemoryDecompress(v) => data == ActivityRecordData::MemoryDecompress(decoded_memory_decompress(v)),
            RawActivity::MemoryCopy(v) => data == ActivityRecordData::MemoryCopy(decoded_memory_copy(v)),
            RawActivity::PeerMemoryCopy(v) => data == ActivityRecordData::PeerMemoryCopy(decoded_peer_memory_copy(v)),
            RawActivity::MemorySet(v) => data == ActivityRecordData::MemorySet(decoded_memory_set(v)),
            RawActivity::Kernel(v) => data == ActivityRecordData::Kernel(decoded_kernel(v)),
            RawActivity::CudaDynamicParallelismKernel(v) => data == ActivityRecordData::CudaDynamicParallelismKernel(decoded_cuda_dynamic_parallelism_kernel(v)),
            RawActivity::Api(v) => data == ActivityRecordData::Api(decoded_api(v)),
            RawActivity::Stream(v) => data == ActivityRecordData::Stream(decoded_stream(v)),
            RawActivity::Synchronization(v) => data == ActivityRecordData::Synchronization(decoded_synchronization(v)),
            RawActivity::Memory(v) => data == ActivityRecordData::Memory(decoded_memory(v)),
            RawActivity::LegacyMemory(v) => data == ActivityRecordData::LegacyMemory(decoded_legacy_memory(v)),
            RawActivity::MemoryPool(v) => data == ActivityRecordData::MemoryPool(decoded_memory_pool(v)),
            RawActivity::GraphTrace(v) => data == ActivityRecordData::GraphTrace(decoded_graph_trace(v)),
            RawActivity::DeviceGraphTrace(v) => data == ActivityRecordData::DeviceGraphTrace(decoded_device_graph_trace(v)),
            RawActivity::GraphHostNode(v) => data == ActivityRecordData::GraphHostNode(decoded_graph_host_node(v)),
            RawActivity::HostLaunch(v) => data == ActivityRecordData::HostLaunch(decoded_host_launch(v)),
            RawActivity::ComputeEngineContextSwitch(v) => data == ActivityRecordData::ComputeEngineContextSwitch(decoded_compute_engine_context_switch(v)),
            RawActivity::GreenContext(v) => data == ActivityRecordData::GreenContext(decoded_green_context(v)),
            RawActivity::Name(v) => data matches ActivityRecordData::Name(d) && name_decodes(v, d),
            RawActivity::Marker(v) => data == ActivityRecordData::Marker(decoded_marker(v)),
            RawActivity::ExternalCorrelation(v) => data == ActivityRecordData::ExternalCorrelation(decoded_external_correlation(v)),
            RawActivity::MarkerData(v) => data == ActivityRecordData::MarkerData(decoded_marker_data(v)),
            RawActivity::CudaEvent(v) => data == ActivityRecordData::CudaEvent(decoded_cuda_event(v)),
            RawActivity::Context(v) => data == ActivityRecordData::Context(decoded_context(v)),
            RawActivity::Event(v) => data == ActivityRecordData::Event(decoded_event(v)),
            RawActivity::EventInstance(v) => data == ActivityRecordData::EventInstance(decoded_event_instance(v)),
            RawActivity::Metric(v) => data == ActivityRecordData::Metric(decoded_metric(v)),
            RawActivity::MetricInstance(v) => data == ActivityRecordData::MetricInstance(decoded_metric_instance(v)),
            RawActivity::InstantaneousEvent(v) => data == ActivityRecordData::InstantaneousEvent(decoded_instantaneous_event(v)),
            RawActivity::InstantaneousEventInstance(v) => data == ActivityRecordData::InstantaneousEventInstance(decoded_instantaneous_event_instance(v)),
            RawActivity::InstantaneousMetric(v) => data == ActivityRecordData::InstantaneousMetric(decoded_instantaneous_metric(v)),
            RawActivity::InstantaneousMetricInstance(v) => data == ActivityRecordData::InstantaneousMetricInstance(decoded_instantaneous_metric_instance(v)),
            RawActivity::GlobalAccess(v) => data == ActivityRecordData::GlobalAccess(decoded_global_access(v)),
            RawActivity::Branch(v) => data == ActivityRecordData::Branch(decoded_branch(v)),
            RawActivity::InstructionExecution(v) => data == ActivityRecordData::InstructionExecution(decoded_instruction_execution(v)),
            RawActivity::PcSampling(v) => data == ActivityRecordData::PcSampling(decoded_pc_sampling(v)),
            RawActivity::PcSamplingRecordInfo(v) => data == ActivityRecordData::PcSamplingRecordInfo(decoded_pc_sampling_record_info(v)),
            RawActivity::UnifiedMemoryCounter(v) => data matches ActivityRecordData::UnifiedMemoryCounter(d) && unified_memory_counter_decodes(v, d),
            RawActivity::DeviceAttribute(v) => data == ActivityRecordData::DeviceAttribute(decoded_device_attribute(v)),
            RawActivity::Environment(v) => data matches ActivityRecordData::Environment(d) && environment_decodes(v, d),
            RawActivity::Device(v) => data matches ActivityRecordData::Device(d) && device_decodes(v, d),
            RawActivity::Jit(v) => data == ActivityRecordData::Jit(decoded_jit(v)),
            RawActivity::NvLink(v) => data matches ActivityRecordData::NvLink(d) && nvlink_decodes(v, d),
            RawActivity::Pcie(v) => data matches ActivityRecordData::Pcie(d) && pcie_decodes(v, d),
            RawActivity::InstructionCorrelation(v) => data == ActivityRecordData::InstructionCorrelation(decoded_instruction_correlation(v)),
            RawActivity::OpenMultiProcessing(v) => data == ActivityRecordData::OpenMultiProcessing(decoded_open_multi_processing(v)),
            RawActivity::OpenAccData(v) => data == ActivityRecordData::OpenAccData(decoded_open_acc_data(v)),
            RawActivity::OpenAccLaunch(v) => data == ActivityRecordData::OpenAccLaunch(decoded_open_acc_launch(v)),
            RawActivity::OpenAccOther(v) => data == ActivityRecordData::OpenAccOther(decoded_open_acc_other(v)),
            RawActivity::Preemption(v) => data == ActivityRecordData::Preemption(decoded_preemption(v)),
            RawActivity::Function(v) => data == ActivityRecordData::Function(decoded_function(v)),
            RawActivity::Module(v) => data matches ActivityRecordData::Module(d) && module_decodes(v, d),
            RawActivity::SharedAccess(v) => data == ActivityRecordData::SharedAccess(decoded_shared_access(v)),
            RawActivity::ConfidentialComputeRotation(v) => data == ActivityRecordData::ConfidentialComputeRotation(decoded_confidential_compute_rotation(v)),
            RawActivity::SourceLocator(v) => data == ActivityRecordData::SourceLocator(decoded_source_locator(v)),
            RawActivity::Overhead(v) => data == ActivityRecordData::Overhead(decoded_overhead(v)),
            RawActivity::Other => false,
        }
    } else {
        data == (ActivityRecordData::Unsupported { kind })
    }
}

/// One activity record: the kind CUPTI wrote in its header and its fields.
#[derive(Debug, Clone, PartialEq, Eq)]
pub struct ActivityRecord {
    kind: ActivityKind,
    raw: RawActivity,
}

impl ActivityRecord {
    /// What [`Self::memory_decompress`] returns.
    pub open spec fn spec_memory_decompress(self) -> Option<ActivityMemoryDecompress> {
        (if (self.spec_kind() == ActivityKind::MemoryDecompress) && self.spec_raw() is MemoryDecompress {
                Some(decoded_memory_decompress(self.spec_raw()->MemoryDecompress_0))
            } else {
                None
            })
    }

    /// What [`Self::memory_copy`] returns.
    pub open spec fn spec_memory_copy(self) -> Option<ActivityMemoryCopy> {
        (if (self.spec_kind() == ActivityKind::MemoryCopy) && self.spec_raw() is MemoryCopy {
                Some(decoded_memory_copy(self.spec_raw()->MemoryCopy_0))
            } else {
                None
            })
    }

    /// What [`Self::peer_memory_copy`] returns.
    pub open spec fn spec_peer_memory_copy(self) -> Option<ActivityPeerMemoryCopy> {
        (if (self.spec_kind() == ActivityKind::PeerMemoryCopy) && self.spec_raw() is PeerMemoryCopy {
                Some(decoded_peer_memory_copy(self.spec_raw()->PeerMemoryCopy_0))
            } else {
                None
            })
    }

    /// What [`Self::memory_set`] returns.
    pub open spec fn spec_memory_set(self) -> Option<ActivityMemorySet> {
        (if (self.spec_kind() == ActivityKind::MemorySet) && self.spec_raw() is MemorySet {
                Some(decoded_memory_set(self.spec_raw()->MemorySet_0))
            } else {
                None
            })
    }

    /// What [`Self::kernel`] returns.
    pub open spec fn spec_kernel(self) -> Option<ActivityKernel> {
        (if (self.spec_kind() == ActivityKind::Kernel || self.spec_kind() == ActivityKind::ConcurrentKernel) && self.spec_raw() is Kernel {
                Some(decoded_kernel(self.spec_raw()->Kernel_0))
            } else {
                None
            })
    }

    /// What [`Self::cuda_dynamic_parallelism_kernel`] returns.
    pub open spec fn spec_cuda_dynamic_parallelism_kernel(self) -> Option<ActivityCudaDynamicParallelismKernel> {
        (if (self.spec_kind() == ActivityKind::CudaDynamicParallelismKernel) && self.spec_raw() is CudaDynamicParallelismKernel {
                Some(decoded_cuda_dynamic_parallelism_kernel(self.spec_raw()->CudaDynamicParallelismKernel_0))
            } else {
                None
            })
    }

    /// What [`Self::api`] returns.
    pub open spec fn spec_api(self) -> Option<ActivityApi> {
        (if (self.spec_kind() == ActivityKind::Driver || self.spec_kind() == ActivityKind::Runtime || self.spec_kind() == ActivityKind::InternalLaunchApi) && self.spec_raw() is Api {
                Some(decoded_api(self.spec_raw()->Api_0))
            } else {
                None
            })
    }

    /// What [`Self::stream`] returns.
    pub open spec fn spec_stream(self) -> Option<ActivityStream> {
        (if (self.spec_kind() == ActivityKind::Stream) && self.spec_raw() is Stream {
                Some(decoded_stream(self.spec_raw()->Stream_0))
            } else {
                None
            })
    }

    /// What [`Self::synchronization`] returns.
    pub open spec fn spec_synchronization(self) -> Option<ActivitySynchronization> {
        (if (self.spec_kind() == ActivityKind::Synchronization) && self.spec_raw() is Synchronization {
                Some(decoded_synchronization(self.spec_raw()->Synchronization_0))
            } else {
                None
            })
    }

    /// What [`Self::memory`] returns.
    pub open spec fn spec_memory(self) -> Option<ActivityMemory> {
        (if (self.spec_kind() == ActivityKind::Memory2) && self.spec_raw() is Memory {
                Some(decoded_memory(self.spec_raw()->Memory_0))
            } else {
                None
            })
    }

    /// What [`Self::legacy_memory`] returns.
    pub open spec fn spec_legacy_memory(self) -> Option<ActivityLegacyMemory> {
        (if (self.spec_kind() == ActivityKind::Memory) && self.spec_raw() is LegacyMemory {
                Some(decoded_legacy_memory(self.spec_raw()->LegacyMemory_0))
            } else {
                None
            })
    }

    /// What [`Self::memory_pool`] returns.
    pub open spec fn spec_memory_pool(self) -> Option<ActivityMemoryPool> {
        (if (self.spec_kind() == ActivityKind::MemoryPool) && self.spec_raw() is MemoryPool {
                Some(decoded_memory_pool(self.spec_raw()->MemoryPool_0))
            } else {
                None
            })
    }

    /// What [`Self::graph_trace`] returns.
    pub open spec fn spec_graph_trace(self) -> Option<ActivityGraphTrace> {
        (if (self.spec_kind() == ActivityKind::GraphTrace) && self.spec_raw() is GraphTrace {
                Some(decoded_graph_trace(self.spec_raw()->GraphTrace_0))
            } else {
                None
            })
    }

    /// What [`Self::device_graph_trace`] returns.
    pub open spec fn spec_device_graph_trace(self) -> Option<ActivityDeviceGraphTrace> {
        (if (self.spec_kind() == ActivityKind::DeviceGraphTrace) && self.spec_raw() is DeviceGraphTrace {
                Some(decoded_device_graph_trace(self.spec_raw()->DeviceGraphTrace_0))
            } else {
                None
            })
    }

    /// What [`Self::graph_host_node`] returns.
    pub open spec fn spec_graph_host_node(self) -> Option<ActivityGraphHostNode> {
        (if (self.spec_kind() == ActivityKind::GraphHostNode) && self.spec_raw() is GraphHostNode {
                Some(decoded_graph_host_node(self.spec_raw()->GraphHostNode_0))
            } else {
                None
            })
    }

    /// What [`Self::host_launch`] returns.
    pub open spec fn spec_host_launch(self) -> Option<ActivityHostLaunch> {
        (if (self.spec_kind() == ActivityKind::HostLaunch) && self.spec_raw() is HostLaunch {
                Some(decoded_host_launch(self.spec_raw()->HostLaunch_0))
            } else {
                None
            })
    }

    /// What [`Self::compute_engine_context_switch`] returns.
    pub open spec fn spec_compute_engine_context_switch(self) -> Option<ActivityComputeEngineContextSwitch> {
        (if (self.spec_kind() == ActivityKind::ComputeEngineCtxSwitch) && self.spec_raw() is ComputeEngineContextSwitch {
                Some(decoded_compute_engine_context_switch(self.spec_raw()->ComputeEngineContextSwitch_0))
            } else {
                None
            })
    }

    /// What [`Self::green_context`] returns.
    pub open spec fn spec_green_context(self) -> Option<ActivityGreenContext> {
        (if (self.spec_kind() == ActivityKind::GreenContext) && self.spec_raw() is GreenContext {
                Some(decoded_green_context(self.spec_raw()->GreenContext_0))
            } else {
                None
            })
    }

    /// What [`Self::name`] returns.
    pub open spec fn spec_name(self) -> Option<ActivityName> {
        if (self.spec_kind() == ActivityKind::Name) && self.spec_raw() is Name {
            Some(choose|d: ActivityName| name_decodes(self.spec_raw()->Name_0, d))
        } else {
            None
        }
    }

    /// What [`Self::marker`] returns.
    pub open spec fn spec_marker(self) -> Option<ActivityMarker> {
        (if (self.spec_kind() == ActivityKind::Marker) && self.spec_raw() is Marker {
                Some(decoded_marker(self.spec_raw()->Marker_0))
            } else {
                None
            })
    }

    /// What [`Self::external_correlation`] returns.
    pub open spec fn spec_external_correlation(self) -> Option<ActivityExternalCorrelation> {
        (if (self.spec_kind() == ActivityKind::ExternalCorrelation) && self.spec_raw() is ExternalCorrelation {
                Some(decoded_external_correlation(self.spec_raw()->ExternalCorrelation_0))
            } else {
                None
            })
    }

    /// What [`Self::marker_data`] returns.
    pub open spec fn spec_marker_data(self) -> Option<ActivityMarkerData> {
        (if (self.spec_kind() == ActivityKind::MarkerData) && self.spec_raw() is MarkerData {
                Some(decoded_marker_data(self.spec_raw()->MarkerData_0))
            } else {
                None
            })
    }

    /// What [`Self::cuda_event`] returns.
    pub open spec fn spec_cuda_event(self) -> Option<ActivityCudaEvent> {
        (if (self.spec_kind() == ActivityKind::CudaEvent) && self.spec_raw() is CudaEvent {
                Some(decoded_cuda_event(self.spec_raw()->CudaEvent_0))
            } else {
                None
            })
    }

    /// What [`Self::context`] returns.
    pub open spec fn spec_context(self) -> Option<ActivityContext> {
        (if (self.spec_kind() == ActivityKind::Context) && self.spec_raw() is Context {
                Some(decoded_context(self.spec_raw()->Context_0))
            } else {
                None
            })
    }

    /// What [`Self::event`] returns.
    pub open spec fn spec_event(self) -> Option<ActivityEvent> {
        (if (self.spec_kind() == ActivityKind::Event) && self.spec_raw() is Event {
                Some(decoded_event(self.spec_raw()->Event_0))
            } else {
                None
            })
    }

    /// What [`Self::event_instance`] returns.
    pub open spec fn spec_event_instance(self) -> Option<ActivityEventInstance> {
        (if (self.spec_kind() == ActivityKind::EventInstance) && self.spec_raw() is EventInstance {
                Some(decoded_event_instance(self.spec_raw()->EventInstance_0))
            } else {
                None
            })
    }

    /// What [`Self::metric`] returns.
    pub open spec fn spec_metric(self) -> Option<ActivityMetric> {
        (if (self.spec_kind() == ActivityKind::Metric) && self.spec_raw() is Metric {
                Some(decoded_metric(self.spec_raw()->Metric_0))
            } else {
                None
            })
    }

    /// What [`Self::metric_instance`] returns.
    pub open spec fn spec_metric_instance(self) -> Option<ActivityMetricInstance> {
        (if (self.spec_kind() == ActivityKind::MetricInstance) && self.spec_raw() is MetricInstance {
                Some(decoded_metric_instance(self.spec_raw()->MetricInstance_0))
            } else {
                None
            })
    }

    /// What [`Self::instantaneous_event`] returns.
    pub open spec fn spec_instantaneous_event(self) -> Option<ActivityInstantaneousEvent> {
        (if (self.spec_kind() == ActivityKind::InstantaneousEvent) && self.spec_raw() is InstantaneousEvent {
                Some(decoded_instantaneous_event(self.spec_raw()->InstantaneousEvent_0))
            } else {
                None
            })
    }

    /// What [`Self::instantaneous_event_instance`] returns.
    pub open spec fn spec_instantaneous_event_instance(self) -> Option<ActivityInstantaneousEventInstance> {
        (if (self.spec_kind() == ActivityKind::InstantaneousEventInstance) && self.spec_raw() is InstantaneousEventInstance {
                Some(decoded_instantaneous_event_instance(self.spec_raw()->InstantaneousEventInstance_0))
            } else {
                None
            })
    }

    /// What [`Self::instantaneous_metric`] returns.
    pub open spec fn spec_instantaneous_metric(self) -> Option<ActivityInstantaneousMetric> {
        (if (self.spec_kind() == ActivityKind::InstantaneousMetric) && self.spec_raw() is InstantaneousMetric {
                Some(decoded_instantaneous_metric(self.spec_raw()->InstantaneousMetric_0))
            } else {
                None
            })
    }

    /// What [`Self::instantaneous_metric_instance`] returns.
    pub open spec fn spec_instantaneous_metric_instance(self) -> Option<ActivityInstantaneousMetricInstance> {
        (if (self.spec_kind() == ActivityKind::InstantaneousMetricInstance) && self.spec_raw() is InstantaneousMetricInstance {
                Some(decoded_instantaneous_metric_instance(self.spec_raw()->InstantaneousMetricInstance_0))
            } else {
                None
            })
    }

    /// What [`Self::global_access`] returns.
    pub open spec fn spec_global_access(self) -> Option<ActivityGlobalAccess> {
        (if (self.spec_kind() == ActivityKind::GlobalAccess) && self.spec_raw() is GlobalAccess {
                Some(decoded_global_access(self.spec_raw()->GlobalAccess_0))
            } else {
                None
            })
    }

    /// What [`Self::branch`] returns.
    pub open spec fn spec_branch(self) -> Option<ActivityBranch> {
        (if (self.spec_kind() == ActivityKind::Branch) && self.spec_raw() is Branch {
                Some(decoded_branch(self.spec_raw()->Branch_0))
            } else {
                None
            })
    }

    /// What [`Self::instruction_execution`] returns.
    pub open spec fn spec_instruction_execution(self) -> Option<ActivityInstructionExecution> {
        (if (self.spec_kind() == ActivityKind::InstructionExecution) && self.spec_raw() is InstructionExecution {
                Some(decoded_instruction_execution(self.spec_raw()->InstructionExecution_0))
            } else {
                None
            })
    }

    /// What [`Self::pc_sampling`] returns.
    pub open spec fn spec_pc_sampling(self) -> Option<ActivityPcSampling> {
        (if (self.spec_kind() == ActivityKind::PcSampling) && self.spec_raw() is PcSampling {
                Some(decoded_pc_sampling(self.spec_raw()->PcSampling_0))
            } else {
                None
            })
    }

    /// What [`Self::pc_sampling_record_info`] returns.
    pub open spec fn spec_pc_sampling_record_info(self) -> Option<ActivityPcSamplingRecordInfo> {
        (if (self.spec_kind() == ActivityKind::PcSamplingRecordInfo) && self.spec_raw() is PcSamplingRecordInfo {
                Some(decoded_pc_sampling_record_info(self.spec_raw()->PcSamplingRecordInfo_0))
            } else {
                None
            })
    }

    /// What [`Self::unified_memory_counter`] returns.
    pub open spec fn spec_unified_memory_counter(self) -> Option<ActivityUnifiedMemoryCounter> {
        if (self.spec_kind() == ActivityKind::UnifiedMemoryCounter) && self.spec_raw() is UnifiedMemoryCounter {
            Some(choose|d: ActivityUnifiedMemoryCounter| unified_memory_counter_decodes(self.spec_raw()->UnifiedMemoryCounter_0, d))
        } else {
            None
        }
    }

    /// What [`Self::device_attribute`] returns.
    pub open spec fn spec_device_attribute(self) -> Option<ActivityDeviceAttribute> {
        (if (self.spec_kind() == ActivityKind::DeviceAttribute) && self.spec_raw() is DeviceAttribute {
                Some(decoded_device_attribute(self.spec_raw()->DeviceAttribute_0))
            } else {
                None
            })
    }

    /// What [`Self::environment`] returns.
    pub open spec fn spec_environment(self) -> Option<ActivityEnvironment> {
        if (self.spec_kind() == ActivityKind::Environment) && self.spec_raw() is Environment {
            Some(choose|d: ActivityEnvironment| environment_decodes(self.spec_raw()->Environment_0, d))
        } else {
            None
        }
    }

    /// What [`Self::device`] returns.
    pub open spec fn spec_device(self) -> Option<ActivityDevice> {
        if (self.spec_kind() == ActivityKind::Device) && self.spec_raw() is Device {
            Some(choose|d: ActivityDevice| device_decodes(self.spec_raw()->Device_0, d))
        } else {
            None
        }
    }

    /// What [`Self::jit`] returns.
    pub open spec fn spec_jit(self) -> Option<ActivityJit> {
        (if (self.spec_kind() == ActivityKind::Jit) && self.spec_raw() is Jit {
                Some(decoded_jit(self.spec_raw()->Jit_0))
            } else {
                None
            })
    }

    /// What [`Self::nvlink`] returns.
    pub open spec fn spec_nvlink(self) -> Option<ActivityNvLink> {
        if (self.spec_kind() == ActivityKind::NvLink) && self.spec_raw() is NvLink {
            Some(choose|d: ActivityNvLink| nvlink_decodes(self.spec_raw()->NvLink_0, d))
        } else {
            None
        }
    }

    /// What [`Self::pcie`] returns.
    pub open spec fn spec_pcie(self) -> Option<ActivityPcie> {
        if (self.spec_kind() == ActivityKind::Pcie) && self.spec_raw() is Pcie {
            Some(choose|d: ActivityPcie| pcie_decodes(self.spec_raw()->Pcie_0, d))
        } else {
            None
        }
    }

    /// What [`Self::instruction_correlation`] returns.
    pub open spec fn spec_instruction_correlation(self) -> Option<ActivityInstructionCorrelation> {
        (if (self.spec_kind() == ActivityKind::InstructionCorrelation) && self.spec_raw() is InstructionCorrelation {
                Some(decoded_instruction_correlation(self.spec_raw()->InstructionCorrelation_0))
            } else {
                None
            })
    }

    /// What [`Self::open_multi_processing`] returns.
    pub open spec fn spec_open_multi_processing(self) -> Option<ActivityOpenMultiProcessing> {
        (if (self.spec_kind() == ActivityKind::OpenMultiProcessing) && self.spec_raw() is OpenMultiProcessing {
                Some(decoded_open_multi_processing(self.spec_raw()->OpenMultiProcessing_0))
            } else {
                None
            })
    }

    /// What [`Self::open_acc_data`] returns.
    pub open spec fn spec_open_acc_data(self) -> Option<ActivityOpenAccData> {
        (if (self.spec_kind() == ActivityKind::OpenAccData) && self.spec_raw() is OpenAccData {
                Some(decoded_open_acc_data(self.spec_raw()->OpenAccData_0))
            } else {
                None
            })
    }

    /// What [`Self::open_acc_launch`] returns.
    pub open spec fn spec_open_acc_launch(self) -> Option<ActivityOpenAccLaunch> {
        (if (self.spec_kind() == ActivityKind::OpenAccLaunch) && self.spec_raw() is OpenAccLaunch {
                Some(decoded_open_acc_launch(self.spec_raw()->OpenAccLaunch_0))
            } else {
                None
            })
    }

    /// What [`Self::open_acc_other`] returns.
    pub open spec fn spec_open_acc_other(self) -> Option<ActivityOpenAccOther> {
        (if (self.spec_kind() == ActivityKind::OpenAccOther) && self.spec_raw() is OpenAccOther {
                Some(decoded_open_acc_other(self.spec_raw()->OpenAccOther_0))
            } else {
                None
            })
    }

    /// What [`Self::preemption`] returns.
    pub open spec fn spec_preemption(self) -> Option<ActivityPreemption> {
        (if (self.spec_kind() == ActivityKind::Preemption) && self.spec_raw() is Preemption {
                Some(decoded_preemption(self.spec_raw()->Preemption_0))
            } else {
                None
            })
    }

    /// What [`Self::function`] returns.
    pub open spec fn spec_function(self) -> Option<ActivityFunction> {
        (if (self.spec_kind() == ActivityKind::Function) && self.spec_raw() is Function {
                Some(decoded_function(self.spec_raw()->Function_0))
            } else {
                None
            })
    }

    /// What [`Self::module`] returns.
    pub open spec fn spec_module(self) -> Option<ActivityModule> {
        if (self.spec_kind() == ActivityKind::Module) && self.spec_raw() is Module {
            Some(choose|d: ActivityModule| module_decodes(self.spec_raw()->Module_0, d))
        } else {
            None
        }
    }

    /// What [`Self::shared_access`] returns.
    pub open spec fn spec_shared_access(self) -> Option<ActivitySharedAccess> {
        (if (self.spec_kind() == ActivityKind::SharedAccess) && self.spec_raw() is SharedAccess {
                Some(decoded_shared_access(self.spec_raw()->SharedAccess_0))
            } else {
                None
            })
    }

    /// What [`Self::confidential_compute_rotation`] returns.
    pub open spec fn spec_confidential_compute_rotation(self) -> Option<ActivityConfidentialComputeRotation> {
        (if (self.spec_kind() == ActivityKind::ConfidentialComputeRotation) && self.spec_raw() is ConfidentialComputeRotation {
                Some(decoded_confidential_compute_rotation(self.spec_raw()->ConfidentialComputeRotation_0))
            } else {
                None
            })
    }

    /// What [`Self::source_locator`] returns.
    pub open spec fn spec_source_locator(self) -> Option<ActivitySourceLocator> {
        (if (self.spec_kind() == ActivityKind::SourceLocator) && self.spec_raw() is SourceLocator {
                Some(decoded_source_locator(self.spec_raw()->SourceLocator_0))
            } else {
                None
            })
    }

    /// What [`Self::overhead`] returns.
    pub open spec fn spec_overhead(self) -> Option<ActivityOverhead> {
        (if (self.spec_kind() == ActivityKind::Overhead) && self.spec_raw() is Overhead {
                Some(decoded_overhead(self.spec_raw()->Overhead_0))
            } else {
                None
            })
    }

    /// The kind written in the record's header.
    pub closed spec fn spec_kind(self) -> ActivityKind {
        self.kind
    }

    /// The record's fields.
    pub closed spec fn spec_raw(self) -> RawActivity {
        self.raw
    }

    /// A record of kind `kind` with fields `raw`.
    pub fn new(kind: ActivityKind, raw: RawActivity) -> (r: Self)
        ensures
            r.spec_kind() == kind,
            r.spec_raw() == raw,
    {
        ActivityRecord { kind, raw }
    }

    /// Returns the kind written in the record's header.
    pub fn kind(&self) -> (r: ActivityKind)
        ensures
            r == self.spec_kind(),
    {
        self.kind
    }

    /// The record decoded as a `ActivityMemoryDecompress`, or `None` unless its kind is `MemoryDecompress`.
    pub fn memory_decompress(self) -> (r: Option<ActivityMemoryDecompress>)
        ensures
            r == self.spec_memory_decompress(),
    {
        if self.kind != ActivityKind::MemoryDecompress {
            return None;
        }
        match self.raw {
            RawActivity::MemoryDecompress(value) => Some(ActivityMemoryDecompress::from_raw(value)),
            _ => None,
        }
    }

    /// The record decoded as a `ActivityMemoryCopy`, or `None` unless its kind is `MemoryCopy`.
    pub fn memory_copy(self) -> (r: Option<ActivityMemoryCopy>)
        ensures
            r == self.spec_memory_copy(),
    {
        if self.kind != ActivityKind::MemoryCopy {
            return None;
        }
        match self.raw {
            RawActivity::MemoryCopy(value) => Some(ActivityMemoryCopy::from_raw(value)),
            _ => None,
        }
    }

    /// The record decoded as a `ActivityPeerMemoryCopy`, or `None` unless its kind is `PeerMemoryCopy`.
    pub fn peer_memory_copy(self) -> (r: Option<ActivityPeerMemoryCopy>)
        ensures
            r == self.spec_peer_memory_copy(),
    {
        if self.kind != ActivityKind::PeerMemoryCopy {
            return None;
        }
        match self.raw {
            RawActivity::PeerMemoryCopy(value) => Some(ActivityPeerMemoryCopy::from_raw(value)),
            _ => None,
        }
    }

    /// The record decoded as a `ActivityMemorySet`, or `None` unless its kind is `MemorySet`.
    pub fn memory_set(self) -> (r: Option<ActivityMemorySet>)
        ensures
            r == self.spec_memory_set(),
    {
        if self.kind != ActivityKind::MemorySet {
            return None;
        }
        match self.raw {
            RawActivity::MemorySet(value) => Some(ActivityMemorySet::from_raw(value)),
            _ => None,
        }
    }

    /// The record decoded as a `ActivityKernel`, or `None` unless its kind is `Kernel`, `ConcurrentKernel`.
    pub fn kernel(self) -> (r: Option<ActivityKernel>)
        ensures
            r == self.spec_kernel(),
    {
        if !matches!(self.kind, ActivityKind::Kernel | ActivityKind::ConcurrentKernel) {
            return None;
        }
        match self.raw {
            RawActivity::Kernel(value) => Some(ActivityKernel::from_raw(value)),
            _ => None,
        }
    }

    /// The record decoded as a `ActivityCudaDynamicParallelismKernel`, or `None` unless its kind is `CudaDynamicParallelismKernel`.
    pub fn cuda_dynamic_parallelism_kernel(self) -> (r: Option<ActivityCudaDynamicParallelismKernel>)
        ensures
            r == self.spec_cuda_dynamic_parallelism_kernel(),
    {
        if self.kind != ActivityKind::CudaDynamicParallelismKernel {
            return None;
        }
        match self.raw {
            RawActivity::CudaDynamicParallelismKernel(value) => Some(ActivityCudaDynamicParallelismKernel::from_raw(value)),
            _ => None,
        }
    }

    /// The record decoded as an `ActivityApi`, or `None` unless its kind is `Driver`, `Runtime`, `InternalLaunchApi`.
    pub fn api(self) -> (r: Option<ActivityApi>)
        ensures
            r == self.spec_api(),
    {
        if !matches!(self.kind, ActivityKind::Driver | ActivityKind::Runtime | ActivityKind::InternalLaunchApi) {
            return None;
        }
        match self.raw {
            RawActivity::Api(value) => Some(ActivityApi::from_raw(value)),
            _ => None,
        }
    }

    /// The record decoded as a `ActivityStream`, or `None` unless its kind is `Stream`.
    pub fn stream(self) -> (r: Option<ActivityStream>)
        ensures
            r == self.spec_stream(),
    {
        if self.kind != ActivityKind::Stream {
            return None;
        }
        match self.raw {
            RawActivity::Stream(value) => Some(ActivityStream::from_raw(value)),
            _ => None,
        }
    }

    /// The record decoded as a `ActivitySynchronization`, or `None` unless its kind is `Synchronization`.
    pub fn synchronization(self) -> (r: Option<ActivitySynchronization>)
        ensures
            r == self.spec_synchronization(),
    {
        if self.kind != ActivityKind::Synchronization {
            return None;
        }
        match self.raw {
            RawActivity::Synchronization(value) => Some(ActivitySynchronization::from_raw(value)),
            _ => None,
        }
    }

    /// The record decoded as a `ActivityMemory`, or `None` unless its kind is `Memory2`.
    pub fn memory(self) -> (r: Option<ActivityMemory>)
        ensures
            r == self.spec_memory(),
    {
        if self.kind != ActivityKind::Memory2 {
            return None;
        }
        match self.raw {
            RawActivity::Memory(value) => Some(ActivityMemory::from_raw(value)),
            _ => None,
        }
    }

    /// The record decoded as a `ActivityLegacyMemory`, or `None` unless its kind is `Memory`.
    pub fn legacy_memory(self) -> (r: Option<ActivityLegacyMemory>)
        ensures
            r == self.spec_legacy_memory(),
    {
        if self.kind != ActivityKind::Memory {
            return None;
        }
        match self.raw {
            RawActivity::LegacyMemory(value) => Some(ActivityLegacyMemory::from_raw(value)),
            _ => None,
        }
    }

    /// The record decoded as a `ActivityMemoryPool`, or `None` unless its kind is `MemoryPool`.
    pub fn memory_pool(self) -> (r: Option<ActivityMemoryPool>)
        ensures
            r == self.spec_memory_pool(),
    {
        if self.kind != ActivityKind::MemoryPool {
            return None;
        }
        match self.raw {
            RawActivity::MemoryPool(value) => Some(ActivityMemoryPool::from_raw(value)),
            _ => None,
        }
    }

    /// The record decoded as a `ActivityGraphTrace`, or `None` unless its kind is `GraphTrace`.
    pub fn graph_trace(self) -> (r: Option<ActivityGraphTrace>)
        ensures
            r == self.spec_graph_trace(),
    {
        if self.kind != ActivityKind::GraphTrace {
            return None;
        }
        match self.raw {
            RawActivity::GraphTrace(value) => Some(ActivityGraphTrace::from_raw(value)),
            _ => None,
        }
    }

    /// The record decoded as a `ActivityDeviceGraphTrace`, or `None` unless its kind is `DeviceGraphTrace`.
    pub fn device_graph_trace(self) -> (r: Option<ActivityDeviceGraphTrace>)
        ensures
            r == self.spec_device_graph_trace(),
    {
        if self.kind != ActivityKind::DeviceGraphTrace {
            return None;
        }
        match self.raw {
            RawActivity::DeviceGraphTrace(value) => Some(ActivityDeviceGraphTrace::from_raw(value)),
            _ => None,
        }
    }

    /// The record decoded as a `ActivityGraphHostNode`, or `None` unless its kind is `GraphHostNode`.
    pub fn graph_host_node(self) -> (r: Option<ActivityGraphHostNode>)
        ensures
            r == self.spec_graph_host_node(),
    {
        if self.kind != ActivityKind::GraphHostNode {
            return None;
        }
        match self.raw {
            RawActivity::GraphHostNode(value) => Some(ActivityGraphHostNode::from_raw(value)),
            _ => None,
        }
    }

    /// The record decoded as a `ActivityHostLaunch`, or `None` unless its kind is `HostLaunch`.
    pub fn host_launch(self) -> (r: Option<ActivityHostLaunch>)
        ensures
            r == self.spec_host_launch(),
    {
        if self.kind != ActivityKind::HostLaunch {
            return None;
        }
        match self.raw {
            RawActivity::HostLaunch(value) => Some(ActivityHostLaunch::from_raw(value)),
            _ => None,
        }
    }

    /// The record decoded as a `ActivityComputeEngineContextSwitch`, or `None` unless its kind is `ComputeEngineCtxSwitch`.
    pub fn compute_engine_context_switch(self) -> (r: Option<ActivityComputeEngineContextSwitch>)
        ensures
            r == self.spec_compute_engine_context_switch(),
    {
        if self.kind != ActivityKind::ComputeEngineCtxSwitch {
            return None;
        }
        match self.raw {
            RawActivity::ComputeEngineContextSwitch(value) => Some(ActivityComputeEngineContextSwitch::from_raw(value)),
            _ => None,
        }
    }

    /// The record decoded as a `ActivityGreenContext`, or `None` unless its kind is `GreenContext`.
    pub fn green_context(self) -> (r: Option<ActivityGreenContext>)
        ensures
            r == self.spec_green_context(),
    {
        if self.kind != ActivityKind::GreenContext {
            return None;
        }
        match self.raw {
            RawActivity::GreenContext(value) => Some(ActivityGreenContext::from_raw(value)),
            _ => None,
        }
    }

    /// The record decoded as a `ActivityName`, or `None` unless its kind is `Name`.
    pub fn name(self) -> (r: Option<ActivityName>)
        ensures
            r is Some <==> ((self.spec_kind() == ActivityKind::Name) && self.spec_raw() is Name),
            r matches Some(d) ==> name_decodes(self.spec_raw()->Name_0, d),
            r == self.spec_name(),
    {
        if self.kind != ActivityKind::Name {
            return None;
        }
        match self.raw {
            RawActivity::Name(value) => {
                let d = ActivityName::from_raw(value);
                proof {
                    lemma_name_decoding_is_unique(value, d, choose|e: ActivityName| name_decodes(value, e));
                }
                Some(d)
            },
            _ => None,
        }
    }

    /// The record decoded as a `ActivityMarker`, or `None` unless its kind is `Marker`.
    pub fn marker(self) -> (r: Option<ActivityMarker>)
        ensures
            r == self.spec_marker(),
    {
        if self.kind != ActivityKind::Marker {
            return None;
        }
        match self.raw {
            RawActivity::Marker(value) => Some(ActivityMarker::from_raw(value)),
            _ => None,
        }
    }

    /// The record decoded as an `ActivityExternalCorrelation`, or `None` unless its kind is `ExternalCorrelation`.
    pub fn external_correlation(self) -> (r: Option<ActivityExternalCorrelation>)
        ensures
            r == self.spec_external_correlation(),
    {
        if self.kind != ActivityKind::ExternalCorrelation {
            return None;
        }
        match self.raw {
            RawActivity::ExternalCorrelation(value) => Some(ActivityExternalCorrelation::from_raw(value)),
            _ => None,
        }
    }

    /// The record decoded as a `ActivityMarkerData`, or `None` unless its kind is `MarkerData`.
    pub fn marker_data(self) -> (r: Option<ActivityMarkerData>)
        ensures
            r == self.spec_marker_data(),
    {
        if self.kind != ActivityKind::MarkerData {
            return None;
        }
        match self.raw {
            RawActivity::MarkerData(value) => Some(ActivityMarkerData::from_raw(value)),
            _ => None,
        }
    }

    /// The record decoded as a `ActivityCudaEvent`, or `None` unless its kind is `CudaEvent`.
    pub fn cuda_event(self) -> (r: Option<ActivityCudaEvent>)
        ensures
            r == self.spec_cuda_event(),
    {
        if self.kind != ActivityKind::CudaEvent {
            return None;
        }
        match self.raw {
            RawActivity::CudaEvent(value) => Some(ActivityCudaEvent::from_raw(value)),
            _ => None,
        }
    }

    /// The record decoded as a `ActivityContext`, or `None` unless its kind is `Context`.
    pub fn context(self) -> (r: Option<ActivityContext>)
        ensures
            r == self.spec_context(),
    {
        if self.kind != ActivityKind::Context {
            return None;
        }
        match self.raw {
            RawActivity::Context(value) => Some(ActivityContext::from_raw(value)),
            _ => None,
        }
    }

    /// The record decoded as an `ActivityEvent`, or `None` unless its kind is `Event`.
    pub fn event(self) -> (r: Option<ActivityEvent>)
        ensures
            r == self.spec_event(),
    {
        if self.kind != ActivityKind::Event {
            return None;
        }
        match self.raw {
            RawActivity::Event(value) => Some(ActivityEvent::from_raw(value)),
            _ => None,
        }
    }

    /// The record decoded as an `ActivityEventInstance`, or `None` unless its kind is `EventInstance`.
    pub fn event_instance(self) -> (r: Option<ActivityEventInstance>)
        ensures
            r == self.spec_event_instance(),
    {
        if self.kind != ActivityKind::EventInstance {
            return None;
        }
        match self.raw {
            RawActivity::EventInstance(value) => Some(ActivityEventInstance::from_raw(value)),
            _ => None,
        }
    }

    /// The record decoded as a `ActivityMetric`, or `None` unless its kind is `Metric`.
    pub fn metric(self) -> (r: Option<ActivityMetric>)
        ensures
            r == self.spec_metric(),
    {
        if self.kind != ActivityKind::Metric {
            return None;
        }
        match self.raw {
            RawActivity::Metric(value) => Some(ActivityMetric::from_raw(value)),
            _ => None,
        }
    }

    /// The record decoded as a `ActivityMetricInstance`, or `None` unless its kind is `MetricInstance`.
    pub fn metric_instance(self) -> (r: Option<ActivityMetricInstance>)
        ensures
            r == self.spec_metric_instance(),
    {
        if self.kind != ActivityKind::MetricInstance {
            return None;
        }
        match self.raw {
            RawActivity::MetricInstance(value) => Some(ActivityMetricInstance::from_raw(value)),
            _ => None,
        }
    }

    /// The record decoded as an `ActivityInstantaneousEvent`, or `None` unless its kind is `InstantaneousEvent`.
    pub fn instantaneous_event(self) -> (r: Option<ActivityInstantaneousEvent>)
        ensures
            r == self.spec_instantaneous_event(),
    {
        if self.kind != ActivityKind::InstantaneousEvent {
            return None;
        }
        match self.raw {
            RawActivity::InstantaneousEvent(value) => Some(ActivityInstantaneousEvent::from_raw(value)),
            _ => None,
        }
    }

    /// The record decoded as an `ActivityInstantaneousEventInstance`, or `None` unless its kind is `InstantaneousEventInstance`.
    pub fn instantaneous_event_instance(self) -> (r: Option<ActivityInstantaneousEventInstance>)
        ensures
            r == self.spec_instantaneous_event_instance(),
    {
        if self.kind != ActivityKind::InstantaneousEventInstance {
            return None;
        }
        match self.raw {
            RawActivity::InstantaneousEventInstance(value) => Some(ActivityInstantaneousEventInstance::from_raw(value)),
            _ => None,
        }
    }

    /// The record decoded as an `ActivityInstantaneousMetric`, or `None` unless its kind is `InstantaneousMetric`.
    pub fn instantaneous_metric(self) -> (r: Option<ActivityInstantaneousMetric>)
        ensures
            r == self.spec_instantaneous_metric(),
    {
        if self.kind != ActivityKind::InstantaneousMetric {
            return None;
        }
        match self.raw {
            RawActivity::InstantaneousMetric(value) => Some(ActivityInstantaneousMetric::from_raw(value)),
            _ => None,
        }
    }

    /// The record decoded as an `ActivityInstantaneousMetricInstance`, or `None` unless its kind is `InstantaneousMetricInstance`.
    pub fn instantaneous_metric_instance(self) -> (r: Option<ActivityInstantaneousMetricInstance>)
        ensures
            r == self.spec_instantaneous_metric_instance(),
    {
        if self.kind != ActivityKind::InstantaneousMetricInstance {
            return None;
        }
        match self.raw {
            RawActivity::InstantaneousMetricInstance(value) => Some(ActivityInstantaneousMetricInstance::from_raw(value)),
            _ => None,
        }
    }

    /// The record decoded as a `ActivityGlobalAccess`, or `None` unless its kind is `GlobalAccess`.
    pub fn global_access(self) -> (r: Option<ActivityGlobalAccess>)
        ensures
            r == self.spec_global_access(),
    {
        if self.kind != ActivityKind::GlobalAccess {
            return None;
        }
        match self.raw {
            RawActivity::GlobalAccess(value) => Some(ActivityGlobalAccess::from_raw(value)),
            _ => None,
        }
    }

    /// The record decoded as a `ActivityBranch`, or `None` unless its kind is `Branch`.
    pub fn branch(self) -> (r: Option<ActivityBranch>)
        ensures
            r == self.spec_branch(),
    {
        if self.kind != ActivityKind::Branch {
            return None;
        }
        match self.raw {
            RawActivity::Branch(value) => Some(ActivityBranch::from_raw(value)),
            _ => None,
        }
    }

    /// The record decoded as an `ActivityInstructionExecution`, or `None` unless its kind is `InstructionExecution`.
    pub fn instruction_execution(self) -> (r: Option<ActivityInstructionExecution>)
        ensures
            r == self.spec_instruction_execution(),
    {
        if self.kind != ActivityKind::InstructionExecution {
            return None;
        }
        match self.raw {
            RawActivity::InstructionExecution(value) => Some(ActivityInstructionExecution::from_raw(value)),
            _ => None,
        }
    }

    /// The record decoded as a `ActivityPcSampling`, or `None` unless its kind is `PcSampling`.
    pub fn pc_sampling(self) -> (r: Option<ActivityPcSampling>)
        ensures
            r == self.spec_pc_sampling(),
    {
        if self.kind != ActivityKind::PcSampling {
            return None;
        }
        match self.raw {
            RawActivity::PcSampling(value) => Some(ActivityPcSampling::from_raw(value)),
            _ => None,
        }
    }

    /// The record decoded as a `ActivityPcSamplingRecordInfo`, or `None` unless its kind is `PcSamplingRecordInfo`.
    pub fn pc_sampling_record_info(self) -> (r: Option<ActivityPcSamplingRecordInfo>)
        ensures
            r == self.spec_pc_sampling_record_info(),
    {
        if self.kind != ActivityKind::PcSamplingRecordInfo {
            return None;
        }
        match self.raw {
            RawActivity::PcSamplingRecordInfo(value) => Some(ActivityPcSamplingRecordInfo::from_raw(value)),
            _ => None,
        }
    }

    /// The record decoded as an `ActivityUnifiedMemoryCounter`, or `None` unless its kind is `UnifiedMemoryCounter`.
    pub fn unified_memory_counter(self) -> (r: Option<ActivityUnifiedMemoryCounter>)
        ensures
            r is Some <==> ((self.spec_kind() == ActivityKind::UnifiedMemoryCounter) && self.spec_raw() is UnifiedMemoryCounter),
            r matches Some(d) ==> unified_memory_counter_decodes(self.spec_raw()->UnifiedMemoryCounter_0, d),
            r == self.spec_unified_memory_counter(),
    {
        if self.kind != ActivityKind::UnifiedMemoryCounter {
            return None;
        }
        match self.raw {
            RawActivity::UnifiedMemoryCounter(value) => {
                let d = ActivityUnifiedMemoryCounter::from_raw(value);
                proof {
                    lemma_unified_memory_counter_decoding_is_unique(value, d, choose|e: ActivityUnifiedMemoryCounter| unified_memory_counter_decodes(value, e));
                }
                Some(d)
            },
            _ => None,
        }
    }

    /// The record decoded as a `ActivityDeviceAttribute`, or `None` unless its kind is `DeviceAttribute`.
    pub fn device_attribute(self) -> (r: Option<ActivityDeviceAttribute>)
        ensures
            r == self.spec_device_attribute(),
    {
        if self.kind != ActivityKind::DeviceAttribute {
            return None;
        }
        match self.raw {
            RawActivity::DeviceAttribute(value) => Some(ActivityDeviceAttribute::from_raw(value)),
            _ => None,
        }
    }

    /// The record decoded as an `ActivityEnvironment`, or `None` unless its kind is `Environment`.
    pub fn environment(self) -> (r: Option<ActivityEnvironment>)
        ensures
            r is Some <==> ((self.spec_kind() == ActivityKind::Environment) && self.spec_raw() is Environment),
            r matches Some(d) ==> environment_decodes(self.spec_raw()->Environment_0, d),
            r == self.spec_environment(),
    {
        if self.kind != ActivityKind::Environment {
            return None;
        }
        match self.raw {
            RawActivity::Environment(value) => {
                let d = ActivityEnvironment::from_raw(value);
                proof {
                    lemma_environment_decoding_is_unique(value, d, choose|e: ActivityEnvironment| environment_decodes(value, e));
                }
                Some(d)
            },
            _ => None,
        }
    }

    /// The record decoded as a `ActivityDevice`, or `None` unless its kind is `Device`.
    pub fn device(self) -> (r: Option<ActivityDevice>)
        ensures
            r is Some <==> ((self.spec_kind() == ActivityKind::Device) && self.spec_raw() is Device),
            r matches Some(d) ==> device_decodes(self.spec_raw()->Device_0, d),
            r == self.spec_device(),
    {
        if self.kind != ActivityKind::Device {
            return None;
        }
        match self.raw {
            RawActivity::Device(value) => {
                let d = ActivityDevice::from_raw(value);
                proof {
                    lemma_device_decoding_is_unique(value, d, choose|e: ActivityDevice| device_decodes(value, e));
                }
                Some(d)
            },
            _ => None,
        }
    }

    /// The record decoded as a `ActivityJit`, or `None` unless its kind is `Jit`.
    pub fn jit(self) -> (r: Option<ActivityJit>)
        ensures
            r == self.spec_jit(),
    {
        if self.kind != ActivityKind::Jit {
            return None;
        }
        match self.raw {
            RawActivity::Jit(value) => Some(ActivityJit::from_raw(value)),
            _ => None,
        }
    }

    /// The record decoded as a `ActivityNvLink`, or `None` unless its kind is `NvLink`.
    pub fn nvlink(self) -> (r: Option<ActivityNvLink>)
        ensures
            r is Some <==> ((self.spec_kind() == ActivityKind::NvLink) && self.spec_raw() is NvLink),
            r matches Some(d) ==> nvlink_decodes(self.spec_raw()->NvLink_0, d),
            r == self.spec_nvlink(),
    {
        if self.kind != ActivityKind::NvLink {
            return None;
        }
        match self.raw {
            RawActivity::NvLink(value) => {
                let d = ActivityNvLink::from_raw(value);
                proof {
                    lemma_nvlink_decoding_is_unique(value, d, choose|e: ActivityNvLink| nvlink_decodes(value, e));
                }
                Some(d)
            },
            _ => None,
        }
    }

    /// The record decoded as a `ActivityPcie`, or `None` unless its kind is `Pcie`.
    pub fn pcie(self) -> (r: Option<ActivityPcie>)
        ensures
            r is Some <==> ((self.spec_kind() == ActivityKind::Pcie) && self.spec_raw() is Pcie),
            r matches Some(d) ==> pcie_decodes(self.spec_raw()->Pcie_0, d),
            r == self.spec_pcie(),
    {
        if self.kind != ActivityKind::Pcie {
            return None;
        }
        match self.raw {
            RawActivity::Pcie(value) => {
                let d = ActivityPcie::from_raw(value);
                proof {
                    lemma_pcie_decoding_is_unique(value, d, choose|e: ActivityPcie| pcie_decodes(value, e));
                }
                Some(d)
            },
            _ => None,
        }
    }

    /// The record decoded as an `ActivityInstructionCorrelation`, or `None` unless its kind is `InstructionCorrelation`.
    pub fn instruction_correlation(self) -> (r: Option<ActivityInstructionCorrelation>)
        ensures
            r == self.spec_instruction_correlation(),
    {
        if self.kind != ActivityKind::InstructionCorrelation {
            return None;
        }
        match self.raw {
            RawActivity::InstructionCorrelation(value) => Some(ActivityInstructionCorrelation::from_raw(value)),
            _ => None,
        }
    }

    /// The record decoded as an `ActivityOpenMultiProcessing`, or `None` unless its kind is `OpenMultiProcessing`.
    pub fn open_multi_processing(self) -> (r: Option<ActivityOpenMultiProcessing>)
        ensures
            r == self.spec_open_multi_processing(),
    {
        if self.kind != ActivityKind::OpenMultiProcessing {
            return None;
        }
        match self.raw {
            RawActivity::OpenMultiProcessing(value) => Some(ActivityOpenMultiProcessing::from_raw(value)),
            _ => None,
        }
    }

    /// The record decoded as an `ActivityOpenAccData`, or `None` unless its kind is `OpenAccData`.
    pub fn open_acc_data(self) -> (r: Option<ActivityOpenAccData>)
        ensures
            r == self.spec_open_acc_data(),
    {
        if self.kind != ActivityKind::OpenAccData {
            return None;
        }
        match self.raw {
            RawActivity::OpenAccData(value) => Some(ActivityOpenAccData::from_raw(value)),
            _ => None,
        }
    }

    /// The record decoded as an `ActivityOpenAccLaunch`, or `None` unless its kind is `OpenAccLaunch`.
    pub fn open_acc_launch(self) -> (r: Option<ActivityOpenAccLaunch>)
        ensures
            r == self.spec_open_acc_launch(),
    {
        if self.kind != ActivityKind::OpenAccLaunch {
            return None;
        }
        match self.raw {
            RawActivity::OpenAccLaunch(value) => Some(ActivityOpenAccLaunch::from_raw(value)),
            _ => None,
        }
    }

    /// The record decoded as an `ActivityOpenAccOther`, or `None` unless its kind is `OpenAccOther`.
    pub fn open_acc_other(self) -> (r: Option<ActivityOpenAccOther>)
        ensures
            r == self.spec_open_acc_other(),
    {
        if self.kind != ActivityKind::OpenAccOther {
            return None;
        }
        match self.raw {
            RawActivity::OpenAccOther(value) => Some(ActivityOpenAccOther::from_raw(value)),
            _ => None,
        }
    }

    /// The record decoded as a `ActivityPreemption`, or `None` unless its kind is `Preemption`.
    pub fn preemption(self) -> (r: Option<ActivityPreemption>)
        ensures
            r == self.spec_preemption(),
    {
        if self.kind != ActivityKind::Preemption {
            return None;
        }
        match self.raw {
            RawActivity::Preemption(value) => Some(ActivityPreemption::from_raw(value)),
            _ => None,
        }
    }

    /// The record decoded as a `ActivityFunction`, or `None` unless its kind is `Function`.
    pub fn function(self) -> (r: Option<ActivityFunction>)
        ensures
            r == self.spec_function(),
    {
        if self.kind != ActivityKind::Function {
            return None;
        }
        match self.raw {
            RawActivity::Function(value) => Some(ActivityFunction::from_raw(value)),
            _ => None,
        }
    }

    /// The record decoded as a `ActivityModule`, or `None` unless its kind is `Module`.
    pub fn module(self) -> (r: Option<ActivityModule>)
        ensures
            r is Some <==> ((self.spec_kind() == ActivityKind::Module) && self.spec_raw() is Module),
            r matches Some(d) ==> module_decodes(self.spec_raw()->Module_0, d),
            r == self.spec_module(),
    {
        if self.kind != ActivityKind::Module {
            return None;
        }
        match self.raw {
            RawActivity::Module(value) => {
                let d = ActivityModule::from_raw(value);
                proof {
                    lemma_module_decoding_is_unique(value, d, choose|e: ActivityModule| module_decodes(value, e));
                }
                Some(d)
            },
            _ => None,
        }
    }

    /// The record decoded as a `ActivitySharedAccess`, or `None` unless its kind is `SharedAccess`.
    pub fn shared_access(self) -> (r: Option<ActivitySharedAccess>)
        ensures
            r == self.spec_shared_access(),
    {
        if self.kind != ActivityKind::SharedAccess {
            return None;
        }
        match self.raw {
            RawActivity::SharedAccess(value) => Some(ActivitySharedAccess::from_raw(value)),
            _ => None,
        }
    }

    /// The record decoded as a `ActivityConfidentialComputeRotation`, or `None` unless its kind is `ConfidentialComputeRotation`.
    pub fn confidential_compute_rotation(self) -> (r: Option<ActivityConfidentialComputeRotation>)
        ensures
            r == self.spec_confidential_compute_rotation(),
    {
        if self.kind != ActivityKind::ConfidentialComputeRotation {
            return None;
        }
        match self.raw {
            RawActivity::ConfidentialComputeRotation(value) => Some(ActivityConfidentialComputeRotation::from_raw(value)),
            _ => None,
        }
    }

    /// The record decoded as a `ActivitySourceLocator`, or `None` unless its kind is `SourceLocator`.
    pub fn source_locator(self) -> (r: Option<ActivitySourceLocator>)
        ensures
            r == self.spec_source_locator(),
    {
        if self.kind != ActivityKind::SourceLocator {
            return None;
        }
        match self.raw {
            RawActivity::SourceLocator(value) => Some(ActivitySourceLocator::from_raw(value)),
            _ => None,
        }
    }

    /// The record decoded as an `ActivityOverhead`, or `None` unless its kind is `Overhead`.
    pub fn overhead(self) -> (r: Option<ActivityOverhead>)
        ensures
            r == self.spec_overhead(),
    {
        if self.kind != ActivityKind::Overhead {
            return None;
        }
        match self.raw {
            RawActivity::Overhead(value) => Some(ActivityOverhead::from_raw(value)),
            _ => None,
        }
    }

    /// The decoding the record's kind chooses: the kind's accessor result wrapped in
    /// the kind's variant, or `Unsupported` carrying the kind when the accessor gives
    /// nothing or the kind has no decoding.
    pub open spec fn decode_by_kind(self) -> ActivityRecordData {
        let kind = self.spec_kind();
        match kind {
            ActivityKind::Driver | ActivityKind::Runtime | ActivityKind::InternalLaunchApi => match self.spec_api() {
                Some(v) => ActivityRecordData::Api(v),
                None => ActivityRecordData::Unsupported { kind },
            },
            ActivityKind::MemoryCopy => match self.spec_memory_copy() {
                Some(v) => ActivityRecordData::MemoryCopy(v),
                None => ActivityRecordData::Unsupported { kind },
            },
            ActivityKind::PeerMemoryCopy => match self.spec_peer_memory_copy() {
                Some(v) => ActivityRecordData::PeerMemoryCopy(v),
                None => ActivityRecordData::Unsupported { kind },
            },
            ActivityKind::MemorySet => match self.spec_memory_set() {
                Some(v) => ActivityRecordData::MemorySet(v),
                None => ActivityRecordData::Unsupported { kind },
            },
            ActivityKind::MemoryDecompress => match self.spec_memory_decompress() {
                Some(v) => ActivityRecordData::MemoryDecompress(v),
                None => ActivityRecordData::Unsupported { kind },
            },
            ActivityKind::Kernel | ActivityKind::ConcurrentKernel => match self.spec_kernel() {
                Some(v) => ActivityRecordData::Kernel(v),
                None => ActivityRecordData::Unsupported { kind },
            },
            ActivityKind::CudaDynamicParallelismKernel => match self.spec_cuda_dynamic_parallelism_kernel() {
                Some(v) => ActivityRecordData::CudaDynamicParallelismKernel(v),
                None => ActivityRecordData::Unsupported { kind },
            },
            ActivityKind::Stream => match self.spec_stream() {
                Some(v) => ActivityRecordData::Stream(v),
                None => ActivityRecordData::Unsupported { kind },
            },
            ActivityKind::Synchronization => match self.spec_synchronization() {
                Some(v) => ActivityRecordData::Synchronization(v),
                None => ActivityRecordData::Unsupported { kind },
            },
            ActivityKind::Memory2 => match self.spec_memory() {
                Some(v) => ActivityRecordData::Memory(v),
                None => ActivityRecordData::Unsupported { kind },
            },
            ActivityKind::Memory => match self.spec_legacy_memory() {
                Some(v) => ActivityRecordData::LegacyMemory(v),
                None => ActivityRecordData::Unsupported { kind },
            },
            ActivityKind::MemoryPool => match self.spec_memory_pool() {
                Some(v) => ActivityRecordData::MemoryPool(v),
                None => ActivityRecordData::Unsupported { kind },
            },
            ActivityKind::GraphTrace => match self.spec_graph_trace() {
                Some(v) => ActivityRecordData::GraphTrace(v),
                None => ActivityRecordData::Unsupported { kind },
            },
            ActivityKind::DeviceGraphTrace => match self.spec_device_graph_trace() {
                Some(v) => ActivityRecordData::DeviceGraphTrace(v),
                None => ActivityRecordData::Unsupported { kind },
            },
            ActivityKind::GraphHostNode => match self.spec_graph_host_node() {
                Some(v) => ActivityRecordData::GraphHostNode(v),
                None => ActivityRecordData::Unsupported { kind },
            },
            ActivityKind::HostLaunch => match self.spec_host_launch() {
                Some(v) => ActivityRecordData::HostLaunch(v),
                None => ActivityRecordData::Unsupported { kind },
            },
            ActivityKind::ComputeEngineCtxSwitch => match self.spec_compute_engine_context_switch() {
                Some(v) => ActivityRecordData::ComputeEngineContextSwitch(v),
                None => ActivityRecordData::Unsupported { kind },
            },
            ActivityKind::GreenContext => match self.spec_green_context() {
                Some(v) => ActivityRecordData::GreenContext(v),
                None => ActivityRecordData::Unsupported { kind },
            },
            ActivityKind::Name => match self.spec_name() {
                Some(v) => ActivityRecordData::Name(v),
                None => ActivityRecordData::Unsupported { kind },
            },
            ActivityKind::Marker => match self.spec_marker() {
                Some(v) => ActivityRecordData::Marker(v),
                None => ActivityRecordData::Unsupported { kind },
            },
            ActivityKind::ExternalCorrelation => match self.spec_external_correlation() {
                Some(v) => ActivityRecordData::ExternalCorrelation(v),
                None => ActivityRecordData::Unsupported { kind },
            },
            ActivityKind::MarkerData => match self.spec_marker_data() {
                Some(v) => ActivityRecordData::MarkerData(v),
                None => ActivityRecordData::Unsupported { kind },
            },
            ActivityKind::CudaEvent => match self.spec_cuda_event() {
                Some(v) => ActivityRecordData::CudaEvent(v),
                None => ActivityRecordData::Unsupported { kind },
            },
            ActivityKind::Context => match self.spec_context() {
                Some(v) => ActivityRecordData::Context(v),
                None => ActivityRecordData::Unsupported { kind },
            },
            ActivityKind::Event => match self.spec_event() {
                Some(v) => ActivityRecordData::Event(v),
                None => ActivityRecordData::Unsupported { kind },
            },
            ActivityKind::EventInstance => match self.spec_event_instance() {
                Some(v) => ActivityRecordData::EventInstance(v),
                None => ActivityRecordData::Unsupported { kind },
            },
            ActivityKind::Metric => match self.spec_metric() {
                Some(v) => ActivityRecordData::Metric(v),
                None => ActivityRecordData::Unsupported { kind },
            },
            ActivityKind::MetricInstance => match self.spec_metric_instance() {
                Some(v) => ActivityRecordData::MetricInstance(v),
                None => ActivityRecordData::Unsupported { kind },
            },
            ActivityKind::InstantaneousEvent => match self.spec_instantaneous_event() {
                Some(v) => ActivityRecordData::InstantaneousEvent(v),
                None => ActivityRecordData::Unsupported { kind },
            },
            ActivityKind::InstantaneousEventInstance => match self.spec_instantaneous_event_instance() {
                Some(v) => ActivityRecordData::InstantaneousEventInstance(v),
                None => ActivityRecordData::Unsupported { kind },
            },
            ActivityKind::InstantaneousMetric => match self.spec_instantaneous_metric() {
                Some(v) => ActivityRecordData::InstantaneousMetric(v),
                None => ActivityRecordData::Unsupported { kind },
            },
            ActivityKind::InstantaneousMetricInstance => match self.spec_instantaneous_metric_instance() {
                Some(v) => ActivityRecordData::InstantaneousMetricInstance(v),
                None => ActivityRecordData::Unsupported { kind },
            },
            ActivityKind::GlobalAccess => match self.spec_global_access() {
                Some(v) => ActivityRecordData::GlobalAccess(v),
                None => ActivityRecordData::Unsupported { kind },
            },
            ActivityKind::Branch => match self.spec_branch() {
                Some(v) => ActivityRecordData::Branch(v),
                None => ActivityRecordData::Unsupported { kind },
            },
            ActivityKind::InstructionExecution => match self.spec_instruction_execution() {
                Some(v) => ActivityRecordData::InstructionExecution(v),
                None => ActivityRecordData::Unsupported { kind },
            },
            ActivityKind::PcSampling => match self.spec_pc_sampling() {
                Some(v) => ActivityRecordData::PcSampling(v),
                None => ActivityRecordData::Unsupported { kind },
            },
            ActivityKind::PcSamplingRecordInfo => match self.spec_pc_sampling_record_info() {
                Some(v) => ActivityRecordData::PcSamplingRecordInfo(v),
                None => ActivityRecordData::Unsupported { kind },
            },
            ActivityKind::UnifiedMemoryCounter => match self.spec_unified_memory_counter() {
                Some(v) => ActivityRecordData::UnifiedMemoryCounter(v),
                None => ActivityRecordData::Unsupported { kind },
            },
            ActivityKind::DeviceAttribute => match self.spec_device_attribute() {
                Some(v) => ActivityRecordData::DeviceAttribute(v),
                None => ActivityRecordData::Unsupported { kind },
            },
            ActivityKind::Environment => match self.spec_environment() {
                Some(v) => ActivityRecordData::Environment(v),
                None => ActivityRecordData::Unsupported { kind },
            },
            ActivityKind::Device => match self.spec_device() {
                Some(v) => ActivityRecordData::Device(v),
                None => ActivityRecordData::Unsupported { kind },
            },
            ActivityKind::Jit => match self.spec_jit() {
                Some(v) => ActivityRecordData::Jit(v),
                None => ActivityRecordData::Unsupported { kind },
            },
            ActivityKind::NvLink => match self.spec_nvlink() {
                Some(v) => ActivityRecordData::NvLink(v),
                None => ActivityRecordData::Unsupported { kind },
            },
            ActivityKind::Pcie => match self.spec_pcie() {
                Some(v) => ActivityRecordData::Pcie(v),
                None => ActivityRecordData::Unsupported { kind },
            },
            ActivityKind::InstructionCorrelation => match self.spec_instruction_correlation() {
                Some(v) => ActivityRecordData::InstructionCorrelation(v),
                None => ActivityRecordData::Unsupported { kind },
            },
            ActivityKind::OpenMultiProcessing => match self.spec_open_multi_processing() {
                Some(v) => ActivityRecordData::OpenMultiProcessing(v),
                None => ActivityRecordData::Unsupported { kind },
            },
            ActivityKind::OpenAccData => match self.spec_open_acc_data() {
                Some(v) => ActivityRecordData::OpenAccData(v),
                None => ActivityRecordData::Unsupported { kind },
            },
            ActivityKind::OpenAccLaunch => match self.spec_open_acc_launch() {
                Some(v) => ActivityRecordData::OpenAccLaunch(v),
                None => ActivityRecordData::Unsupported { kind },
            },
            ActivityKind::OpenAccOther => match self.spec_open_acc_other() {
                Some(v) => ActivityRecordData::OpenAccOther(v),
                None => ActivityRecordData::Unsupported { kind },
            },
            ActivityKind::Preemption => match self.spec_preemption() {
                Some(v) => ActivityRecordData::Preemption(v),
                None => ActivityRecordData::Unsupported { kind },
            },
            ActivityKind::Function => match self.spec_function() {
                Some(v) => ActivityRecordData::Function(v),
                None => ActivityRecordData::Unsupported { kind },
            },
            ActivityKind::Module => match self.spec_module() {
                Some(v) => ActivityRecordData::Module(v),
                None => ActivityRecordData::Unsupported { kind },
            },
            ActivityKind::SharedAccess => match self.spec_shared_access() {
                Some(v) => ActivityRecordData::SharedAccess(v),
                None => ActivityRecordData::Unsupported { kind },
            },
            ActivityKind::ConfidentialComputeRotation => match self.spec_confidential_compute_rotation() {
                Some(v) => ActivityRecordData::ConfidentialComputeRotation(v),
                None => ActivityRecordData::Unsupported { kind },
            },
            ActivityKind::SourceLocator => match self.spec_source_locator() {
                Some(v) => ActivityRecordData::SourceLocator(v),
                None => ActivityRecordData::Unsupported { kind },
            },
            ActivityKind::Overhead => match self.spec_overhead() {
                Some(v) => ActivityRecordData::Overhead(v),
                None => ActivityRecordData::Unsupported { kind },
            },
            _ => ActivityRecordData::Unsupported { kind },
        }
    }

    /// Decodes the record by its kind into the matching variant, or `Unsupported`
    /// when its kind has no decoded form or its fields are not in that kind's layout.
    #[verifier::rlimit(60)]
    #[verifier::spinoff_prover]
    pub fn decode(self) -> (r: ActivityRecordData)
        ensures
            record_decodes(self.spec_kind(), self.spec_raw(), r),
            r == self.decode_by_kind(),
    {
        let ghost record = self;
        let kind = self.kind;
        let r = match kind {
            ActivityKind::Driver | ActivityKind::Runtime | ActivityKind::InternalLaunchApi => match self.api() {
                Some(v) => ActivityRecordData::Api(v),
                None => ActivityRecordData::Unsupported { kind },
            },
            ActivityKind::MemoryCopy => match self.memory_copy() {
                Some(v) => ActivityRecordData::MemoryCopy(v),
                None => ActivityRecordData::Unsupported { kind },
            },
            ActivityKind::PeerMemoryCopy => match self.peer_memory_copy() {
                Some(v) => ActivityRecordData::PeerMemoryCopy(v),
                None => ActivityRecordData::Unsupported { kind },
            },
            ActivityKind::MemorySet => match self.memory_set() {
                Some(v) => ActivityRecordData::MemorySet(v),
                None => ActivityRecordData::Unsupported { kind },
            },
            ActivityKind::MemoryDecompress => match self.memory_decompress() {
                Some(v) => ActivityRecordData::MemoryDecompress(v),
                None => ActivityRecordData::Unsupported { kind },
            },
            ActivityKind::Kernel | ActivityKind::ConcurrentKernel => match self.kernel() {
                Some(v) => ActivityRecordData::Kernel(v),
                None => ActivityRecordData::Unsupported { kind },
            },
            ActivityKind::CudaDynamicParallelismKernel => match self.cuda_dynamic_parallelism_kernel() {
                Some(v) => ActivityRecordData::CudaDynamicParallelismKernel(v),
                None => ActivityRecordData::Unsupported { kind },
            },
            ActivityKind::Stream => match self.stream() {
                Some(v) => ActivityRecordData::Stream(v),
                None => ActivityRecordData::Unsupported { kind },
            },
            ActivityKind::Synchronization => match self.synchronization() {
                Some(v) => ActivityRecordData::Synchronization(v),
                None => ActivityRecordData::Unsupported { kind },
            },
            ActivityKind::Memory2 => match self.memory() {
                Some(v) => ActivityRecordData::Memory(v),
                None => ActivityRecordData::Unsupported { kind },
            },
            ActivityKind::Memory => match self.legacy_memory() {
                Some(v) => ActivityRecordData::LegacyMemory(v),
                None => ActivityRecordData::Unsupported { kind },
            },
            ActivityKind::MemoryPool => match self.memory_pool() {
                Some(v) => ActivityRecordData::MemoryPool(v),
                None => ActivityRecordData::Unsupported { kind },
            },
            ActivityKind::GraphTrace => match self.graph_trace() {
                Some(v) => ActivityRecordData::GraphTrace(v),
                None => ActivityRecordData::Unsupported { kind },
            },
            ActivityKind::DeviceGraphTrace => match self.device_graph_trace() {
                Some(v) => ActivityRecordData::DeviceGraphTrace(v),
                None => ActivityRecordData::Unsupported { kind },
            },
            ActivityKind::GraphHostNode => match self.graph_host_node() {
                Some(v) => ActivityRecordData::GraphHostNode(v),
                None => ActivityRecordData::Unsupported { kind },
            },
            ActivityKind::HostLaunch => match self.host_launch() {
                Some(v) => ActivityRecordData::HostLaunch(v),
                None => ActivityRecordData::Unsupported { kind },
            },
            ActivityKind::ComputeEngineCtxSwitch => match self.compute_engine_context_switch() {
                Some(v) => ActivityRecordData::ComputeEngineContextSwitch(v),
                None => ActivityRecordData::Unsupported { kind },
            },
            ActivityKind::GreenContext => match self.green_context() {
                Some(v) => ActivityRecordData::GreenContext(v),
                None => ActivityRecordData::Unsupported { kind },
            },
            ActivityKind::Name => match self.name() {
                Some(v) => ActivityRecordData::Name(v),
                None => ActivityRecordData::Unsupported { kind },
            },
            ActivityKind::Marker => match self.marker() {
                Some(v) => ActivityRecordData::Marker(v),
                None => ActivityRecordData::Unsupported { kind },
            },
            ActivityKind::ExternalCorrelation => match self.external_correlation() {
                Some(v) => ActivityRecordData::ExternalCorrelation(v),
                None => ActivityRecordData::Unsupported { kind },
            },
            ActivityKind::MarkerData => match self.marker_data() {
                Some(v) => ActivityRecordData::MarkerData(v),
                None => ActivityRecordData::Unsupported { kind },
            },
            ActivityKind::CudaEvent => match self.cuda_event() {
                Some(v) => ActivityRecordData::CudaEvent(v),
                None => ActivityRecordData::Unsupported { kind },
            },
            ActivityKind::Context => match self.context() {
                Some(v) => ActivityRecordData::Context(v),
                None => ActivityRecordData::Unsupported { kind },
            },
            ActivityKind::Event => match self.event() {
                Some(v) => ActivityRecordData::Event(v),
                None => ActivityRecordData::Unsupported { kind },
            },
            ActivityKind::EventInstance => match self.event_instance() {
                Some(v) => ActivityRecordData::EventInstance(v),
                None => ActivityRecordData::Unsupported { kind },
            },
            ActivityKind::Metric => match self.metric() {
                Some(v) => ActivityRecordData::Metric(v),
                None => ActivityRecordData::Unsupported { kind },
            },
            ActivityKind::MetricInstance => match self.metric_instance() {
                Some(v) => ActivityRecordData::MetricInstance(v),
                None => ActivityRecordData::Unsupported { kind },
            },
            ActivityKind::InstantaneousEvent => match self.instantaneous_event() {
                Some(v) => ActivityRecordData::InstantaneousEvent(v),
                None => ActivityRecordData::Unsupported { kind },
            },
            ActivityKind::InstantaneousEventInstance => match self.instantaneous_event_instance() {
                Some(v) => ActivityRecordData::InstantaneousEventInstance(v),
                None => ActivityRecordData::Unsupported { kind },
            },
            ActivityKind::InstantaneousMetric => match self.instantaneous_metric() {
                Some(v) => ActivityRecordData::InstantaneousMetric(v),
                None => ActivityRecordData::Unsupported { kind },
            },
            ActivityKind::InstantaneousMetricInstance => match self.instantaneous_metric_instance() {
                Some(v) => ActivityRecordData::InstantaneousMetricInstance(v),
                None => ActivityRecordData::Unsupported { kind },
            },
            ActivityKind::GlobalAccess => match self.global_access() {
                Some(v) => ActivityRecordData::GlobalAccess(v),
                None => ActivityRecordData::Unsupported { kind },
            },
            ActivityKind::Branch => match self.branch() {
                Some(v) => ActivityRecordData::Branch(v),
                None => ActivityRecordData::Unsupported { kind },
            },
            ActivityKind::InstructionExecution => match self.instruction_execution() {
                Some(v) => ActivityRecordData::InstructionExecution(v),
                None => ActivityRecordData::Unsupported { kind },
            },
            ActivityKind::PcSampling => match self.pc_sampling() {
                Some(v) => ActivityRecordData::PcSampling(v),
                None => ActivityRecordData::Unsupported { kind },
            },
            ActivityKind::PcSamplingRecordInfo => match self.pc_sampling_record_info() {
                Some(v) => ActivityRecordData::PcSamplingRecordInfo(v),
                None => ActivityRecordData::Unsupported { kind },
            },
            ActivityKind::UnifiedMemoryCounter => match self.unified_memory_counter() {
                Some(v) => ActivityRecordData::UnifiedMemoryCounter(v),
                None => ActivityRecordData::Unsupported { kind },
            },
            ActivityKind::DeviceAttribute => match self.device_attribute() {
                Some(v) => ActivityRecordData::DeviceAttribute(v),
                None => ActivityRecordData::Unsupported { kind },
            },
            ActivityKind::Environment => match self.environment() {
                Some(v) => ActivityRecordData::Environment(v),
                None => ActivityRecordData::Unsupported { kind },
            },
            ActivityKind::Device => match self.device() {
                Some(v) => ActivityRecordData::Device(v),
                None => ActivityRecordData::Unsupported { kind },
            },
            ActivityKind::Jit => match self.jit() {
                Some(v) => ActivityRecordData::Jit(v),
                None => ActivityRecordData::Unsupported { kind },
            },
            ActivityKind::NvLink => match self.nvlink() {
                Some(v) => ActivityRecordData::NvLink(v),
                None => ActivityRecordData::Unsupported { kind },
            },
            ActivityKind::Pcie => match self.pcie() {
                Some(v) => ActivityRecordData::Pcie(v),
                None => ActivityRecordData::Unsupported { kind },
            },
            ActivityKind::InstructionCorrelation => match self.instruction_correlation() {
                Some(v) => ActivityRecordData::InstructionCorrelation(v),
                None => ActivityRecordData::Unsupported { kind },
            },
            ActivityKind::OpenMultiProcessing => match self.open_multi_processing() {
                Some(v) => ActivityRecordData::OpenMultiProcessing(v),
                None => ActivityRecordData::Unsupported { kind },
            },
            ActivityKind::OpenAccData => match self.open_acc_data() {
                Some(v) => ActivityRecordData::OpenAccData(v),
                None => ActivityRecordData::Unsupported { kind },
            },
            ActivityKind::OpenAccLaunch => match self.open_acc_launch() {
                Some(v) => ActivityRecordData::OpenAccLaunch(v),
                None => ActivityRecordData::Unsupported { kind },
            },
            ActivityKind::OpenAccOther => match self.open_acc_other() {
                Some(v) => ActivityRecordData::OpenAccOther(v),
                None => ActivityRecordData::Unsupported { kind },
            },
            ActivityKind::Preemption => match self.preemption() {
                Some(v) => ActivityRecordData::Preemption(v),
                None => ActivityRecordData::Unsupported { kind },
            },
            ActivityKind::Function => match self.function() {
                Some(v) => ActivityRecordData::Function(v),
                None => ActivityRecordData::Unsupported { kind },
            },
            ActivityKind::Module => match self.module() {
                Some(v) => ActivityRecordData::Module(v),
                None => ActivityRecordData::Unsupported { kind },
            },
            ActivityKind::SharedAccess => match self.shared_access() {
                Some(v) => ActivityRecordData::SharedAccess(v),
                None => ActivityRecordData::Unsupported { kind },
            },
            ActivityKind::ConfidentialComputeRotation => match self.confidential_compute_rotation() {
                Some(v) => ActivityRecordData::ConfidentialComputeRotation(v),
                None => ActivityRecordData::Unsupported { kind },
            },
            ActivityKind::SourceLocator => match self.source_locator() {
                Some(v) => ActivityRecordData::SourceLocator(v),
                None => ActivityRecordData::Unsupported { kind },
            },
            ActivityKind::Overhead => match self.overhead() {
                Some(v) => ActivityRecordData::Overhead(v),
                None => ActivityRecordData::Unsupported { kind },
            },
            _ => ActivityRecordData::Unsupported { kind },
        };
        proof {
            lemma_decode_wraps_kind_accessor(record, r);
        }
        r
    }
}


/// Decoding a record is chosen by its kind and wraps that kind's accessor: the API
/// kinds give `Api` of [`ActivityRecord::api`], `Kernel` and `ConcurrentKernel` give
/// `Kernel` of [`ActivityRecord::kernel`], `Memory2` gives `Memory` of
/// [`ActivityRecord::memory`], `Memory` gives `LegacyMemory` of
/// [`ActivityRecord::legacy_memory`], and so on for every decoded kind; a kind without
/// a decoding, or a record whose accessor gives nothing, decodes as `Unsupported` with
/// the record's kind.
pub proof fn lemma_decode_wraps_kind_accessor(record: ActivityRecord, data: ActivityRecordData)
    requires
        record_decodes(record.spec_kind(), record.spec_raw(), data),
    ensures
        data == record.decode_by_kind(),
{
    match record.spec_raw() {
            RawActivity::Name(v) => {
                if layout_matches(record.spec_kind(), record.spec_raw()) {
                    lemma_name_decoding_is_unique(v, data->Name_0, choose|d: ActivityName| name_decodes(v, d));
                }
            },
            RawActivity::UnifiedMemoryCounter(v) => {
                if layout_matches(record.spec_kind(), record.spec_raw()) {
                    lemma_unified_memory_counter_decoding_is_unique(v, data->UnifiedMemoryCounter_0, choose|d: ActivityUnifiedMemoryCounter| unified_memory_counter_decodes(v, d));
                }
            },
            RawActivity::Environment(v) => {
                if layout_matches(record.spec_kind(), record.spec_raw()) {
                    lemma_environment_decoding_is_unique(v, data->Environment_0, choose|d: ActivityEnvironment| environment_decodes(v, d));
                }
            },
            RawActivity::Device(v) => {
                if layout_matches(record.spec_kind(), record.spec_raw()) {
                    lemma_device_decoding_is_unique(v, data->Device_0, choose|d: ActivityDevice| device_decodes(v, d));
                }
            },
            RawActivity::NvLink(v) => {
                if layout_matches(record.spec_kind(), record.spec_raw()) {
                    lemma_nvlink_decoding_is_unique(v, data->NvLink_0, choose|d: ActivityNvLink| nvlink_decodes(v, d));
                }
            },
            RawActivity::Pcie(v) => {
                if layout_matches(record.spec_kind(), record.spec_raw()) {
                    lemma_pcie_decoding_is_unique(v, data->Pcie_0, choose|d: ActivityPcie| pcie_decodes(v, d));
                }
            },
            RawActivity::Module(v) => {
                if layout_matches(record.spec_kind(), record.spec_raw()) {
                    lemma_module_decoding_is_unique(v, data->Module_0, choose|d: ActivityModule| module_decodes(v, d));
                }
            },
            _ => {},
        }
}

/// A decoded record is `Unsupported` exactly when its fields are not in the layout
/// that its kind selects, and then it carries the record's kind.
pub proof fn lemma_decode_unsupported_iff_layout_mismatch(
    kind: ActivityKind,
    raw: RawActivity,
    data: ActivityRecordData,
)
    requires
        record_decodes(kind, raw, data),
    ensures
        data is Unsupported <==> !layout_matches(kind, raw),
        data is Unsupported ==> data->kind == kind,
{
}

/// A name record has one decoding.
pub proof fn lemma_name_decoding_is_unique(value: RawName, a: ActivityName, b: ActivityName)
    requires
        name_decodes(value, a),
        name_decodes(value, b),
    ensures
        a == b,
{
}

/// A module record has one decoding.
pub proof fn lemma_module_decoding_is_unique(value: RawModule, a: ActivityModule, b: ActivityModule)
    requires
        module_decodes(value, a),
        module_decodes(value, b),
    ensures
        a == b,
{
}

/// An environment record has one decoding.
pub proof fn lemma_environment_decoding_is_unique(value: RawEnvironment, a: ActivityEnvironment, b: ActivityEnvironment)
    requires
        environment_decodes(value, a),
        environment_decodes(value, b),
    ensures
        a == b,
{
}

/// A PCIe record has one decoding.
pub proof fn lemma_pcie_decoding_is_unique(value: RawPcie, a: ActivityPcie, b: ActivityPcie)
    requires
        pcie_decodes(value, a),
        pcie_decodes(value, b),
    ensures
        a == b,
{
    broadcast use vstd::array::group_array_axioms;

    if value.device_type == PcieDeviceType::Gpu {
        let x = a.attributes->Gpu_0;
        let y = b.attributes->Gpu_0;
        assert(x.uuid =~= y.uuid);
        assert(x.peer_devices =~= y.peer_devices);
    }
}

/// An NVLink record has one decoding.
pub proof fn lemma_nvlink_decoding_is_unique(value: RawNvLink, a: ActivityNvLink, b: ActivityNvLink)
    requires
        nvlink_decodes(value, a),
        nvlink_decodes(value, b),
    ensures
        a == b,
{
    broadcast use vstd::array::group_array_axioms;

    if value.type_dev0 == DeviceType::Gpu {
        assert(a.device0_id->uuid =~= b.device0_id->uuid);
    }
    if value.type_dev1 == DeviceType::Gpu {
        assert(a.device1_id->uuid =~= b.device1_id->uuid);
    }
}

/// A device record has one decoding.
pub proof fn lemma_device_decoding_is_unique(value: RawDevice, a: ActivityDevice, b: ActivityDevice)
    requires
        device_decodes(value, a),
        device_decodes(value, b),
    ensures
        a == b,
{
    broadcast use vstd::array::group_array_axioms;

    assert(a.uuid =~= b.uuid);
    assert(a.mig_uuid =~= b.mig_uuid);
}

/// A Unified Memory counter record has one decoding.
pub proof fn lemma_unified_memory_counter_decoding_is_unique(
    value: RawUnifiedMemoryCounter,
    a: ActivityUnifiedMemoryCounter,
    b: ActivityUnifiedMemoryCounter,
)
    requires
        unified_memory_counter_decodes(value, a),
        unified_memory_counter_decodes(value, b),
    ensures
        a == b,
{
}

/// A record has one decoding: chosen by its kind, it is the value that kind's accessor
/// returns (such as `Kernel` of [`ActivityRecord::kernel`] for a kernel record, `Memory`
/// of [`ActivityRecord::memory`] for a `Memory2` record), and `Unsupported` when the
/// fields are not of the kind's layout. So what [`ActivityRecord::decode`] returns
/// equals the kind's accessor result wrapped in the kind's variant.
pub proof fn lemma_record_decoding_is_unique(kind: ActivityKind, raw: RawActivity, a: ActivityRecordData, b: ActivityRecordData)
    requires
        record_decodes(kind, raw, a),
        record_decodes(kind, raw, b),
    ensures
        a == b,
{
    if layout_matches(kind, raw) {
        match raw {
            RawActivity::Name(v) => lemma_name_decoding_is_unique(v, a->Name_0, b->Name_0),
            RawActivity::Module(v) => lemma_module_decoding_is_unique(v, a->Module_0, b->Module_0),
            RawActivity::Environment(v) => lemma_environment_decoding_is_unique(v, a->Environment_0, b->Environment_0),
            RawActivity::Pcie(v) => lemma_pcie_decoding_is_unique(v, a->Pcie_0, b->Pcie_0),
            RawActivity::NvLink(v) => lemma_nvlink_decoding_is_unique(v, a->NvLink_0, b->NvLink_0),
            RawActivity::Device(v) => lemma_device_decoding_is_unique(v, a->Device_0, b->Device_0),
            RawActivity::UnifiedMemoryCounter(v) => lemma_unified_memory_counter_decoding_is_unique(
                v,
                a->UnifiedMemoryCounter_0,
                b->UnifiedMemoryCounter_0,
            ),
            _ => {},
        }
    }
}

/// Each field of a decoded graph trace record is taken from the raw record's
/// matching field: identifiers and flags keep their raw values, timestamps and counts
/// are copied, and each enum and flag word is read from the field it names.
pub proof fn lemma_graph_trace_fields_follow_raw(value: RawGraphTrace)
    ensures
        decoded_graph_trace(value).correlation_id@ == value.correlation_id,
        decoded_graph_trace(value).start == (value.start),
        decoded_graph_trace(value).end == (value.end),
        decoded_graph_trace(value).device_id@ == value.device_id,
        decoded_graph_trace(value).graph_id@ == value.graph_id,
        decoded_graph_trace(value).context_id@ == value.context_id,
        decoded_graph_trace(value).stream_id@ == value.stream_id,
        decoded_graph_trace(value).end_device_id@ == value.end_device_id,
        decoded_graph_trace(value).end_context_id@ == value.end_context_id,
{
}

/// Each field of a decoded graph host node record is taken from the raw record's
/// matching field: identifiers and flags keep their raw values, timestamps and counts
/// are copied, and each enum and flag word is read from the field it names.
pub proof fn lemma_graph_host_node_fields_follow_raw(value: RawGraphHostNode)
    ensures
        decoded_graph_host_node(value).stream_id@ == value.stream_id,
        decoded_graph_host_node(value).context_id@ == value.context_id,
        decoded_graph_host_node(value).device_id@ == value.device_id,
        decoded_graph_host_node(value).correlation_id@ == value.correlation_id,
        decoded_graph_host_node(value).graph_id@ == value.graph_id,
        decoded_graph_host_node(value).graph_node_id@ == value.graph_node_id,
        decoded_graph_host_node(value).process_id@ == value.process_id,
        decoded_graph_host_node(value).thread_id@ == value.thread_id,
        decoded_graph_host_node(value).start == (value.start),
        decoded_graph_host_node(value).end == (value.end),
{
}

/// Each field of a decoded host launch record is taken from the raw record's
/// matching field: identifiers and flags keep their raw values, timestamps and counts
/// are copied, and each enum and flag word is read from the field it names.
pub proof fn lemma_host_launch_fields_follow_raw(value: RawHostLaunch)
    ensures
        decoded_host_launch(value).stream_id@ == value.stream_id,
        decoded_host_launch(value).context_id@ == value.context_id,
        decoded_host_launch(value).device_id@ == value.device_id,
        decoded_host_launch(value).correlation_id@ == value.correlation_id,
        decoded_host_launch(value).process_id@ == value.process_id,
        decoded_host_launch(value).thread_id@ == value.thread_id,
        decoded_host_launch(value).start == (value.start),
        decoded_host_launch(value).end == (value.end),
{
}

/// Each field of a decoded metric record is taken from the raw record's
/// matching field: identifiers and flags keep their raw values, timestamps and counts
/// are copied, and each enum and flag word is read from the field it names.
pub proof fn lemma_metric_fields_follow_raw(value: RawMetric)
    ensures
        decoded_metric(value).id@ == value.id,
        decoded_metric(value).value@ == value.value,
        decoded_metric(value).correlation_id@ == value.correlation_id,
        decoded_metric(value).flags@ == value.flags & 0x3ff,
{
}

/// Each field of a decoded metric instance record is taken from the raw record's
/// matching field: identifiers and flags keep their raw values, timestamps and counts
/// are copied, and each enum and flag word is read from the field it names.
pub proof fn lemma_metric_instance_fields_follow_raw(value: RawMetricInstance)
    ensures
        decoded_metric_instance(value).id@ == value.id,
        decoded_metric_instance(value).value@ == value.value,
        decoded_metric_instance(value).instance == (value.instance),
        decoded_metric_instance(value).correlation_id@ == value.correlation_id,
        decoded_metric_instance(value).flags@ == value.flags & 0x3ff,
{
}

/// Each field of a decoded cuda event record is taken from the raw record's
/// matching field: identifiers and flags keep their raw values, timestamps and counts
/// are copied, and each enum and flag word is read from the field it names.
pub proof fn lemma_cuda_event_fields_follow_raw(value: RawCudaEvent)
    ensures
        decoded_cuda_event(value).correlation_id@ == value.correlation_id,
        decoded_cuda_event(value).context_id@ == value.context_id,
        decoded_cuda_event(value).stream_id@ == value.stream_id,
        decoded_cuda_event(value).event_id@ == value.event_id,
        decoded_cuda_event(value).device_id@ == value.device_id,
        decoded_cuda_event(value).device_timestamp == (value.device_timestamp),
        decoded_cuda_event(value).cuda_event_sync_id@ == value.cuda_event_sync_id,
{
}

/// Each field of a decoded event record is taken from the raw record's
/// matching field: identifiers and flags keep their raw values, timestamps and counts
/// are copied, and each enum and flag word is read from the field it names.
pub proof fn lemma_event_fields_follow_raw(value: RawEvent)
    ensures
        decoded_event(value).id@ == value.id,
        decoded_event(value).value == (value.value),
        decoded_event(value).domain_id@ == value.domain_id,
        decoded_event(value).correlation_id@ == value.correlation_id,
{
}

/// Each field of a decoded event instance record is taken from the raw record's
/// matching field: identifiers and flags keep their raw values, timestamps and counts
/// are copied, and each enum and flag word is read from the field it names.
pub proof fn lemma_event_instance_fields_follow_raw(value: RawEventInstance)
    ensures
        decoded_event_instance(value).id@ == value.id,
        decoded_event_instance(value).domain_id@ == value.domain_id,
        decoded_event_instance(value).instance == (value.instance),
        decoded_event_instance(value).value == (value.value),
        decoded_event_instance(value).correlation_id@ == value.correlation_id,
{
}

/// Each field of a decoded instantaneous event record is taken from the raw record's
/// matching field: identifiers and flags keep their raw values, timestamps and counts
/// are copied, and each enum and flag word is read from the field it names.
pub proof fn lemma_instantaneous_event_fields_follow_raw(value: RawInstantaneousEvent)
    ensures
        decoded_instantaneous_event(value).id@ == value.id,
        decoded_instantaneous_event(value).value == (value.value),
        decoded_instantaneous_event(value).timestamp == (value.timestamp),
        decoded_instantaneous_event(value).device_id@ == value.device_id,
{
}

/// Each field of a decoded instantaneous event instance record is taken from the raw record's
/// matching field: identifiers and flags keep their raw values, timestamps and counts
/// are copied, and each enum and flag word is read from the field it names.
pub proof fn lemma_instantaneous_event_instance_fields_follow_raw(value: RawInstantaneousEventInstance)
    ensures
        decoded_instantaneous_event_instance(value).id@ == value.id,
        decoded_instantaneous_event_instance(value).value == (value.value),
        decoded_instantaneous_event_instance(value).timestamp == (value.timestamp),
        decoded_instantaneous_event_instance(value).device_id@ == value.device_id,
        decoded_instantaneous_event_instance(value).instance == (value.instance),
{
}

/// Each field of a decoded instantaneous metric record is taken from the raw record's
/// matching field: identifiers and flags keep their raw values, timestamps and counts
/// are copied, and each enum and flag word is read from the field it names.
pub proof fn lemma_instantaneous_metric_fields_follow_raw(value: RawInstantaneousMetric)
    ensures
        decoded_instantaneous_metric(value).id@ == value.id,
        decoded_instantaneous_metric(value).value@ == value.value,
        decoded_instantaneous_metric(value).timestamp == (value.timestamp),
        decoded_instantaneous_metric(value).device_id@ == value.device_id,
        decoded_instantaneous_metric(value).flags@ == value.flags & 0x3ff,
{
}

/// Each field of a decoded instantaneous metric instance record is taken from the raw record's
/// matching field: identifiers and flags keep their raw values, timestamps and counts
/// are copied, and each enum and flag word is read from the field it names.
pub proof fn lemma_instantaneous_metric_instance_fields_follow_raw(value: RawInstantaneousMetricInstance)
    ensures
        decoded_instantaneous_metric_instance(value).id@ == value.id,
        decoded_instantaneous_metric_instance(value).value@ == value.value,
        decoded_instantaneous_metric_instance(value).timestamp == (value.timestamp),
        decoded_instantaneous_metric_instance(value).device_id@ == value.device_id,
        decoded_instantaneous_metric_instance(value).flags@ == value.flags & 0x3ff,
        decoded_instantaneous_metric_instance(value).instance == (value.instance),
{
}

/// Each field of a decoded global access record is taken from the raw record's
/// matching field: identifiers and flags keep their raw values, timestamps and counts
/// are copied, and each enum and flag word is read from the field it names.
pub proof fn lemma_global_access_fields_follow_raw(value: RawGlobalAccess)
    ensures
        decoded_global_access(value).flags@ == value.flags & 0x3ff,
        decoded_global_access(value).source_locator_id@ == value.source_locator_id,
        decoded_global_access(value).correlation_id@ == value.correlation_id,
        decoded_global_access(value).function_id@ == value.function_id,
        decoded_global_access(value).executed == (value.executed),
        decoded_global_access(value).pc_offset == (value.pc_offset),
        decoded_global_access(value).threads_executed == (value.threads_executed),
        decoded_global_access(value).l2_transactions == (value.l2_transactions),
        decoded_global_access(value).theoretical_l2_transactions == (value.theoretical_l2_transactions),
{
}

/// Each field of a decoded branch record is taken from the raw record's
/// matching field: identifiers and flags keep their raw values, timestamps and counts
/// are copied, and each enum and flag word is read from the field it names.
pub proof fn lemma_branch_fields_follow_raw(value: RawBranch)
    ensures
        decoded_branch(value).source_locator_id@ == value.source_locator_id,
        decoded_branch(value).correlation_id@ == value.correlation_id,
        decoded_branch(value).function_id@ == value.function_id,
        decoded_branch(value).pc_offset == (value.pc_offset),
        decoded_branch(value).diverged == (value.diverged),
        decoded_branch(value).threads_executed == (value.threads_executed),
        decoded_branch(value).executed == (value.executed),
{
}

/// Each field of a decoded instruction execution record is taken from the raw record's
/// matching field: identifiers and flags keep their raw values, timestamps and counts
/// are copied, and each enum and flag word is read from the field it names.
pub proof fn lemma_instruction_execution_fields_follow_raw(value: RawInstructionExecution)
    ensures
        decoded_instruction_execution(value).flags@ == value.flags & 0x3ff,
        decoded_instruction_execution(value).source_locator_id@ == value.source_locator_id,
        decoded_instruction_execution(value).correlation_id@ == value.correlation_id,
        decoded_instruction_execution(value).function_id@ == value.function_id,
        decoded_instruction_execution(value).pc_offset == (value.pc_offset),
        decoded_instruction_execution(value).threads_executed == (value.threads_executed),
        decoded_instruction_execution(value).not_predicated_off_threads_executed == (value.not_predicated_off_threads_executed),
        decoded_instruction_execution(value).executed == (value.executed),
{
}

/// Each field of a decoded pc sampling record info record is taken from the raw record's
/// matching field: identifiers and flags keep their raw values, timestamps and counts
/// are copied, and each enum and flag word is read from the field it names.
pub proof fn lemma_pc_sampling_record_info_fields_follow_raw(value: RawPcSamplingRecordInfo)
    ensures
        decoded_pc_sampling_record_info(value).correlation_id@ == value.correlation_id,
        decoded_pc_sampling_record_info(value).total_samples == (value.total_samples),
        decoded_pc_sampling_record_info(value).dropped_samples == (value.dropped_samples),
        decoded_pc_sampling_record_info(value).sampling_period_in_cycles == (value.sampling_period_in_cycles),
{
}

/// Each field of a decoded instruction correlation record is taken from the raw record's
/// matching field: identifiers and flags keep their raw values, timestamps and counts
/// are copied, and each enum and flag word is read from the field it names.
pub proof fn lemma_instruction_correlation_fields_follow_raw(value: RawInstructionCorrelation)
    ensures
        decoded_instruction_correlation(value).flags@ == value.flags & 0x3ff,
        decoded_instruction_correlation(value).source_locator_id@ == value.source_locator_id,
        decoded_instruction_correlation(value).function_id@ == value.function_id,
        decoded_instruction_correlation(value).pc_offset == (value.pc_offset),
{
}

/// Each field of a decoded shared access record is taken from the raw record's
/// matching field: identifiers and flags keep their raw values, timestamps and counts
/// are copied, and each enum and flag word is read from the field it names.
pub proof fn lemma_shared_access_fields_follow_raw(value: RawSharedAccess)
    ensures
        decoded_shared_access(value).flags@ == value.flags & 0x3ff,
        decoded_shared_access(value).source_locator_id@ == value.source_locator_id,
        decoded_shared_access(value).correlation_id@ == value.correlation_id,
        decoded_shared_access(value).function_id@ == value.function_id,
        decoded_shared_access(value).pc_offset == (value.pc_offset),
        decoded_shared_access(value).threads_executed == (value.threads_executed),
        decoded_shared_access(value).shared_transactions == (value.shared_transactions),
        decoded_shared_access(value).theoretical_shared_transactions == (value.theoretical_shared_transactions),
        decoded_shared_access(value).executed == (value.executed),
{
}

/// Each field of a decoded green context record is taken from the raw record's
/// matching field: identifiers and flags keep their raw values, timestamps and counts
/// are copied, and each enum and flag word is read from the field it names.
pub proof fn lemma_green_context_fields_follow_raw(value: RawGreenContext)
    ensures
        decoded_green_context(value).context_id@ == value.context_id,
        decoded_green_context(value).parent_context_id@ == value.parent_context_id,
        decoded_green_context(value).device_id@ == value.device_id,
        decoded_green_context(value).num_tpcs == (value.num_tpcs),
        decoded_green_context(value).num_multiprocessors == (value.num_multiprocessors),
        decoded_green_context(value).logical_tpc_mask == (value.logical_tpc_mask),
        decoded_green_context(value).logical_tpc_mask_size == (value.logical_tpc_mask_size),
{
}

/// Each field of a decoded device graph trace record is taken from the raw record's
/// matching field: identifiers and flags keep their raw values, timestamps and counts
/// are copied, and each enum and flag word is read from the field it names.
pub proof fn lemma_device_graph_trace_fields_follow_raw(value: RawDeviceGraphTrace)
    ensures
        decoded_device_graph_trace(value).device_id@ == value.device_id,
        decoded_device_graph_trace(value).start == (value.start),
        decoded_device_graph_trace(value).end == (value.end),
        decoded_device_graph_trace(value).graph_id@ == value.graph_id,
        decoded_device_graph_trace(value).launcher_graph_id@ == value.launcher_graph_id,
        decoded_device_graph_trace(value).device_launch_mode == (launch_mode_of(value.device_launch_mode)),
        decoded_device_graph_trace(value).context_id@ == value.context_id,
        decoded_device_graph_trace(value).stream_id@ == value.stream_id,
{
}

/// Each field of a decoded memory pool config record is taken from the raw record's
/// matching field: identifiers and flags keep their raw values, timestamps and counts
/// are copied, and each enum and flag word is read from the field it names.
pub proof fn lemma_memory_pool_config_fields_follow_raw(value: RawMemoryPoolConfig)
    ensures
        decoded_memory_pool_config(value).pool_type == (value.memory_pool_type),
        decoded_memory_pool_config(value).address == (value.address),
        decoded_memory_pool_config(value).data == (match value.memory_pool_type { ActivityMemoryPoolType::Local => ActivityMemoryPoolConfigData::Local { size: value.pool, release_threshold: value.release_threshold, utilized_size: value.utilized_size, }, ActivityMemoryPoolType::Imported => ActivityMemoryPoolConfigData::Imported { process_id: ProcessId::of(value.pool), }, _ => ActivityMemoryPoolConfigData::Unknown { raw_value: value.pool, release_threshold: value.release_threshold, utilized_size: value.utilized_size, }, }),
{
}

/// Each field of a decoded api record is taken from the raw record's
/// matching field: identifiers and flags keep their raw values, timestamps and counts
/// are copied, and each enum and flag word is read from the field it names.
pub proof fn lemma_api_fields_follow_raw(value: RawApi)
    ensures
        decoded_api(value).kind == (value.kind),
        decoded_api(value).callback_id@ == value.callback_id,
        decoded_api(value).start == (value.start),
        decoded_api(value).end == (value.end),
        decoded_api(value).process_id@ == value.process_id,
        decoded_api(value).thread_id@ == value.thread_id,
        decoded_api(value).correlation_id@ == value.correlation_id,
        decoded_api(value).return_value == (value.return_value),
{
}

/// Each field of a decoded stream record is taken from the raw record's
/// matching field: identifiers and flags keep their raw values, timestamps and counts
/// are copied, and each enum and flag word is read from the field it names.
pub proof fn lemma_stream_fields_follow_raw(value: RawStream)
    ensures
        decoded_stream(value).context_id@ == value.context_id,
        decoded_stream(value).stream_id@ == value.stream_id,
        decoded_stream(value).priority == (value.priority),
        decoded_stream(value).flag == (value.flag),
        decoded_stream(value).correlation_id@ == value.correlation_id,
{
}

/// Each field of a decoded synchronization record is taken from the raw record's
/// matching field: identifiers and flags keep their raw values, timestamps and counts
/// are copied, and each enum and flag word is read from the field it names.
pub proof fn lemma_synchronization_fields_follow_raw(value: RawSynchronization)
    ensures
        decoded_synchronization(value).synchronization_type == (value.synchronization_type),
        decoded_synchronization(value).start == (value.start),
        decoded_synchronization(value).end == (value.end),
        decoded_synchronization(value).correlation_id@ == value.correlation_id,
        decoded_synchronization(value).context_id@ == value.context_id,
        decoded_synchronization(value).stream_id@ == value.stream_id,
        decoded_synchronization(value).cuda_event_id@ == value.cuda_event_id,
        decoded_synchronization(value).cuda_event_sync_id@ == value.cuda_event_sync_id,
        decoded_synchronization(value).return_value == (value.return_value),
{
}

/// Each field of a decoded memory record is taken from the raw record's
/// matching field: identifiers and flags keep their raw values, timestamps and counts
/// are copied, and each enum and flag word is read from the field it names.
pub proof fn lemma_memory_fields_follow_raw(value: RawMemory)
    ensures
        decoded_memory(value).operation_type == (value.operation_type),
        decoded_memory(value).memory_kind == (value.memory_kind),
        decoded_memory(value).correlation_id@ == value.correlation_id,
        decoded_memory(value).address == (value.address),
        decoded_memory(value).bytes == (value.bytes),
        decoded_memory(value).timestamp == (value.timestamp),
        decoded_memory(value).pc == (value.pc),
        decoded_memory(value).process_id@ == value.process_id,
        decoded_memory(value).device_id@ == value.device_id,
        decoded_memory(value).context_id@ == value.context_id,
        decoded_memory(value).stream_id@ == value.stream_id,
        decoded_memory(value).name == (value.name),
        decoded_memory(value).is_asynchronous == (value.is_asynchronous != 0),
        decoded_memory(value).memory_pool_config == (decoded_memory_pool_config(value.memory_pool_config)),
        decoded_memory(value).source == (value.source),
{
}

/// Each field of a decoded legacy memory record is taken from the raw record's
/// matching field: identifiers and flags keep their raw values, timestamps and counts
/// are copied, and each enum and flag word is read from the field it names.
pub proof fn lemma_legacy_memory_fields_follow_raw(value: RawLegacyMemory)
    ensures
        decoded_legacy_memory(value).memory_kind == (value.memory_kind),
        decoded_legacy_memory(value).address == (value.address),
        decoded_legacy_memory(value).bytes == (value.bytes),
        decoded_legacy_memory(value).start == (value.start),
        decoded_legacy_memory(value).end == (value.end),
        decoded_legacy_memory(value).allocation_pc == (value.allocation_pc),
        decoded_legacy_memory(value).free_pc == (value.free_pc),
        decoded_legacy_memory(value).process_id@ == value.process_id,
        decoded_legacy_memory(value).device_id@ == value.device_id,
        decoded_legacy_memory(value).context_id@ == value.context_id,
        decoded_legacy_memory(value).name == (value.name),
{
}

/// Each field of a decoded memory pool record is taken from the raw record's
/// matching field: identifiers and flags keep their raw values, timestamps and counts
/// are copied, and each enum and flag word is read from the field it names.
pub proof fn lemma_memory_pool_fields_follow_raw(value: RawMemoryPool)
    ensures
        decoded_memory_pool(value).operation_type == (value.operation_type),
        decoded_memory_pool(value).pool_type == (value.pool_type),
        decoded_memory_pool(value).correlation_id@ == value.correlation_id,
        decoded_memory_pool(value).process_id@ == value.process_id,
        decoded_memory_pool(value).device_id@ == value.device_id,
        decoded_memory_pool(value).min_bytes_to_keep == (value.min_bytes_to_keep),
        decoded_memory_pool(value).address == (value.address),
        decoded_memory_pool(value).size == (value.size),
        decoded_memory_pool(value).release_threshold == (value.release_threshold),
        decoded_memory_pool(value).timestamp == (value.timestamp),
        decoded_memory_pool(value).utilized_size == (value.utilized_size),
        decoded_memory_pool(value).is_managed_pool == (value.is_managed_pool != 0),
{
}

/// Each field of a decoded compute engine context switch record is taken from the raw record's
/// matching field: identifiers and flags keep their raw values, timestamps and counts
/// are copied, and each enum and flag word is read from the field it names.
pub proof fn lemma_compute_engine_context_switch_fields_follow_raw(value: RawComputeEngineContextSwitch)
    ensures
        decoded_compute_engine_context_switch(value).context_id@ == value.context_id,
        decoded_compute_engine_context_switch(value).timestamp == (value.timestamp),
        decoded_compute_engine_context_switch(value).operation_type == (value.operation_type),
{
}

/// Each field of a decoded marker record is taken from the raw record's
/// matching field: identifiers and flags keep their raw values, timestamps and counts
/// are copied, and each enum and flag word is read from the field it names.
pub proof fn lemma_marker_fields_follow_raw(value: RawMarker)
    ensures
        decoded_marker(value).flags@ == value.flags & 0x3ff,
        decoded_marker(value).timestamp == (value.timestamp),
        decoded_marker(value).id@ == value.id,
        decoded_marker(value).object_kind == (value.object_kind),
        decoded_marker(value).object_id == (decoded_object_id(value.object_kind, value.object_id)),
        decoded_marker(value).name == (value.name),
        decoded_marker(value).domain == (value.domain),
{
}

/// Each field of a decoded external correlation record is taken from the raw record's
/// matching field: identifiers and flags keep their raw values, timestamps and counts
/// are copied, and each enum and flag word is read from the field it names.
pub proof fn lemma_external_correlation_fields_follow_raw(value: RawExternalCorrelation)
    ensures
        decoded_external_correlation(value).external_kind == (value.external_kind),
        decoded_external_correlation(value).external_id@ == value.external_id,
        decoded_external_correlation(value).correlation_id@ == value.correlation_id,
{
}

/// Each field of a decoded marker data record is taken from the raw record's
/// matching field: identifiers and flags keep their raw values, timestamps and counts
/// are copied, and each enum and flag word is read from the field it names.
pub proof fn lemma_marker_data_fields_follow_raw(value: RawMarkerData)
    ensures
        decoded_marker_data(value).flags@ == value.flags & 0x3ff,
        decoded_marker_data(value).id@ == value.id,
        decoded_marker_data(value).payload_kind == (value.payload_kind),
        decoded_marker_data(value).payload@ == value.payload,
        decoded_marker_data(value).color == (value.color),
        decoded_marker_data(value).category == (value.category),
        decoded_marker_data(value).cupti_domain_id@ == value.cupti_domain_id,
{
}

/// Each field of a decoded context record is taken from the raw record's
/// matching field: identifiers and flags keep their raw values, timestamps and counts
/// are copied, and each enum and flag word is read from the field it names.
pub proof fn lemma_context_fields_follow_raw(value: RawContext)
    ensures
        decoded_context(value).context_id@ == value.context_id,
        decoded_context(value).device_id@ == value.device_id,
        decoded_context(value).compute_api_kind == (compute_api_kind_of(value.compute_api_kind as u32)),
        decoded_context(value).null_stream_id@ == value.null_stream_id,
        decoded_context(value).parent_context_id@ == value.parent_context_id,
        decoded_context(value).is_green_context == (value.is_green_context != 0),
        decoded_context(value).num_multiprocessors == (value.num_multiprocessors),
        decoded_context(value).cig_mode == (value.cig_mode),
        decoded_context(value).process_id@ == value.process_id,
{
}

/// Each field of a decoded pc sampling record is taken from the raw record's
/// matching field: identifiers and flags keep their raw values, timestamps and counts
/// are copied, and each enum and flag word is read from the field it names.
pub proof fn lemma_pc_sampling_fields_follow_raw(value: RawPcSampling)
    ensures
        decoded_pc_sampling(value).flags@ == value.flags & 0x3ff,
        decoded_pc_sampling(value).source_locator_id@ == value.source_locator_id,
        decoded_pc_sampling(value).correlation_id@ == value.correlation_id,
        decoded_pc_sampling(value).function_id@ == value.function_id,
        decoded_pc_sampling(value).latency_samples == (value.latency_samples),
        decoded_pc_sampling(value).samples == (value.samples),
        decoded_pc_sampling(value).stall_reason == (value.stall_reason),
        decoded_pc_sampling(value).pc_offset == (value.pc_offset),
{
}

/// Each field of a decoded jit record is taken from the raw record's
/// matching field: identifiers and flags keep their raw values, timestamps and counts
/// are copied, and each enum and flag word is read from the field it names.
pub proof fn lemma_jit_fields_follow_raw(value: RawJit)
    ensures
        decoded_jit(value).entry_type == (value.entry_type),
        decoded_jit(value).operation_type == (value.operation_type),
        decoded_jit(value).device_id@ == value.device_id,
        decoded_jit(value).start == (value.start),
        decoded_jit(value).end == (value.end),
        decoded_jit(value).correlation_id@ == value.correlation_id,
        decoded_jit(value).operation_correlation_id@ == value.operation_correlation_id,
        decoded_jit(value).cache_size == (value.cache_size),
        decoded_jit(value).cache_path == (value.cache_path),
        decoded_jit(value).process_id@ == value.process_id,
        decoded_jit(value).thread_id@ == value.thread_id,
{
}

/// Each field of a decoded open multi processing record is taken from the raw record's
/// matching field: identifiers and flags keep their raw values, timestamps and counts
/// are copied, and each enum and flag word is read from the field it names.
pub proof fn lemma_open_multi_processing_fields_follow_raw(value: RawOpenMultiProcessing)
    ensures
        decoded_open_multi_processing(value).event_kind == (value.event_kind),
        decoded_open_multi_processing(value).version == (value.version),
        decoded_open_multi_processing(value).thread_id@ == value.thread_id,
        decoded_open_multi_processing(value).start == (value.start),
        decoded_open_multi_processing(value).end == (value.end),
        decoded_open_multi_processing(value).process_id@ == value.process_id,
        decoded_open_multi_processing(value).cu_thread_id@ == value.cu_thread_id,
{
}

/// Each field of a decoded open acc base record is taken from the raw record's
/// matching field: identifiers and flags keep their raw values, timestamps and counts
/// are copied, and each enum and flag word is read from the field it names.
pub proof fn lemma_open_acc_base_fields_follow_raw(value: RawOpenAccBase)
    ensures
        decoded_open_acc_base(value).event_kind == (value.event_kind),
        decoded_open_acc_base(value).parent_construct == (value.parent_construct),
        decoded_open_acc_base(value).version == (value.version),
        decoded_open_acc_base(value).implicit == (value.implicit != 0),
        decoded_open_acc_base(value).device_type@ == value.device_type,
        decoded_open_acc_base(value).device_number@ == value.device_number,
        decoded_open_acc_base(value).thread_id@ == value.thread_id,
        decoded_open_acc_base(value).asynchronous_id@ == value.asynchronous_id,
        decoded_open_acc_base(value).asynchronous_map == (value.asynchronous_map),
        decoded_open_acc_base(value).line_number == (value.line_number),
        decoded_open_acc_base(value).end_line_number == (value.end_line_number),
        decoded_open_acc_base(value).function_line_number == (value.function_line_number),
        decoded_open_acc_base(value).function_end_line_number == (value.function_end_line_number),
        decoded_open_acc_base(value).start == (value.start),
        decoded_open_acc_base(value).end == (value.end),
        decoded_open_acc_base(value).cuda_device_id@ == value.cuda_device_id,
        decoded_open_acc_base(value).cuda_context_id@ == value.cuda_context_id,
        decoded_open_acc_base(value).cuda_stream_id@ == value.cuda_stream_id,
        decoded_open_acc_base(value).process_id@ == value.process_id,
        decoded_open_acc_base(value).cuda_thread_id@ == value.cuda_thread_id,
        decoded_open_acc_base(value).external_id@ == value.external_id,
        decoded_open_acc_base(value).source_file == (value.source_file),
        decoded_open_acc_base(value).function_name == (value.function_name),
{
}

/// Each field of a decoded open acc data record is taken from the raw record's
/// matching field: identifiers and flags keep their raw values, timestamps and counts
/// are copied, and each enum and flag word is read from the field it names.
pub proof fn lemma_open_acc_data_fields_follow_raw(value: RawOpenAccData)
    ensures
        decoded_open_acc_data(value).base == (decoded_open_acc_base(value.base)),
        decoded_open_acc_data(value).bytes == (value.bytes),
        decoded_open_acc_data(value).host_ptr == (value.host_ptr),
        decoded_open_acc_data(value).device_ptr == (value.device_ptr),
        decoded_open_acc_data(value).variable_name == (value.variable_name),
{
}

/// Each field of a decoded open acc launch record is taken from the raw record's
/// matching field: identifiers and flags keep their raw values, timestamps and counts
/// are copied, and each enum and flag word is read from the field it names.
pub proof fn lemma_open_acc_launch_fields_follow_raw(value: RawOpenAccLaunch)
    ensures
        decoded_open_acc_launch(value).base == (decoded_open_acc_base(value.base)),
        decoded_open_acc_launch(value).num_gangs == (value.num_gangs),
        decoded_open_acc_launch(value).num_workers == (value.num_workers),
        decoded_open_acc_launch(value).vector_length == (value.vector_length),
        decoded_open_acc_launch(value).kernel_name == (value.kernel_name),
{
}

/// Each field of a decoded open acc other record is taken from the raw record's
/// matching field: identifiers and flags keep their raw values, timestamps and counts
/// are copied, and each enum and flag word is read from the field it names.
pub proof fn lemma_open_acc_other_fields_follow_raw(value: RawOpenAccOther)
    ensures
        decoded_open_acc_other(value).base == (decoded_open_acc_base(value.base)),
{
}

/// Each field of a decoded preemption record is taken from the raw record's
/// matching field: identifiers and flags keep their raw values, timestamps and counts
/// are copied, and each enum and flag word is read from the field it names.
pub proof fn lemma_preemption_fields_follow_raw(value: RawPreemption)
    ensures
        decoded_preemption(value).preemption_kind == (value.preemption_kind),
        decoded_preemption(value).timestamp == (value.timestamp),
        decoded_preemption(value).grid_id@ == value.grid_id,
        decoded_preemption(value).block.x == value.block_x,
        decoded_preemption(value).block.y == value.block_y,
        decoded_preemption(value).block.z == value.block_z,
{
}

/// Each field of a decoded function record is taken from the raw record's
/// matching field: identifiers and flags keep their raw values, timestamps and counts
/// are copied, and each enum and flag word is read from the field it names.
pub proof fn lemma_function_fields_follow_raw(value: RawFunction)
    ensures
        decoded_function(value).id@ == value.id,
        decoded_function(value).context_id@ == value.context_id,
        decoded_function(value).module_id@ == value.module_id,
        decoded_function(value).function_index == (value.function_index),
        decoded_function(value).name == (value.name),
{
}

/// Each field of a decoded confidential compute rotation record is taken from the raw record's
/// matching field: identifiers and flags keep their raw values, timestamps and counts
/// are copied, and each enum and flag word is read from the field it names.
pub proof fn lemma_confidential_compute_rotation_fields_follow_raw(value: RawConfidentialComputeRotation)
    ensures
        decoded_confidential_compute_rotation(value).event_type == (value.event_type),
        decoded_confidential_compute_rotation(value).device_id@ == value.device_id,
        decoded_confidential_compute_rotation(value).context_id@ == value.context_id,
        decoded_confidential_compute_rotation(value).channel_id@ == value.channel_id,
        decoded_confidential_compute_rotation(value).channel_type == (value.channel_type),
        decoded_confidential_compute_rotation(value).timestamp == (value.timestamp),
{
}

/// Each field of a decoded source locator record is taken from the raw record's
/// matching field: identifiers and flags keep their raw values, timestamps and counts
/// are copied, and each enum and flag word is read from the field it names.
pub proof fn lemma_source_locator_fields_follow_raw(value: RawSourceLocator)
    ensures
        decoded_source_locator(value).id@ == value.id,
        decoded_source_locator(value).line_number == (value.line_number),
        decoded_source_locator(value).file_name == (value.file_name),
{
}

/// Each field of a decoded overhead record is taken from the raw record's
/// matching field: identifiers and flags keep their raw values, timestamps and counts
/// are copied, and each enum and flag word is read from the field it names.
pub proof fn lemma_overhead_fields_follow_raw(value: RawOverhead)
    ensures
        decoded_overhead(value).overhead_kind == (value.overhead_kind),
        decoded_overhead(value).object_kind == (value.object_kind),
        decoded_overhead(value).object_id == (decoded_object_id(value.object_kind, value.object_id)),
        decoded_overhead(value).start == (value.start),
        decoded_overhead(value).end == (value.end),
        decoded_overhead(value).correlation_id@ == value.correlation_id,
        decoded_overhead(value).has_overhead_data == (value.overhead_data != 0),
{
}

/// Each field of a decoded kernel record is taken from the raw record's
/// matching field: identifiers and flags keep their raw values, timestamps and counts
/// are copied, and each enum and flag word is read from the field it names.
pub proof fn lemma_kernel_fields_follow_raw(value: RawKernel)
    ensures
        decoded_kernel(value).name == (value.name),
        decoded_kernel(value).device_id@ == value.device_id,
        decoded_kernel(value).context_id@ == value.context_id,
        decoded_kernel(value).stream_id@ == value.stream_id,
        decoded_kernel(value).correlation_id@ == value.correlation_id,
        decoded_kernel(value).grid_id@ == value.grid_id,
        decoded_kernel(value).grid.x == value.grid_x as u32,
        decoded_kernel(value).grid.y == value.grid_y as u32,
        decoded_kernel(value).grid.z == value.grid_z as u32,
        decoded_kernel(value).block.x == value.block_x as u32,
        decoded_kernel(value).block.y == value.block_y as u32,
        decoded_kernel(value).block.z == value.block_z as u32,
        decoded_kernel(value).cluster.x == value.cluster_x,
        decoded_kernel(value).cluster.y == value.cluster_y,
        decoded_kernel(value).cluster.z == value.cluster_z,
        decoded_kernel(value).start == (value.start),
        decoded_kernel(value).end == (value.end),
        decoded_kernel(value).completed == (value.completed),
        decoded_kernel(value).queued == (value.queued),
        decoded_kernel(value).submitted == (value.submitted),
        decoded_kernel(value).static_shared_memory == (value.static_shared_memory as u32),
        decoded_kernel(value).dynamic_shared_memory == (value.dynamic_shared_memory as u32),
        decoded_kernel(value).local_memory_per_thread == (value.local_memory_per_thread),
        decoded_kernel(value).local_memory_total == (value.local_memory_total),
        decoded_kernel(value).registers_per_thread == (value.registers_per_thread),
        decoded_kernel(value).shared_memory_config == (value.shared_memory_config),
        decoded_kernel(value).shared_memory_executed == (value.shared_memory_executed),
        decoded_kernel(value).shared_memory_carveout_requested == (if value.is_shared_memory_carveout_requested != 0 { Some(value.shared_memory_carveout_requested) } else { None }),
        decoded_kernel(value).partitioned_global_cache_requested == (partitioned_global_cache_config_of(value.partitioned_global_cache_requested)),
        decoded_kernel(value).partitioned_global_cache_executed == (partitioned_global_cache_config_of(value.partitioned_global_cache_executed)),
        decoded_kernel(value).launch_type == (launch_type_of(value.launch_type as u32)),
        decoded_kernel(value).shared_memory_limit_config == (shared_memory_limit_config_of(value.shared_memory_limit_config)),
        decoded_kernel(value).graph_node_id@ == value.graph_node_id,
        decoded_kernel(value).graph_id@ == value.graph_id,
        decoded_kernel(value).channel_id@ == value.channel_id,
        decoded_kernel(value).channel_type == (value.channel_type),
        decoded_kernel(value).max_potential_cluster_size == (value.max_potential_cluster_size),
        decoded_kernel(value).max_active_clusters == (value.max_active_clusters),
        decoded_kernel(value).is_device_launched == (value.is_device_launched != 0),
        decoded_kernel(value).priority == (value.priority),
{
}

/// Each field of a decoded cuda dynamic parallelism kernel record is taken from the raw record's
/// matching field: identifiers and flags keep their raw values, timestamps and counts
/// are copied, and each enum and flag word is read from the field it names.
pub proof fn lemma_cuda_dynamic_parallelism_kernel_fields_follow_raw(value: RawCudaDynamicParallelismKernel)
    ensures
        decoded_cuda_dynamic_parallelism_kernel(value).name == (value.name),
        decoded_cuda_dynamic_parallelism_kernel(value).device_id@ == value.device_id,
        decoded_cuda_dynamic_parallelism_kernel(value).context_id@ == value.context_id,
        decoded_cuda_dynamic_parallelism_kernel(value).stream_id@ == value.stream_id,
        decoded_cuda_dynamic_parallelism_kernel(value).correlation_id@ == value.correlation_id,
        decoded_cuda_dynamic_parallelism_kernel(value).grid_id@ == value.grid_id,
        decoded_cuda_dynamic_parallelism_kernel(value).parent_grid_id@ == value.parent_grid_id,
        decoded_cuda_dynamic_parallelism_kernel(value).parent_block.x == value.parent_block_x,
        decoded_cuda_dynamic_parallelism_kernel(value).parent_block.y == value.parent_block_y,
        decoded_cuda_dynamic_parallelism_kernel(value).parent_block.z == value.parent_block_z,
        decoded_cuda_dynamic_parallelism_kernel(value).grid.x == value.grid_x as u32,
        decoded_cuda_dynamic_parallelism_kernel(value).grid.y == value.grid_y as u32,
        decoded_cuda_dynamic_parallelism_kernel(value).grid.z == value.grid_z as u32,
        decoded_cuda_dynamic_parallelism_kernel(value).block.x == value.block_x as u32,
        decoded_cuda_dynamic_parallelism_kernel(value).block.y == value.block_y as u32,
        decoded_cuda_dynamic_parallelism_kernel(value).block.z == value.block_z as u32,
        decoded_cuda_dynamic_parallelism_kernel(value).start == (value.start),
        decoded_cuda_dynamic_parallelism_kernel(value).end == (value.end),
        decoded_cuda_dynamic_parallelism_kernel(value).completed == (value.completed),
        decoded_cuda_dynamic_parallelism_kernel(value).queued == (value.queued),
        decoded_cuda_dynamic_parallelism_kernel(value).submitted == (value.submitted),
        decoded_cuda_dynamic_parallelism_kernel(value).static_shared_memory == (value.static_shared_memory as u32),
        decoded_cuda_dynamic_parallelism_kernel(value).dynamic_shared_memory == (value.dynamic_shared_memory as u32),
        decoded_cuda_dynamic_parallelism_kernel(value).local_memory_per_thread == (value.local_memory_per_thread),
        decoded_cuda_dynamic_parallelism_kernel(value).local_memory_total == (value.local_memory_total),
        decoded_cuda_dynamic_parallelism_kernel(value).registers_per_thread == (value.registers_per_thread),
        decoded_cuda_dynamic_parallelism_kernel(value).shared_memory_config == (value.shared_memory_config),
{
}

/// Each field of a decoded memory decompress record is taken from the raw record's
/// matching field: identifiers and flags keep their raw values, timestamps and counts
/// are copied, and each enum and flag word is read from the field it names.
pub proof fn lemma_memory_decompress_fields_follow_raw(value: RawMemoryDecompress)
    ensures
        decoded_memory_decompress(value).device_id@ == value.device_id,
        decoded_memory_decompress(value).context_id@ == value.context_id,
        decoded_memory_decompress(value).stream_id@ == value.stream_id,
        decoded_memory_decompress(value).channel_id@ == value.channel_id,
        decoded_memory_decompress(value).channel_type == (value.channel_type),
        decoded_memory_decompress(value).correlation_id@ == value.correlation_id,
        decoded_memory_decompress(value).number_of_operations == (value.number_of_operations),
        decoded_memory_decompress(value).source_bytes == (value.source_bytes),
        decoded_memory_decompress(value).start == (value.start),
        decoded_memory_decompress(value).end == (value.end),
{
}

/// Each field of a decoded memory copy record is taken from the raw record's
/// matching field: identifiers and flags keep their raw values, timestamps and counts
/// are copied, and each enum and flag word is read from the field it names.
pub proof fn lemma_memory_copy_fields_follow_raw(value: RawMemoryCopy)
    ensures
        decoded_memory_copy(value).copy_kind == (memory_copy_kind_of(value.copy_kind as u32)),
        decoded_memory_copy(value).source_kind == (memory_kind_of(value.source_kind as u32)),
        decoded_memory_copy(value).destination_kind == (memory_kind_of(value.destination_kind as u32)),
        decoded_memory_copy(value).flags == (ActivityFlags::of((value.flags as u32) & 0x3ff)),
        decoded_memory_copy(value).bytes == (value.bytes),
        decoded_memory_copy(value).start == (value.start),
        decoded_memory_copy(value).end == (value.end),
        decoded_memory_copy(value).device_id@ == value.device_id,
        decoded_memory_copy(value).context_id@ == value.context_id,
        decoded_memory_copy(value).stream_id@ == value.stream_id,
        decoded_memory_copy(value).correlation_id@ == value.correlation_id,
        decoded_memory_copy(value).runtime_correlation_id@ == value.runtime_correlation_id,
        decoded_memory_copy(value).graph_node_id@ == value.graph_node_id,
        decoded_memory_copy(value).graph_id@ == value.graph_id,
        decoded_memory_copy(value).channel_id@ == value.channel_id,
        decoded_memory_copy(value).channel_type == (value.channel_type),
        decoded_memory_copy(value).is_device_launched == (value.is_device_launched != 0),
        decoded_memory_copy(value).copy_count == (value.copy_count),
{
}

/// Each field of a decoded peer memory copy record is taken from the raw record's
/// matching field: identifiers and flags keep their raw values, timestamps and counts
/// are copied, and each enum and flag word is read from the field it names.
pub proof fn lemma_peer_memory_copy_fields_follow_raw(value: RawPeerMemoryCopy)
    ensures
        decoded_peer_memory_copy(value).copy_kind == (memory_copy_kind_of(value.copy_kind as u32)),
        decoded_peer_memory_copy(value).source_kind == (memory_kind_of(value.source_kind as u32)),
        decoded_peer_memory_copy(value).destination_kind == (memory_kind_of(value.destination_kind as u32)),
        decoded_peer_memory_copy(value).flags == (ActivityFlags::of((value.flags as u32) & 0x3ff)),
        decoded_peer_memory_copy(value).bytes == (value.bytes),
        decoded_peer_memory_copy(value).start == (value.start),
        decoded_peer_memory_copy(value).end == (value.end),
        decoded_peer_memory_copy(value).device_id@ == value.device_id,
        decoded_peer_memory_copy(value).context_id@ == value.context_id,
        decoded_peer_memory_copy(value).stream_id@ == value.stream_id,
        decoded_peer_memory_copy(value).source_device_id@ == value.source_device_id,
        decoded_peer_memory_copy(value).source_context_id@ == value.source_context_id,
        decoded_peer_memory_copy(value).destination_device_id@ == value.destination_device_id,
        decoded_peer_memory_copy(value).destination_context_id@ == value.destination_context_id,
        decoded_peer_memory_copy(value).correlation_id@ == value.correlation_id,
        decoded_peer_memory_copy(value).graph_node_id@ == value.graph_node_id,
        decoded_peer_memory_copy(value).graph_id@ == value.graph_id,
        decoded_peer_memory_copy(value).channel_id@ == value.channel_id,
        decoded_peer_memory_copy(value).channel_type == (value.channel_type),
{
}

/// Each field of a decoded memory set record is taken from the raw record's
/// matching field: identifiers and flags keep their raw values, timestamps and counts
/// are copied, and each enum and flag word is read from the field it names.
pub proof fn lemma_memory_set_fields_follow_raw(value: RawMemorySet)
    ensures
        decoded_memory_set(value).value == (value.value),
        decoded_memory_set(value).bytes == (value.bytes),
        decoded_memory_set(value).start == (value.start),
        decoded_memory_set(value).end == (value.end),
        decoded_memory_set(value).device_id@ == value.device_id,
        decoded_memory_set(value).context_id@ == value.context_id,
        decoded_memory_set(value).stream_id@ == value.stream_id,
        decoded_memory_set(value).correlation_id@ == value.correlation_id,
        decoded_memory_set(value).flags == (ActivityFlags::of((value.flags as u32) & 0x3ff)),
        decoded_memory_set(value).memory_kind == (memory_kind_of(value.memory_kind as u32)),
        decoded_memory_set(value).graph_node_id@ == value.graph_node_id,
        decoded_memory_set(value).graph_id@ == value.graph_id,
        decoded_memory_set(value).channel_id@ == value.channel_id,
        decoded_memory_set(value).channel_type == (value.channel_type),
        decoded_memory_set(value).is_device_launched == (value.is_device_launched != 0),
{
}

/// A decoded name record takes each of these fields from the raw record's
/// matching field.
pub proof fn lemma_name_fields_follow_raw(value: RawName, r: ActivityName)
    requires
        name_decodes(value, r),
    ensures
        r.object_kind == (value.object_kind),
        r.object_id == (decoded_object_id(value.object_kind, value.object_id)),
        r.name == (value.name),
{
}

/// A decoded module record takes each of these fields from the raw record's
/// matching field.
pub proof fn lemma_module_fields_follow_raw(value: RawModule, r: ActivityModule)
    requires
        module_decodes(value, r),
    ensures
        r.context_id@ == value.context_id,
        r.id@ == value.id,
        r.cubin == ((if value.cubin is None || value.cubin_size == 0 { None } else { value.cubin })),
{
}

/// A decoded environment record takes each of these fields from the raw record's
/// matching field.
pub proof fn lemma_environment_fields_follow_raw(value: RawEnvironment, r: ActivityEnvironment)
    requires
        environment_decodes(value, r),
    ensures
        r.device_id@ == value.device_id,
        r.timestamp == (value.timestamp),
        r.environment_kind == (value.environment_kind),
        r.data == (decoded_environment_data(value)),
{
}

/// A decoded pcie record takes each of these fields from the raw record's
/// matching field.
pub proof fn lemma_pcie_fields_follow_raw(value: RawPcie, r: ActivityPcie)
    requires
        pcie_decodes(value, r),
    ensures
        r.device_type == (value.device_type),
        r.domain@ == value.domain,
        r.pcie_generation == (value.pcie_generation),
        r.link_rate == (value.link_rate),
        r.link_width == (value.link_width),
        r.upstream_bus == (value.upstream_bus),
{
}

/// A decoded nvlink record takes each of these fields from the raw record's
/// matching field.
pub proof fn lemma_nvlink_fields_follow_raw(value: RawNvLink, r: ActivityNvLink)
    requires
        nvlink_decodes(value, r),
    ensures
        r.version == (value.nvlink_version),
        r.device0_type == (value.type_dev0),
        r.device1_type == (value.type_dev1),
        r.flags == (LinkFlags::of(value.flag & 0x1e)),
        r.physical_link_count == (value.physical_nvlink_count),
        r.device0_ports == ((if value.physical_nvlink_count == 0 { None } else { value.port_dev0 })),
        r.device1_ports == ((if value.physical_nvlink_count == 0 { None } else { value.port_dev1 })),
        r.bandwidth == (value.bandwidth),
        r.nvswitch_connected == ((value.nvswitch_connected != 0)),
{
}

/// A decoded unified memory counter record takes each of these fields from the raw record's
/// matching field.
pub proof fn lemma_unified_memory_counter_fields_follow_raw(value: RawUnifiedMemoryCounter, r: ActivityUnifiedMemoryCounter)
    requires
        unified_memory_counter_decodes(value, r),
    ensures
        r.counter_kind == (value.counter_kind),
        r.value == (value.value),
        r.start == (value.start),
        r.end == (value.end),
        r.address == (value.address),
        r.source_id@ == value.src_id,
        r.destination_id@ == value.dst_id,
        r.stream_id@ == value.stream_id,
        r.process_id@ == value.process_id,
        r.flags == (decoded_counter_flags(value.counter_kind, value.flags)),
        r.processors == (value.processors),
{
}

/// A decoded device record takes each of these fields from the raw record's
/// matching field.
pub proof fn lemma_device_fields_follow_raw(value: RawDevice, r: ActivityDevice)
    requires
        device_decodes(value, r),
    ensures
        r.flags == (ActivityFlags::of(value.flags & 0x3ff)),
        r.global_memory_bandwidth == (value.global_memory_bandwidth),
        r.global_memory_size == (value.global_memory_size),
        r.constant_memory_size == (value.constant_memory_size),
        r.l2_cache_size == (value.l2_cache_size),
        r.num_threads_per_warp == (value.num_threads_per_warp),
        r.core_clock_rate == (value.core_clock_rate),
        r.num_memory_copy_engines == (value.num_memory_copy_engines),
        r.num_multiprocessors == (value.num_multiprocessors),
        r.max_instructions_per_cycle == (value.max_instructions_per_cycle),
        r.max_warps_per_multiprocessor == (value.max_warps_per_multiprocessor),
        r.max_blocks_per_multiprocessor == (value.max_blocks_per_multiprocessor),
        r.max_shared_memory_per_multiprocessor == (value.max_shared_memory_per_multiprocessor),
        r.max_registers_per_multiprocessor == (value.max_registers_per_multiprocessor),
        r.max_registers_per_block == (value.max_registers_per_block),
        r.max_shared_memory_per_block == (value.max_shared_memory_per_block),
        r.max_threads_per_block == (value.max_threads_per_block),
        r.max_block_dim == (Dim3 { x: value.max_block_dim_x, y: value.max_block_dim_y, z: value.max_block_dim_z }),
        r.max_grid_dim == (Dim3 { x: value.max_grid_dim_x, y: value.max_grid_dim_y, z: value.max_grid_dim_z }),
        r.compute_capability_major == (value.compute_capability_major),
        r.compute_capability_minor == (value.compute_capability_minor),
        r.device_id@ == value.device_id,
        r.ecc_enabled == ((value.ecc_enabled != 0)),
        r.name == (value.name),
        r.is_cuda_visible == ((value.is_cuda_visible != 0)),
        r.is_mig_enabled == ((value.is_mig_enabled != 0)),
        r.gpu_instance_id@ == value.gpu_instance_id,
        r.compute_instance_id@ == value.compute_instance_id,
        r.is_non_uniform_memory_access_node == ((value.is_non_uniform_memory_access_node != 0)),
        r.non_uniform_memory_access_id@ == value.non_uniform_memory_access_id,
        r.num_tpcs == (value.num_tpcs),
{
}

/// An object identifier is read from the union member its object kind names: the
/// process (and thread) for process and thread objects, the device (and context, and
/// stream) for device, context and stream objects; any other kind has no identifier.
pub proof fn lemma_object_id_follows_kind(kind: ActivityObjectKind, value: RawActivityObjectKindId)
    ensures
        kind == ActivityObjectKind::Process ==> (decoded_object_id(kind, value) matches ActivityObjectId::Process {
            process_id,
        } && process_id@ == value.process_id),
        kind == ActivityObjectKind::Thread ==> (decoded_object_id(kind, value) matches ActivityObjectId::Thread {
            process_id,
            thread_id,
        } && process_id@ == value.process_id && thread_id@ == value.thread_id),
        kind == ActivityObjectKind::Device ==> (decoded_object_id(kind, value) matches ActivityObjectId::Device {
            device_id,
        } && device_id@ == value.device_id),
        kind == ActivityObjectKind::Context ==> (decoded_object_id(kind, value) matches ActivityObjectId::Context {
            device_id,
            context_id,
        } && device_id@ == value.device_id && context_id@ == value.context_id),
        kind == ActivityObjectKind::Stream ==> (decoded_object_id(kind, value) matches ActivityObjectId::Stream {
            device_id,
            context_id,
            stream_id,
        } && device_id@ == value.device_id && context_id@ == value.context_id && stream_id@ == value.stream_id),
        kind == ActivityObjectKind::Unknown || kind == ActivityObjectKind::ForceInt ==> decoded_object_id(kind, value)
            == ActivityObjectId::Unknown,
{
}

/// A decoded device attribute record keeps the raw flags (defined bits), device and
/// value, and reads the attribute as a CUDA driver attribute exactly when the
/// `DEVICE_ATTRIBUTE_CUDEVICE` flag is set, as a CUPTI attribute otherwise.
pub proof fn lemma_device_attribute_fields_follow_raw(value: RawDeviceAttribute)
    ensures
        decoded_device_attribute(value).flags@ == value.flags & 0x3ff,
        decoded_device_attribute(value).device_id@ == value.device_id,
        decoded_device_attribute(value).value@ == value.value,
        (value.flags & 0x3ff) & 1 == 1 ==> (decoded_device_attribute(value).attribute matches ActivityDeviceAttributeKind::Cuda(
            a,
        ) && a@ == value.attribute_cu),
        (value.flags & 0x3ff) & 1 != 1 ==> decoded_device_attribute(value).attribute == ActivityDeviceAttributeKind::Cupti(
            value.attribute_cupti,
        ),
{
}

/// The environment data of a record is read as its environment kind says: clocks,
/// link and throttle reasons for speed, the temperature, power and power limit, or fan
/// speed; any other kind carries no data.
pub proof fn lemma_environment_data_follows_kind(value: RawEnvironment)
    ensures
        value.environment_kind == ActivityEnvironmentKind::Speed ==> (decoded_environment_data(value) matches ActivityEnvironmentData::Speed(
            d,
        ) && d.sm_clock == value.sm_clock && d.memory_clock == value.memory_clock && d.pcie_link_gen
            == value.pcie_link_gen && d.pcie_link_width == value.pcie_link_width && d.clocks_throttle_reasons@
            == value.clocks_throttle_reasons & 0xc000000f),
        value.environment_kind == ActivityEnvironmentKind::Temperature ==> decoded_environment_data(value)
            == (ActivityEnvironmentData::Temperature { gpu_temperature: value.gpu_temperature }),
        value.environment_kind == ActivityEnvironmentKind::Power ==> (decoded_environment_data(value) matches ActivityEnvironmentData::Power(
            d,
        ) && d.power == value.power && d.power_limit == value.power_limit),
        value.environment_kind == ActivityEnvironmentKind::Cooling ==> decoded_environment_data(value)
            == (ActivityEnvironmentData::Cooling { fan_speed: value.fan_speed }),
{
}

/// Each activity kind selects its record layout: a record decodes into the layout's
/// variant exactly when its fields are in the layout its kind selects (`Driver`,
/// `Runtime` and `InternalLaunchApi` select API records, `Kernel` and
/// `ConcurrentKernel` kernel records, `Memory2` the memory layout, `Memory` the legacy
/// memory layout, and so on), and the kinds without a layout always decode as
/// `Unsupported`.
pub proof fn lemma_kinds_select_record_layouts(kind: ActivityKind, raw: RawActivity, data: ActivityRecordData)
    requires
        record_decodes(kind, raw, data),
    ensures
        kind == ActivityKind::MemoryDecompress ==> ((data is MemoryDecompress) <==> (raw is MemoryDecompress)),
        kind == ActivityKind::MemoryCopy ==> ((data is MemoryCopy) <==> (raw is MemoryCopy)),
        kind == ActivityKind::PeerMemoryCopy ==> ((data is PeerMemoryCopy) <==> (raw is PeerMemoryCopy)),
        kind == ActivityKind::MemorySet ==> ((data is MemorySet) <==> (raw is MemorySet)),
        kind == ActivityKind::Kernel ==> ((data is Kernel) <==> (raw is Kernel)),
        kind == ActivityKind::ConcurrentKernel ==> ((data is Kernel) <==> (raw is Kernel)),
        kind == ActivityKind::CudaDynamicParallelismKernel ==> ((data is CudaDynamicParallelismKernel) <==> (raw is CudaDynamicParallelismKernel)),
        kind == ActivityKind::Driver ==> ((data is Api) <==> (raw is Api)),
        kind == ActivityKind::Runtime ==> ((data is Api) <==> (raw is Api)),
        kind == ActivityKind::InternalLaunchApi ==> ((data is Api) <==> (raw is Api)),
        kind == ActivityKind::Stream ==> ((data is Stream) <==> (raw is Stream)),
        kind == ActivityKind::Synchronization ==> ((data is Synchronization) <==> (raw is Synchronization)),
        kind == ActivityKind::Memory2 ==> ((data is Memory) <==> (raw is Memory)),
        kind == ActivityKind::Memory ==> ((data is LegacyMemory) <==> (raw is LegacyMemory)),
        kind == ActivityKind::MemoryPool ==> ((data is MemoryPool) <==> (raw is MemoryPool)),
        kind == ActivityKind::GraphTrace ==> ((data is GraphTrace) <==> (raw is GraphTrace)),
        kind == ActivityKind::DeviceGraphTrace ==> ((data is DeviceGraphTrace) <==> (raw is DeviceGraphTrace)),
        kind == ActivityKind::GraphHostNode ==> ((data is GraphHostNode) <==> (raw is GraphHostNode)),
        kind == ActivityKind::HostLaunch ==> ((data is HostLaunch) <==> (raw is HostLaunch)),
        kind == ActivityKind::ComputeEngineCtxSwitch ==> ((data is ComputeEngineContextSwitch) <==> (raw is ComputeEngineContextSwitch)),
        kind == ActivityKind::GreenContext ==> ((data is GreenContext) <==> (raw is GreenContext)),
        kind == ActivityKind::Name ==> ((data is Name) <==> (raw is Name)),
        kind == ActivityKind::Marker ==> ((data is Marker) <==> (raw is Marker)),
        kind == ActivityKind::ExternalCorrelation ==> ((data is ExternalCorrelation) <==> (raw is ExternalCorrelation)),
        kind == ActivityKind::MarkerData ==> ((data is MarkerData) <==> (raw is MarkerData)),
        kind == ActivityKind::CudaEvent ==> ((data is CudaEvent) <==> (raw is CudaEvent)),
        kind == ActivityKind::Context ==> ((data is Context) <==> (raw is Context)),
        kind == ActivityKind::Event ==> ((data is Event) <==> (raw is Event)),
        kind == ActivityKind::EventInstance ==> ((data is EventInstance) <==> (raw is EventInstance)),
        kind == ActivityKind::Metric ==> ((data is Metric) <==> (raw is Metric)),
        kind == ActivityKind::MetricInstance ==> ((data is MetricInstance) <==> (raw is MetricInstance)),
        kind == ActivityKind::InstantaneousEvent ==> ((data is InstantaneousEvent) <==> (raw is InstantaneousEvent)),
        kind == ActivityKind::InstantaneousEventInstance ==> ((data is InstantaneousEventInstance) <==> (raw is InstantaneousEventInstance)),
        kind == ActivityKind::InstantaneousMetric ==> ((data is InstantaneousMetric) <==> (raw is InstantaneousMetric)),
        kind == ActivityKind::InstantaneousMetricInstance ==> ((data is InstantaneousMetricInstance) <==> (raw is InstantaneousMetricInstance)),
        kind == ActivityKind::GlobalAccess ==> ((data is GlobalAccess) <==> (raw is GlobalAccess)),
        kind == ActivityKind::Branch ==> ((data is Branch) <==> (raw is Branch)),
        kind == ActivityKind::InstructionExecution ==> ((data is InstructionExecution) <==> (raw is InstructionExecution)),
        kind == ActivityKind::PcSampling ==> ((data is PcSampling) <==> (raw is PcSampling)),
        kind == ActivityKind::PcSamplingRecordInfo ==> ((data is PcSamplingRecordInfo) <==> (raw is PcSamplingRecordInfo)),
        kind == ActivityKind::UnifiedMemoryCounter ==> ((data is UnifiedMemoryCounter) <==> (raw is UnifiedMemoryCounter)),
        kind == ActivityKind::DeviceAttribute ==> ((data is DeviceAttribute) <==> (raw is DeviceAttribute)),
        kind == ActivityKind::Environment ==> ((data is Environment) <==> (raw is Environment)),
        kind == ActivityKind::Device ==> ((data is Device) <==> (raw is Device)),
        kind == ActivityKind::Jit ==> ((data is Jit) <==> (raw is Jit)),
        kind == ActivityKind::NvLink ==> ((data is NvLink) <==> (raw is NvLink)),
        kind == ActivityKind::Pcie ==> ((data is Pcie) <==> (raw is Pcie)),
        kind == ActivityKind::InstructionCorrelation ==> ((data is InstructionCorrelation) <==> (raw is InstructionCorrelation)),
        kind == ActivityKind::OpenMultiProcessing ==> ((data is OpenMultiProcessing) <==> (raw is OpenMultiProcessing)),
        kind == ActivityKind::OpenAccData ==> ((data is OpenAccData) <==> (raw is OpenAccData)),
        kind == ActivityKind::OpenAccLaunch ==> ((data is OpenAccLaunch) <==> (raw is OpenAccLaunch)),
        kind == ActivityKind::OpenAccOther ==> ((data is OpenAccOther) <==> (raw is OpenAccOther)),
        kind == ActivityKind::Preemption ==> ((data is Preemption) <==> (raw is Preemption)),
        kind == ActivityKind::Function ==> ((data is Function) <==> (raw is Function)),
        kind == ActivityKind::Module ==> ((data is Module) <==> (raw is Module)),
        kind == ActivityKind::SharedAccess ==> ((data is SharedAccess) <==> (raw is SharedAccess)),
        kind == ActivityKind::ConfidentialComputeRotation ==> ((data is ConfidentialComputeRotation) <==> (raw is ConfidentialComputeRotation)),
        kind == ActivityKind::SourceLocator ==> ((data is SourceLocator) <==> (raw is SourceLocator)),
        kind == ActivityKind::Overhead ==> ((data is Overhead) <==> (raw is Overhead)),
        kind == ActivityKind::Invalid || kind == ActivityKind::Count || kind == ActivityKind::ForceInt ==> data is Unsupported,
{
}

/// The bits of a metric value are read as the value kind says, each kind giving its
/// own variant: the 64-bit kinds keep every bit, `Int64` reads the bits as a signed
/// word, a utilization level is the level whose C value the low 32 bits hold, and
/// CUPTI's reserved kind reads as an unsigned word.
pub proof fn lemma_metric_value_bits_follow_kind(kind: MetricValueKind, bits: u64)
    ensures
        kind == MetricValueKind::Double ==> metric_value_bits_of(kind, bits) == MetricValueBits::Double(bits),
        kind == MetricValueKind::Uint64 ==> metric_value_bits_of(kind, bits) == MetricValueBits::Uint64(bits),
        kind == MetricValueKind::Percent ==> metric_value_bits_of(kind, bits) == MetricValueBits::Percent(bits),
        kind == MetricValueKind::Throughput ==> metric_value_bits_of(kind, bits) == MetricValueBits::Throughput(bits),
        kind == MetricValueKind::Int64 ==> (metric_value_bits_of(kind, bits) matches MetricValueBits::Int64(v) && (v
            >= 0 ==> v == bits) && (v < 0 ==> v + 0x1_0000_0000_0000_0000 == bits)),
        kind == MetricValueKind::NvtxExtendedPayload ==> metric_value_bits_of(kind, bits)
            == MetricValueBits::NvtxExtendedPayload(bits),
        kind == MetricValueKind::ForceInt ==> metric_value_bits_of(kind, bits) == MetricValueBits::Uint64(bits),
        kind == MetricValueKind::UtilizationLevel ==> (metric_value_bits_of(kind, bits) matches MetricValueBits::UtilizationLevel(
            level,
        ) && ((exists|l: MetricValueUtilizationLevel| l.raw_value() == bits % 0x1_0000_0000) ==> level.raw_value()
            == bits % 0x1_0000_0000)),
{
    if kind == MetricValueKind::Int64 {
        let v = bits as i64;
        assert((v >= 0 ==> v == bits) && (v < 0 ==> v + 0x1_0000_0000_0000_0000 == bits)) by (bit_vector)
            requires
                v == bits as i64,
        ;
    }
    if kind == MetricValueKind::UtilizationLevel {
        let w = bits as u32;
        assert(w == bits % 0x1_0000_0000) by (bit_vector)
            requires
                w == bits as u32,
        ;
    }
}

} // verus!
