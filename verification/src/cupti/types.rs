//! Shared CUPTI identifier, enum, flag, and configuration types.
use vstd::prelude::*;

verus! {

/// CUPTI identifier wrapper.
#[derive(Debug, Clone, Copy, PartialEq, Eq, Hash, PartialOrd, Ord, Structural)]
pub struct ContextId(u32);

impl View for ContextId {
    type V = u32;

    closed spec fn view(&self) -> u32 {
        self.0
    }
}

impl ContextId {
    /// The identifier with raw value `value`.
    pub closed spec fn of(value: u32) -> Self {
        ContextId(value)
    }

    /// The raw value of [`Self::of`] is the value it was made from.
    pub broadcast proof fn lemma_of_view(value: u32)
        ensures
            #[trigger] Self::of(value)@ == value,
    {
    }

    /// Returns the raw CUPTI value.
    pub fn get(self) -> (r: u32)
        ensures
            r == self@,
    {
        self.0
    }
}

impl From<u32> for ContextId {
    fn from(value: u32) -> (r: Self)
        ensures
            r == Self::of(value as u32),
            r@ == value,
    {
        ContextId(value)
    }
}

impl vstd::std_specs::convert::FromSpecImpl<u32> for ContextId {
    open spec fn obeys_from_spec() -> bool {
        true
    }

    closed spec fn from_spec(v: u32) -> Self {
        ContextId(v as u32)
    }
}

impl From<ContextId> for u32 {
    fn from(value: ContextId) -> (r: u32)
        ensures
            r == value@,
    {
        value.0
    }
}

impl vstd::std_specs::convert::FromSpecImpl<ContextId> for u32 {
    open spec fn obeys_from_spec() -> bool {
        true
    }

    closed spec fn from_spec(v: ContextId) -> u32 {
        v.0
    }
}

/// CUPTI identifier wrapper.
#[derive(Debug, Clone, Copy, PartialEq, Eq, Hash, PartialOrd, Ord, Structural)]
pub struct DeviceId(u32);

impl View for DeviceId {
    type V = u32;

    closed spec fn view(&self) -> u32 {
        self.0
    }
}

impl DeviceId {
    /// The identifier with raw value `value`.
    pub closed spec fn of(value: u32) -> Self {
        DeviceId(value)
    }

    /// The raw value of [`Self::of`] is the value it was made from.
    pub broadcast proof fn lemma_of_view(value: u32)
        ensures
            #[trigger] Self::of(value)@ == value,
    {
    }

    /// Returns the raw CUPTI value.
    pub fn get(self) -> (r: u32)
        ensures
            r == self@,
    {
        self.0
    }
}

impl From<u32> for DeviceId {
    fn from(value: u32) -> (r: Self)
        ensures
            r == Self::of(value as u32),
            r@ == value,
    {
        DeviceId(value)
    }
}

impl vstd::std_specs::convert::FromSpecImpl<u32> for DeviceId {
    open spec fn obeys_from_spec() -> bool {
        true
    }

    closed spec fn from_spec(v: u32) -> Self {
        DeviceId(v as u32)
    }
}

impl From<DeviceId> for u32 {
    fn from(value: DeviceId) -> (r: u32)
        ensures
            r == value@,
    {
        value.0
    }
}

impl vstd::std_specs::convert::FromSpecImpl<DeviceId> for u32 {
    open spec fn obeys_from_spec() -> bool {
        true
    }

    closed spec fn from_spec(v: DeviceId) -> u32 {
        v.0
    }
}

/// CUPTI identifier wrapper.
#[derive(Debug, Clone, Copy, PartialEq, Eq, Hash, PartialOrd, Ord, Structural)]
pub struct GraphId(u32);

impl View for GraphId {
    type V = u32;

    closed spec fn view(&self) -> u32 {
        self.0
    }
}

impl GraphId {
    /// The identifier with raw value `value`.
    pub closed spec fn of(value: u32) -> Self {
        GraphId(value)
    }

    /// The raw value of [`Self::of`] is the value it was made from.
    pub broadcast proof fn lemma_of_view(value: u32)
        ensures
            #[trigger] Self::of(value)@ == value,
    {
    }

    /// Returns the raw CUPTI value.
    pub fn get(self) -> (r: u32)
        ensures
            r == self@,
    {
        self.0
    }
}

impl From<u32> for GraphId {
    fn from(value: u32) -> (r: Self)
        ensures
            r == Self::of(value as u32),
            r@ == value,
    {
        GraphId(value)
    }
}

impl vstd::std_specs::convert::FromSpecImpl<u32> for GraphId {
    open spec fn obeys_from_spec() -> bool {
        true
    }

    closed spec fn from_spec(v: u32) -> Self {
        GraphId(v as u32)
    }
}

impl From<GraphId> for u32 {
    fn from(value: GraphId) -> (r: u32)
        ensures
            r == value@,
    {
        value.0
    }
}

impl vstd::std_specs::convert::FromSpecImpl<GraphId> for u32 {
    open spec fn obeys_from_spec() -> bool {
        true
    }

    closed spec fn from_spec(v: GraphId) -> u32 {
        v.0
    }
}

/// CUPTI identifier wrapper.
#[derive(Debug, Clone, Copy, PartialEq, Eq, Hash, PartialOrd, Ord, Structural)]
pub struct ExecutableGraphId(u32);

impl View for ExecutableGraphId {
    type V = u32;

    closed spec fn view(&self) -> u32 {
        self.0
    }
}

impl ExecutableGraphId {
    /// The identifier with raw value `value`.
    pub closed spec fn of(value: u32) -> Self {
        ExecutableGraphId(value)
    }

    /// The raw value of [`Self::of`] is the value it was made from.
    pub broadcast proof fn lemma_of_view(value: u32)
        ensures
            #[trigger] Self::of(value)@ == value,
    {
    }

    /// Returns the raw CUPTI value.
    pub fn get(self) -> (r: u32)
        ensures
            r == self@,
    {
        self.0
    }
}

impl From<u32> for ExecutableGraphId {
    fn from(value: u32) -> (r: Self)
        ensures
            r == Self::of(value as u32),
            r@ == value,
    {
        ExecutableGraphId(value)
    }
}

impl vstd::std_specs::convert::FromSpecImpl<u32> for ExecutableGraphId {
    open spec fn obeys_from_spec() -> bool {
        true
    }

    closed spec fn from_spec(v: u32) -> Self {
        ExecutableGraphId(v as u32)
    }
}

impl From<ExecutableGraphId> for u32 {
    fn from(value: ExecutableGraphId) -> (r: u32)
        ensures
            r == value@,
    {
        value.0
    }
}

impl vstd::std_specs::convert::FromSpecImpl<ExecutableGraphId> for u32 {
    open spec fn obeys_from_spec() -> bool {
        true
    }

    closed spec fn from_spec(v: ExecutableGraphId) -> u32 {
        v.0
    }
}

/// CUPTI identifier wrapper.
#[derive(Debug, Clone, Copy, PartialEq, Eq, Hash, PartialOrd, Ord, Structural)]
pub struct GraphNodeId(u64);

impl View for GraphNodeId {
    type V = u64;

    closed spec fn view(&self) -> u64 {
        self.0
    }
}

impl GraphNodeId {
    /// The identifier with raw value `value`.
    pub closed spec fn of(value: u64) -> Self {
        GraphNodeId(value)
    }

    /// The raw value of [`Self::of`] is the value it was made from.
    pub broadcast proof fn lemma_of_view(value: u64)
        ensures
            #[trigger] Self::of(value)@ == value,
    {
    }

    /// Returns the raw CUPTI value.
    pub fn get(self) -> (r: u64)
        ensures
            r == self@,
    {
        self.0
    }
}

impl From<u64> for GraphNodeId {
    fn from(value: u64) -> (r: Self)
        ensures
            r == Self::of(value as u64),
            r@ == value,
    {
        GraphNodeId(value)
    }
}

impl vstd::std_specs::convert::FromSpecImpl<u64> for GraphNodeId {
    open spec fn obeys_from_spec() -> bool {
        true
    }

    closed spec fn from_spec(v: u64) -> Self {
        GraphNodeId(v as u64)
    }
}

impl From<GraphNodeId> for u64 {
    fn from(value: GraphNodeId) -> (r: u64)
        ensures
            r == value@,
    {
        value.0
    }
}

impl vstd::std_specs::convert::FromSpecImpl<GraphNodeId> for u64 {
    open spec fn obeys_from_spec() -> bool {
        true
    }

    closed spec fn from_spec(v: GraphNodeId) -> u64 {
        v.0
    }
}

/// CUPTI identifier wrapper.
#[derive(Debug, Clone, Copy, PartialEq, Eq, Hash, PartialOrd, Ord, Structural)]
pub struct StreamId(u64);

impl View for StreamId {
    type V = u64;

    closed spec fn view(&self) -> u64 {
        self.0
    }
}

impl StreamId {
    /// The identifier with raw value `value`.
    pub closed spec fn of(value: u64) -> Self {
        StreamId(value)
    }

    /// The raw value of [`Self::of`] is the value it was made from.
    pub broadcast proof fn lemma_of_view(value: u64)
        ensures
            #[trigger] Self::of(value)@ == value,
    {
    }

    /// Returns the raw CUPTI value.
    pub fn get(self) -> (r: u64)
        ensures
            r == self@,
    {
        self.0
    }
}

impl From<u64> for StreamId {
    fn from(value: u64) -> (r: Self)
        ensures
            r == Self::of(value as u64),
            r@ == value,
    {
        StreamId(value)
    }
}

impl vstd::std_specs::convert::FromSpecImpl<u64> for StreamId {
    open spec fn obeys_from_spec() -> bool {
        true
    }

    closed spec fn from_spec(v: u64) -> Self {
        StreamId(v as u64)
    }
}

impl From<u32> for StreamId {
    fn from(value: u32) -> (r: Self)
        ensures
            r == Self::of(value as u64),
            r@ == value,
    {
        StreamId(value as u64)
    }
}

impl vstd::std_specs::convert::FromSpecImpl<u32> for StreamId {
    open spec fn obeys_from_spec() -> bool {
        true
    }

    closed spec fn from_spec(v: u32) -> Self {
        StreamId(v as u64)
    }
}

impl From<u16> for StreamId {
    fn from(value: u16) -> (r: Self)
        ensures
            r == Self::of(value as u64),
            r@ == value,
    {
        StreamId(value as u64)
    }
}

impl vstd::std_specs::convert::FromSpecImpl<u16> for StreamId {
    open spec fn obeys_from_spec() -> bool {
        true
    }

    closed spec fn from_spec(v: u16) -> Self {
        StreamId(v as u64)
    }
}

impl From<StreamId> for u64 {
    fn from(value: StreamId) -> (r: u64)
        ensures
            r == value@,
    {
        value.0
    }
}

impl vstd::std_specs::convert::FromSpecImpl<StreamId> for u64 {
    open spec fn obeys_from_spec() -> bool {
        true
    }

    closed spec fn from_spec(v: StreamId) -> u64 {
        v.0
    }
}

/// CUPTI identifier wrapper.
#[derive(Debug, Clone, Copy, PartialEq, Eq, Hash, PartialOrd, Ord, Structural)]
pub struct ChannelId(u32);

impl View for ChannelId {
    type V = u32;

    closed spec fn view(&self) -> u32 {
        self.0
    }
}

impl ChannelId {
    /// The identifier with raw value `value`.
    pub closed spec fn of(value: u32) -> Self {
        ChannelId(value)
    }

    /// The raw value of [`Self::of`] is the value it was made from.
    pub broadcast proof fn lemma_of_view(value: u32)
        ensures
            #[trigger] Self::of(value)@ == value,
    {
    }

    /// Returns the raw CUPTI value.
    pub fn get(self) -> (r: u32)
        ensures
            r == self@,
    {
        self.0
    }
}

impl From<u32> for ChannelId {
    fn from(value: u32) -> (r: Self)
        ensures
            r == Self::of(value as u32),
            r@ == value,
    {
        ChannelId(value)
    }
}

impl vstd::std_specs::convert::FromSpecImpl<u32> for ChannelId {
    open spec fn obeys_from_spec() -> bool {
        true
    }

    closed spec fn from_spec(v: u32) -> Self {
        ChannelId(v as u32)
    }
}

impl From<ChannelId> for u32 {
    fn from(value: ChannelId) -> (r: u32)
        ensures
            r == value@,
    {
        value.0
    }
}

impl vstd::std_specs::convert::FromSpecImpl<ChannelId> for u32 {
    open spec fn obeys_from_spec() -> bool {
        true
    }

    closed spec fn from_spec(v: ChannelId) -> u32 {
        v.0
    }
}

/// CUPTI identifier wrapper.
#[derive(Debug, Clone, Copy, PartialEq, Eq, Hash, PartialOrd, Ord, Structural)]
pub struct CorrelationId(u32);

impl View for CorrelationId {
    type V = u32;

    closed spec fn view(&self) -> u32 {
        self.0
    }
}

impl CorrelationId {
    /// The identifier with raw value `value`.
    pub closed spec fn of(value: u32) -> Self {
        CorrelationId(value)
    }

    /// The raw value of [`Self::of`] is the value it was made from.
    pub broadcast proof fn lemma_of_view(value: u32)
        ensures
            #[trigger] Self::of(value)@ == value,
    {
    }

    /// Returns the raw CUPTI value.
    pub fn get(self) -> (r: u32)
        ensures
            r == self@,
    {
        self.0
    }
}

impl From<u32> for CorrelationId {
    fn from(value: u32) -> (r: Self)
        ensures
            r == Self::of(value as u32),
            r@ == value,
    {
        CorrelationId(value)
    }
}

impl vstd::std_specs::convert::FromSpecImpl<u32> for CorrelationId {
    open spec fn obeys_from_spec() -> bool {
        true
    }

    closed spec fn from_spec(v: u32) -> Self {
        CorrelationId(v as u32)
    }
}

impl From<CorrelationId> for u32 {
    fn from(value: CorrelationId) -> (r: u32)
        ensures
            r == value@,
    {
        value.0
    }
}

impl vstd::std_specs::convert::FromSpecImpl<CorrelationId> for u32 {
    open spec fn obeys_from_spec() -> bool {
        true
    }

    closed spec fn from_spec(v: CorrelationId) -> u32 {
        v.0
    }
}

/// CUPTI identifier wrapper.
#[derive(Debug, Clone, Copy, PartialEq, Eq, Hash, PartialOrd, Ord, Structural)]
pub struct ExternalCorrelationId(u64);

impl View for ExternalCorrelationId {
    type V = u64;

    closed spec fn view(&self) -> u64 {
        self.0
    }
}

impl ExternalCorrelationId {
    /// The identifier with raw value `value`.
    pub closed spec fn of(value: u64) -> Self {
        ExternalCorrelationId(value)
    }

    /// The raw value of [`Self::of`] is the value it was made from.
    pub broadcast proof fn lemma_of_view(value: u64)
        ensures
            #[trigger] Self::of(value)@ == value,
    {
    }

    /// Returns the raw CUPTI value.
    pub fn get(self) -> (r: u64)
        ensures
            r == self@,
    {
        self.0
    }
}

impl From<u64> for ExternalCorrelationId {
    fn from(value: u64) -> (r: Self)
        ensures
            r == Self::of(value as u64),
            r@ == value,
    {
        ExternalCorrelationId(value)
    }
}

impl vstd::std_specs::convert::FromSpecImpl<u64> for ExternalCorrelationId {
    open spec fn obeys_from_spec() -> bool {
        true
    }

    closed spec fn from_spec(v: u64) -> Self {
        ExternalCorrelationId(v as u64)
    }
}

impl From<ExternalCorrelationId> for u64 {
    fn from(value: ExternalCorrelationId) -> (r: u64)
        ensures
            r == value@,
    {
        value.0
    }
}

impl vstd::std_specs::convert::FromSpecImpl<ExternalCorrelationId> for u64 {
    open spec fn obeys_from_spec() -> bool {
        true
    }

    closed spec fn from_spec(v: ExternalCorrelationId) -> u64 {
        v.0
    }
}

/// CUPTI identifier wrapper.
#[derive(Debug, Clone, Copy, PartialEq, Eq, Hash, PartialOrd, Ord, Structural)]
pub struct CudaEventId(u32);

impl View for CudaEventId {
    type V = u32;

    closed spec fn view(&self) -> u32 {
        self.0
    }
}

impl CudaEventId {
    /// The identifier with raw value `value`.
    pub closed spec fn of(value: u32) -> Self {
        CudaEventId(value)
    }

    /// The raw value of [`Self::of`] is the value it was made from.
    pub broadcast proof fn lemma_of_view(value: u32)
        ensures
            #[trigger] Self::of(value)@ == value,
    {
    }

    /// Returns the raw CUPTI value.
    pub fn get(self) -> (r: u32)
        ensures
            r == self@,
    {
        self.0
    }
}

impl From<u32> for CudaEventId {
    fn from(value: u32) -> (r: Self)
        ensures
            r == Self::of(value as u32),
            r@ == value,
    {
        CudaEventId(value)
    }
}

impl vstd::std_specs::convert::FromSpecImpl<u32> for CudaEventId {
    open spec fn obeys_from_spec() -> bool {
        true
    }

    closed spec fn from_spec(v: u32) -> Self {
        CudaEventId(v as u32)
    }
}

impl From<CudaEventId> for u32 {
    fn from(value: CudaEventId) -> (r: u32)
        ensures
            r == value@,
    {
        value.0
    }
}

impl vstd::std_specs::convert::FromSpecImpl<CudaEventId> for u32 {
    open spec fn obeys_from_spec() -> bool {
        true
    }

    closed spec fn from_spec(v: CudaEventId) -> u32 {
        v.0
    }
}

/// CUPTI identifier wrapper.
#[derive(Debug, Clone, Copy, PartialEq, Eq, Hash, PartialOrd, Ord, Structural)]
pub struct CudaEventSyncId(u64);

impl View for CudaEventSyncId {
    type V = u64;

    closed spec fn view(&self) -> u64 {
        self.0
    }
}

impl CudaEventSyncId {
    /// The identifier with raw value `value`.
    pub closed spec fn of(value: u64) -> Self {
        CudaEventSyncId(value)
    }

    /// The raw value of [`Self::of`] is the value it was made from.
    pub broadcast proof fn lemma_of_view(value: u64)
        ensures
            #[trigger] Self::of(value)@ == value,
    {
    }

    /// Returns the raw CUPTI value.
    pub fn get(self) -> (r: u64)
        ensures
            r == self@,
    {
        self.0
    }
}

impl From<u64> for CudaEventSyncId {
    fn from(value: u64) -> (r: Self)
        ensures
            r == Self::of(value as u64),
            r@ == value,
    {
        CudaEventSyncId(value)
    }
}

impl vstd::std_specs::convert::FromSpecImpl<u64> for CudaEventSyncId {
    open spec fn obeys_from_spec() -> bool {
        true
    }

    closed spec fn from_spec(v: u64) -> Self {
        CudaEventSyncId(v as u64)
    }
}

impl From<CudaEventSyncId> for u64 {
    fn from(value: CudaEventSyncId) -> (r: u64)
        ensures
            r == value@,
    {
        value.0
    }
}

impl vstd::std_specs::convert::FromSpecImpl<CudaEventSyncId> for u64 {
    open spec fn obeys_from_spec() -> bool {
        true
    }

    closed spec fn from_spec(v: CudaEventSyncId) -> u64 {
        v.0
    }
}

/// CUPTI identifier wrapper.
#[derive(Debug, Clone, Copy, PartialEq, Eq, Hash, PartialOrd, Ord, Structural)]
pub struct ActivityMarkerId(u32);

impl View for ActivityMarkerId {
    type V = u32;

    closed spec fn view(&self) -> u32 {
        self.0
    }
}

impl ActivityMarkerId {
    /// The identifier with raw value `value`.
    pub closed spec fn of(value: u32) -> Self {
        ActivityMarkerId(value)
    }

    /// The raw value of [`Self::of`] is the value it was made from.
    pub broadcast proof fn lemma_of_view(value: u32)
        ensures
            #[trigger] Self::of(value)@ == value,
    {
    }

    /// Returns the raw CUPTI value.
    pub fn get(self) -> (r: u32)
        ensures
            r == self@,
    {
        self.0
    }
}

impl From<u32> for ActivityMarkerId {
    fn from(value: u32) -> (r: Self)
        ensures
            r == Self::of(value as u32),
            r@ == value,
    {
        ActivityMarkerId(value)
    }
}

impl vstd::std_specs::convert::FromSpecImpl<u32> for ActivityMarkerId {
    open spec fn obeys_from_spec() -> bool {
        true
    }

    closed spec fn from_spec(v: u32) -> Self {
        ActivityMarkerId(v as u32)
    }
}

impl From<ActivityMarkerId> for u32 {
    fn from(value: ActivityMarkerId) -> (r: u32)
        ensures
            r == value@,
    {
        value.0
    }
}

impl vstd::std_specs::convert::FromSpecImpl<ActivityMarkerId> for u32 {
    open spec fn obeys_from_spec() -> bool {
        true
    }

    closed spec fn from_spec(v: ActivityMarkerId) -> u32 {
        v.0
    }
}

/// CUPTI identifier wrapper.
#[derive(Debug, Clone, Copy, PartialEq, Eq, Hash, PartialOrd, Ord, Structural)]
pub struct SourceLocatorId(u32);

impl View for SourceLocatorId {
    type V = u32;

    closed spec fn view(&self) -> u32 {
        self.0
    }
}

impl SourceLocatorId {
    /// The identifier with raw value `value`.
    pub closed spec fn of(value: u32) -> Self {
        SourceLocatorId(value)
    }

    /// The raw value of [`Self::of`] is the value it was made from.
    pub broadcast proof fn lemma_of_view(value: u32)
        ensures
            #[trigger] Self::of(value)@ == value,
    {
    }

    /// Returns the raw CUPTI value.
    pub fn get(self) -> (r: u32)
        ensures
            r == self@,
    {
        self.0
    }
}

impl From<u32> for SourceLocatorId {
    fn from(value: u32) -> (r: Self)
        ensures
            r == Self::of(value as u32),
            r@ == value,
    {
        SourceLocatorId(value)
    }
}

impl vstd::std_specs::convert::FromSpecImpl<u32> for SourceLocatorId {
    open spec fn obeys_from_spec() -> bool {
        true
    }

    closed spec fn from_spec(v: u32) -> Self {
        SourceLocatorId(v as u32)
    }
}

impl From<SourceLocatorId> for u32 {
    fn from(value: SourceLocatorId) -> (r: u32)
        ensures
            r == value@,
    {
        value.0
    }
}

impl vstd::std_specs::convert::FromSpecImpl<SourceLocatorId> for u32 {
    open spec fn obeys_from_spec() -> bool {
        true
    }

    closed spec fn from_spec(v: SourceLocatorId) -> u32 {
        v.0
    }
}

/// CUPTI identifier wrapper.
#[derive(Debug, Clone, Copy, PartialEq, Eq, Hash, PartialOrd, Ord, Structural)]
pub struct FunctionId(u32);

impl View for FunctionId {
    type V = u32;

    closed spec fn view(&self) -> u32 {
        self.0
    }
}

impl FunctionId {
    /// The identifier with raw value `value`.
    pub closed spec fn of(value: u32) -> Self {
        FunctionId(value)
    }

    /// The raw value of [`Self::of`] is the value it was made from.
    pub broadcast proof fn lemma_of_view(value: u32)
        ensures
            #[trigger] Self::of(value)@ == value,
    {
    }

    /// Returns the raw CUPTI value.
    pub fn get(self) -> (r: u32)
        ensures
            r == self@,
    {
        self.0
    }
}

impl From<u32> for FunctionId {
    fn from(value: u32) -> (r: Self)
        ensures
            r == Self::of(value as u32),
            r@ == value,
    {
        FunctionId(value)
    }
}

impl vstd::std_specs::convert::FromSpecImpl<u32> for FunctionId {
    open spec fn obeys_from_spec() -> bool {
        true
    }

    closed spec fn from_spec(v: u32) -> Self {
        FunctionId(v as u32)
    }
}

impl From<FunctionId> for u32 {
    fn from(value: FunctionId) -> (r: u32)
        ensures
            r == value@,
    {
        value.0
    }
}

impl vstd::std_specs::convert::FromSpecImpl<FunctionId> for u32 {
    open spec fn obeys_from_spec() -> bool {
        true
    }

    closed spec fn from_spec(v: FunctionId) -> u32 {
        v.0
    }
}

/// CUPTI identifier wrapper.
#[derive(Debug, Clone, Copy, PartialEq, Eq, Hash, PartialOrd, Ord, Structural)]
pub struct ModuleId(u32);

impl View for ModuleId {
    type V = u32;

    closed spec fn view(&self) -> u32 {
        self.0
    }
}

impl ModuleId {
    /// The identifier with raw value `value`.
    pub closed spec fn of(value: u32) -> Self {
        ModuleId(value)
    }

    /// The raw value of [`Self::of`] is the value it was made from.
    pub broadcast proof fn lemma_of_view(value: u32)
        ensures
            #[trigger] Self::of(value)@ == value,
    {
    }

    /// Returns the raw CUPTI value.
    pub fn get(self) -> (r: u32)
        ensures
            r == self@,
    {
        self.0
    }
}

impl From<u32> for ModuleId {
    fn from(value: u32) -> (r: Self)
        ensures
            r == Self::of(value as u32),
            r@ == value,
    {
        ModuleId(value)
    }
}

impl vstd::std_specs::convert::FromSpecImpl<u32> for ModuleId {
    open spec fn obeys_from_spec() -> bool {
        true
    }

    closed spec fn from_spec(v: u32) -> Self {
        ModuleId(v as u32)
    }
}

impl From<ModuleId> for u32 {
    fn from(value: ModuleId) -> (r: u32)
        ensures
            r == value@,
    {
        value.0
    }
}

impl vstd::std_specs::convert::FromSpecImpl<ModuleId> for u32 {
    open spec fn obeys_from_spec() -> bool {
        true
    }

    closed spec fn from_spec(v: ModuleId) -> u32 {
        v.0
    }
}

/// CUPTI identifier wrapper.
#[derive(Debug, Clone, Copy, PartialEq, Eq, Hash, PartialOrd, Ord, Structural)]
pub struct GridId(i64);

impl View for GridId {
    type V = i64;

    closed spec fn view(&self) -> i64 {
        self.0
    }
}

impl GridId {
    /// The identifier with raw value `value`.
    pub closed spec fn of(value: i64) -> Self {
        GridId(value)
    }

    /// The raw value of [`Self::of`] is the value it was made from.
    pub broadcast proof fn lemma_of_view(value: i64)
        ensures
            #[trigger] Self::of(value)@ == value,
    {
    }

    /// Returns the raw CUPTI value.
    pub fn get(self) -> (r: i64)
        ensures
            r == self@,
    {
        self.0
    }
}

impl From<i64> for GridId {
    fn from(value: i64) -> (r: Self)
        ensures
            r == Self::of(value as i64),
            r@ == value,
    {
        GridId(value)
    }
}

impl vstd::std_specs::convert::FromSpecImpl<i64> for GridId {
    open spec fn obeys_from_spec() -> bool {
        true
    }

    closed spec fn from_spec(v: i64) -> Self {
        GridId(v as i64)
    }
}

impl From<GridId> for i64 {
    fn from(value: GridId) -> (r: i64)
        ensures
            r == value@,
    {
        value.0
    }
}

impl vstd::std_specs::convert::FromSpecImpl<GridId> for i64 {
    open spec fn obeys_from_spec() -> bool {
        true
    }

    closed spec fn from_spec(v: GridId) -> i64 {
        v.0
    }
}

/// CUPTI identifier wrapper.
#[derive(Debug, Clone, Copy, PartialEq, Eq, Hash, PartialOrd, Ord, Structural)]
pub struct ProcessId(u64);

impl View for ProcessId {
    type V = u64;

    closed spec fn view(&self) -> u64 {
        self.0
    }
}

impl ProcessId {
    /// The identifier with raw value `value`.
    pub closed spec fn of(value: u64) -> Self {
        ProcessId(value)
    }

    /// The raw value of [`Self::of`] is the value it was made from.
    pub broadcast proof fn lemma_of_view(value: u64)
        ensures
            #[trigger] Self::of(value)@ == value,
    {
    }

    /// Returns the raw CUPTI value.
    pub fn get(self) -> (r: u64)
        ensures
            r == self@,
    {
        self.0
    }
}

impl From<u64> for ProcessId {
    fn from(value: u64) -> (r: Self)
        ensures
            r == Self::of(value as u64),
            r@ == value,
    {
        ProcessId(value)
    }
}

impl vstd::std_specs::convert::FromSpecImpl<u64> for ProcessId {
    open spec fn obeys_from_spec() -> bool {
        true
    }

    closed spec fn from_spec(v: u64) -> Self {
        ProcessId(v as u64)
    }
}

impl From<u32> for ProcessId {
    fn from(value: u32) -> (r: Self)
        ensures
            r == Self::of(value as u64),
            r@ == value,
    {
        ProcessId(value as u64)
    }
}

impl vstd::std_specs::convert::FromSpecImpl<u32> for ProcessId {
    open spec fn obeys_from_spec() -> bool {
        true
    }

    closed spec fn from_spec(v: u32) -> Self {
        ProcessId(v as u64)
    }
}

impl From<ProcessId> for u64 {
    fn from(value: ProcessId) -> (r: u64)
        ensures
            r == value@,
    {
        value.0
    }
}

impl vstd::std_specs::convert::FromSpecImpl<ProcessId> for u64 {
    open spec fn obeys_from_spec() -> bool {
        true
    }

    closed spec fn from_spec(v: ProcessId) -> u64 {
        v.0
    }
}

/// CUPTI identifier wrapper.
#[derive(Debug, Clone, Copy, PartialEq, Eq, Hash, PartialOrd, Ord, Structural)]
pub struct ThreadId(u32);

impl View for ThreadId {
    type V = u32;

    closed spec fn view(&self) -> u32 {
        self.0
    }
}

impl ThreadId {
    /// The identifier with raw value `value`.
    pub closed spec fn of(value: u32) -> Self {
        ThreadId(value)
    }

    /// The raw value of [`Self::of`] is the value it was made from.
    pub broadcast proof fn lemma_of_view(value: u32)
        ensures
            #[trigger] Self::of(value)@ == value,
    {
    }

    /// Returns the raw CUPTI value.
    pub fn get(self) -> (r: u32)
        ensures
            r == self@,
    {
        self.0
    }
}

impl From<u32> for ThreadId {
    fn from(value: u32) -> (r: Self)
        ensures
            r == Self::of(value as u32),
            r@ == value,
    {
        ThreadId(value)
    }
}

impl vstd::std_specs::convert::FromSpecImpl<u32> for ThreadId {
    open spec fn obeys_from_spec() -> bool {
        true
    }

    closed spec fn from_spec(v: u32) -> Self {
        ThreadId(v as u32)
    }
}

impl From<ThreadId> for u32 {
    fn from(value: ThreadId) -> (r: u32)
        ensures
            r == value@,
    {
        value.0
    }
}

impl vstd::std_specs::convert::FromSpecImpl<ThreadId> for u32 {
    open spec fn obeys_from_spec() -> bool {
        true
    }

    closed spec fn from_spec(v: ThreadId) -> u32 {
        v.0
    }
}

/// CUPTI identifier wrapper.
#[derive(Debug, Clone, Copy, PartialEq, Eq, Hash, PartialOrd, Ord, Structural)]
pub struct CuptiDomainId(u32);

impl View for CuptiDomainId {
    type V = u32;

    closed spec fn view(&self) -> u32 {
        self.0
    }
}

impl CuptiDomainId {
    /// The identifier with raw value `value`.
    pub closed spec fn of(value: u32) -> Self {
        CuptiDomainId(value)
    }

    /// The raw value of [`Self::of`] is the value it was made from.
    pub broadcast proof fn lemma_of_view(value: u32)
        ensures
            #[trigger] Self::of(value)@ == value,
    {
    }

    /// Returns the raw CUPTI value.
    pub fn get(self) -> (r: u32)
        ensures
            r == self@,
    {
        self.0
    }
}

impl From<u32> for CuptiDomainId {
    fn from(value: u32) -> (r: Self)
        ensures
            r == Self::of(value as u32),
            r@ == value,
    {
        CuptiDomainId(value)
    }
}

impl vstd::std_specs::convert::FromSpecImpl<u32> for CuptiDomainId {
    open spec fn obeys_from_spec() -> bool {
        true
    }

    closed spec fn from_spec(v: u32) -> Self {
        CuptiDomainId(v as u32)
    }
}

impl From<CuptiDomainId> for u32 {
    fn from(value: CuptiDomainId) -> (r: u32)
        ensures
            r == value@,
    {
        value.0
    }
}

impl vstd::std_specs::convert::FromSpecImpl<CuptiDomainId> for u32 {
    open spec fn obeys_from_spec() -> bool {
        true
    }

    closed spec fn from_spec(v: CuptiDomainId) -> u32 {
        v.0
    }
}

/// CUPTI identifier wrapper.
#[derive(Debug, Clone, Copy, PartialEq, Eq, Hash, PartialOrd, Ord, Structural)]
pub struct UnifiedMemoryProcessorId(u32);

impl View for UnifiedMemoryProcessorId {
    type V = u32;

    closed spec fn view(&self) -> u32 {
        self.0
    }
}

impl UnifiedMemoryProcessorId {
    /// The identifier with raw value `value`.
    pub closed spec fn of(value: u32) -> Self {
        UnifiedMemoryProcessorId(value)
    }

    /// The raw value of [`Self::of`] is the value it was made from.
    pub broadcast proof fn lemma_of_view(value: u32)
        ensures
            #[trigger] Self::of(value)@ == value,
    {
    }

    /// Returns the raw CUPTI value.
    pub fn get(self) -> (r: u32)
        ensures
            r == self@,
    {
        self.0
    }
}

impl From<u32> for UnifiedMemoryProcessorId {
    fn from(value: u32) -> (r: Self)
        ensures
            r == Self::of(value as u32),
            r@ == value,
    {
        UnifiedMemoryProcessorId(value)
    }
}

impl vstd::std_specs::convert::FromSpecImpl<u32> for UnifiedMemoryProcessorId {
    open spec fn obeys_from_spec() -> bool {
        true
    }

    closed spec fn from_spec(v: u32) -> Self {
        UnifiedMemoryProcessorId(v as u32)
    }
}

impl From<UnifiedMemoryProcessorId> for u32 {
    fn from(value: UnifiedMemoryProcessorId) -> (r: u32)
        ensures
            r == value@,
    {
        value.0
    }
}

impl vstd::std_specs::convert::FromSpecImpl<UnifiedMemoryProcessorId> for u32 {
    open spec fn obeys_from_spec() -> bool {
        true
    }

    closed spec fn from_spec(v: UnifiedMemoryProcessorId) -> u32 {
        v.0
    }
}

/// CUPTI identifier wrapper.
#[derive(Debug, Clone, Copy, PartialEq, Eq, Hash, PartialOrd, Ord, Structural)]
pub struct GpuInstanceId(u32);

impl View for GpuInstanceId {
    type V = u32;

    closed spec fn view(&self) -> u32 {
        self.0
    }
}

impl GpuInstanceId {
    /// The identifier with raw value `value`.
    pub closed spec fn of(value: u32) -> Self {
        GpuInstanceId(value)
    }

    /// The raw value of [`Self::of`] is the value it was made from.
    pub broadcast proof fn lemma_of_view(value: u32)
        ensures
            #[trigger] Self::of(value)@ == value,
    {
    }

    /// Returns the raw CUPTI value.
    pub fn get(self) -> (r: u32)
        ensures
            r == self@,
    {
        self.0
    }
}

impl From<u32> for GpuInstanceId {
    fn from(value: u32) -> (r: Self)
        ensures
            r == Self::of(value as u32),
            r@ == value,
    {
        GpuInstanceId(value)
    }
}

impl vstd::std_specs::convert::FromSpecImpl<u32> for GpuInstanceId {
    open spec fn obeys_from_spec() -> bool {
        true
    }

    closed spec fn from_spec(v: u32) -> Self {
        GpuInstanceId(v as u32)
    }
}

impl From<GpuInstanceId> for u32 {
    fn from(value: GpuInstanceId) -> (r: u32)
        ensures
            r == value@,
    {
        value.0
    }
}

impl vstd::std_specs::convert::FromSpecImpl<GpuInstanceId> for u32 {
    open spec fn obeys_from_spec() -> bool {
        true
    }

    closed spec fn from_spec(v: GpuInstanceId) -> u32 {
        v.0
    }
}

/// CUPTI identifier wrapper.
#[derive(Debug, Clone, Copy, PartialEq, Eq, Hash, PartialOrd, Ord, Structural)]
pub struct ComputeInstanceId(u32);

impl View for ComputeInstanceId {
    type V = u32;

    closed spec fn view(&self) -> u32 {
        self.0
    }
}

impl ComputeInstanceId {
    /// The identifier with raw value `value`.
    pub closed spec fn of(value: u32) -> Self {
        ComputeInstanceId(value)
    }

    /// The raw value of [`Self::of`] is the value it was made from.
    pub broadcast proof fn lemma_of_view(value: u32)
        ensures
            #[trigger] Self::of(value)@ == value,
    {
    }

    /// Returns the raw CUPTI value.
    pub fn get(self) -> (r: u32)
        ensures
            r == self@,
    {
        self.0
    }
}

impl From<u32> for ComputeInstanceId {
    fn from(value: u32) -> (r: Self)
        ensures
            r == Self::of(value as u32),
            r@ == value,
    {
        ComputeInstanceId(value)
    }
}

impl vstd::std_specs::convert::FromSpecImpl<u32> for ComputeInstanceId {
    open spec fn obeys_from_spec() -> bool {
        true
    }

    closed spec fn from_spec(v: u32) -> Self {
        ComputeInstanceId(v as u32)
    }
}

impl From<ComputeInstanceId> for u32 {
    fn from(value: ComputeInstanceId) -> (r: u32)
        ensures
            r == value@,
    {
        value.0
    }
}

impl vstd::std_specs::convert::FromSpecImpl<ComputeInstanceId> for u32 {
    open spec fn obeys_from_spec() -> bool {
        true
    }

    closed spec fn from_spec(v: ComputeInstanceId) -> u32 {
        v.0
    }
}

/// CUPTI identifier wrapper.
#[derive(Debug, Clone, Copy, PartialEq, Eq, Hash, PartialOrd, Ord, Structural)]
pub struct NonUniformMemoryAccessId(u32);

impl View for NonUniformMemoryAccessId {
    type V = u32;

    closed spec fn view(&self) -> u32 {
        self.0
    }
}

impl NonUniformMemoryAccessId {
    /// The identifier with raw value `value`.
    pub closed spec fn of(value: u32) -> Self {
        NonUniformMemoryAccessId(value)
    }

    /// The raw value of [`Self::of`] is the value it was made from.
    pub broadcast proof fn lemma_of_view(value: u32)
        ensures
            #[trigger] Self::of(value)@ == value,
    {
    }

    /// Returns the raw CUPTI value.
    pub fn get(self) -> (r: u32)
        ensures
            r == self@,
    {
        self.0
    }
}

impl From<u32> for NonUniformMemoryAccessId {
    fn from(value: u32) -> (r: Self)
        ensures
            r == Self::of(value as u32),
            r@ == value,
    {
        NonUniformMemoryAccessId(value)
    }
}

impl vstd::std_specs::convert::FromSpecImpl<u32> for NonUniformMemoryAccessId {
    open spec fn obeys_from_spec() -> bool {
        true
    }

    closed spec fn from_spec(v: u32) -> Self {
        NonUniformMemoryAccessId(v as u32)
    }
}

impl From<NonUniformMemoryAccessId> for u32 {
    fn from(value: NonUniformMemoryAccessId) -> (r: u32)
        ensures
            r == value@,
    {
        value.0
    }
}

impl vstd::std_specs::convert::FromSpecImpl<NonUniformMemoryAccessId> for u32 {
    open spec fn obeys_from_spec() -> bool {
        true
    }

    closed spec fn from_spec(v: NonUniformMemoryAccessId) -> u32 {
        v.0
    }
}

/// CUPTI identifier wrapper.
#[derive(Debug, Clone, Copy, PartialEq, Eq, Hash, PartialOrd, Ord, Structural)]
pub struct NpuDomainId(u32);

impl View for NpuDomainId {
    type V = u32;

    closed spec fn view(&self) -> u32 {
        self.0
    }
}

impl NpuDomainId {
    /// The identifier with raw value `value`.
    pub closed spec fn of(value: u32) -> Self {
        NpuDomainId(value)
    }

    /// The raw value of [`Self::of`] is the value it was made from.
    pub broadcast proof fn lemma_of_view(value: u32)
        ensures
            #[trigger] Self::of(value)@ == value,
    {
    }

    /// Returns the raw CUPTI value.
    pub fn get(self) -> (r: u32)
        ensures
            r == self@,
    {
        self.0
    }
}

impl From<u32> for NpuDomainId {
    fn from(value: u32) -> (r: Self)
        ensures
            r == Self::of(value as u32),
            r@ == value,
    {
        NpuDomainId(value)
    }
}

impl vstd::std_specs::convert::FromSpecImpl<u32> for NpuDomainId {
    open spec fn obeys_from_spec() -> bool {
        true
    }

    closed spec fn from_spec(v: u32) -> Self {
        NpuDomainId(v as u32)
    }
}

impl From<NpuDomainId> for u32 {
    fn from(value: NpuDomainId) -> (r: u32)
        ensures
            r == value@,
    {
        value.0
    }
}

impl vstd::std_specs::convert::FromSpecImpl<NpuDomainId> for u32 {
    open spec fn obeys_from_spec() -> bool {
        true
    }

    closed spec fn from_spec(v: NpuDomainId) -> u32 {
        v.0
    }
}

/// CUPTI identifier wrapper.
#[derive(Debug, Clone, Copy, PartialEq, Eq, Hash, PartialOrd, Ord, Structural)]
pub struct JitOperationCorrelationId(u64);

impl View for JitOperationCorrelationId {
    type V = u64;

    closed spec fn view(&self) -> u64 {
        self.0
    }
}

impl JitOperationCorrelationId {
    /// The identifier with raw value `value`.
    pub closed spec fn of(value: u64) -> Self {
        JitOperationCorrelationId(value)
    }

    /// The raw value of [`Self::of`] is the value it was made from.
    pub broadcast proof fn lemma_of_view(value: u64)
        ensures
            #[trigger] Self::of(value)@ == value,
    {
    }

    /// Returns the raw CUPTI value.
    pub fn get(self) -> (r: u64)
        ensures
            r == self@,
    {
        self.0
    }
}

impl From<u64> for JitOperationCorrelationId {
    fn from(value: u64) -> (r: Self)
        ensures
            r == Self::of(value as u64),
            r@ == value,
    {
        JitOperationCorrelationId(value)
    }
}

impl vstd::std_specs::convert::FromSpecImpl<u64> for JitOperationCorrelationId {
    open spec fn obeys_from_spec() -> bool {
        true
    }

    closed spec fn from_spec(v: u64) -> Self {
        JitOperationCorrelationId(v as u64)
    }
}

impl From<JitOperationCorrelationId> for u64 {
    fn from(value: JitOperationCorrelationId) -> (r: u64)
        ensures
            r == value@,
    {
        value.0
    }
}

impl vstd::std_specs::convert::FromSpecImpl<JitOperationCorrelationId> for u64 {
    open spec fn obeys_from_spec() -> bool {
        true
    }

    closed spec fn from_spec(v: JitOperationCorrelationId) -> u64 {
        v.0
    }
}

/// CUPTI identifier wrapper.
#[derive(Debug, Clone, Copy, PartialEq, Eq, Hash, PartialOrd, Ord, Structural)]
pub struct PcieBridgeId(u32);

impl View for PcieBridgeId {
    type V = u32;

    closed spec fn view(&self) -> u32 {
        self.0
    }
}

impl PcieBridgeId {
    /// The identifier with raw value `value`.
    pub closed spec fn of(value: u32) -> Self {
        PcieBridgeId(value)
    }

    /// The raw value of [`Self::of`] is the value it was made from.
    pub broadcast proof fn lemma_of_view(value: u32)
        ensures
            #[trigger] Self::of(value)@ == value,
    {
    }

    /// Returns the raw CUPTI value.
    pub fn get(self) -> (r: u32)
        ensures
            r == self@,
    {
        self.0
    }
}

impl From<u32> for PcieBridgeId {
    fn from(value: u32) -> (r: Self)
        ensures
            r == Self::of(value as u32),
            r@ == value,
    {
        PcieBridgeId(value)
    }
}

impl vstd::std_specs::convert::FromSpecImpl<u32> for PcieBridgeId {
    open spec fn obeys_from_spec() -> bool {
        true
    }

    closed spec fn from_spec(v: u32) -> Self {
        PcieBridgeId(v as u32)
    }
}

impl From<PcieBridgeId> for u32 {
    fn from(value: PcieBridgeId) -> (r: u32)
        ensures
            r == value@,
    {
        value.0
    }
}

impl vstd::std_specs::convert::FromSpecImpl<PcieBridgeId> for u32 {
    open spec fn obeys_from_spec() -> bool {
        true
    }

    closed spec fn from_spec(v: PcieBridgeId) -> u32 {
        v.0
    }
}

/// CUPTI identifier wrapper.
#[derive(Debug, Clone, Copy, PartialEq, Eq, Hash, PartialOrd, Ord, Structural)]
pub struct PcieBusId(u16);

impl View for PcieBusId {
    type V = u16;

    closed spec fn view(&self) -> u16 {
        self.0
    }
}

impl PcieBusId {
    /// The identifier with raw value `value`.
    pub closed spec fn of(value: u16) -> Self {
        PcieBusId(value)
    }

    /// The raw value of [`Self::of`] is the value it was made from.
    pub broadcast proof fn lemma_of_view(value: u16)
        ensures
            #[trigger] Self::of(value)@ == value,
    {
    }

    /// Returns the raw CUPTI value.
    pub fn get(self) -> (r: u16)
        ensures
            r == self@,
    {
        self.0
    }
}

impl From<u16> for PcieBusId {
    fn from(value: u16) -> (r: Self)
        ensures
            r == Self::of(value as u16),
            r@ == value,
    {
        PcieBusId(value)
    }
}

impl vstd::std_specs::convert::FromSpecImpl<u16> for PcieBusId {
    open spec fn obeys_from_spec() -> bool {
        true
    }

    closed spec fn from_spec(v: u16) -> Self {
        PcieBusId(v as u16)
    }
}

impl From<PcieBusId> for u16 {
    fn from(value: PcieBusId) -> (r: u16)
        ensures
            r == value@,
    {
        value.0
    }
}

impl vstd::std_specs::convert::FromSpecImpl<PcieBusId> for u16 {
    open spec fn obeys_from_spec() -> bool {
        true
    }

    closed spec fn from_spec(v: PcieBusId) -> u16 {
        v.0
    }
}

/// CUPTI identifier wrapper.
#[derive(Debug, Clone, Copy, PartialEq, Eq, Hash, PartialOrd, Ord, Structural)]
pub struct PcieHardwareDeviceId(u16);

impl View for PcieHardwareDeviceId {
    type V = u16;

    closed spec fn view(&self) -> u16 {
        self.0
    }
}

impl PcieHardwareDeviceId {
    /// The identifier with raw value `value`.
    pub closed spec fn of(value: u16) -> Self {
        PcieHardwareDeviceId(value)
    }

    /// The raw value of [`Self::of`] is the value it was made from.
    pub broadcast proof fn lemma_of_view(value: u16)
        ensures
            #[trigger] Self::of(value)@ == value,
    {
    }

    /// Returns the raw CUPTI value.
    pub fn get(self) -> (r: u16)
        ensures
            r == self@,
    {
        self.0
    }
}

impl From<u16> for PcieHardwareDeviceId {
    fn from(value: u16) -> (r: Self)
        ensures
            r == Self::of(value as u16),
            r@ == value,
    {
        PcieHardwareDeviceId(value)
    }
}

impl vstd::std_specs::convert::FromSpecImpl<u16> for PcieHardwareDeviceId {
    open spec fn obeys_from_spec() -> bool {
        true
    }

    closed spec fn from_spec(v: u16) -> Self {
        PcieHardwareDeviceId(v as u16)
    }
}

impl From<PcieHardwareDeviceId> for u16 {
    fn from(value: PcieHardwareDeviceId) -> (r: u16)
        ensures
            r == value@,
    {
        value.0
    }
}

impl vstd::std_specs::convert::FromSpecImpl<PcieHardwareDeviceId> for u16 {
    open spec fn obeys_from_spec() -> bool {
        true
    }

    closed spec fn from_spec(v: PcieHardwareDeviceId) -> u16 {
        v.0
    }
}

/// CUPTI identifier wrapper.
#[derive(Debug, Clone, Copy, PartialEq, Eq, Hash, PartialOrd, Ord, Structural)]
pub struct PcieVendorId(u16);

impl View for PcieVendorId {
    type V = u16;

    closed spec fn view(&self) -> u16 {
        self.0
    }
}

impl PcieVendorId {
    /// The identifier with raw value `value`.
    pub closed spec fn of(value: u16) -> Self {
        PcieVendorId(value)
    }

    /// The raw value of [`Self::of`] is the value it was made from.
    pub broadcast proof fn lemma_of_view(value: u16)
        ensures
            #[trigger] Self::of(value)@ == value,
    {
    }

    /// Returns the raw CUPTI value.
    pub fn get(self) -> (r: u16)
        ensures
            r == self@,
    {
        self.0
    }
}

impl From<u16> for PcieVendorId {
    fn from(value: u16) -> (r: Self)
        ensures
            r == Self::of(value as u16),
            r@ == value,
    {
        PcieVendorId(value)
    }
}

impl vstd::std_specs::convert::FromSpecImpl<u16> for PcieVendorId {
    open spec fn obeys_from_spec() -> bool {
        true
    }

    closed spec fn from_spec(v: u16) -> Self {
        PcieVendorId(v as u16)
    }
}

impl From<PcieVendorId> for u16 {
    fn from(value: PcieVendorId) -> (r: u16)
        ensures
            r == value@,
    {
        value.0
    }
}

impl vstd::std_specs::convert::FromSpecImpl<PcieVendorId> for u16 {
    open spec fn obeys_from_spec() -> bool {
        true
    }

    closed spec fn from_spec(v: PcieVendorId) -> u16 {
        v.0
    }
}

/// CUPTI identifier wrapper.
#[derive(Debug, Clone, Copy, PartialEq, Eq, Hash, PartialOrd, Ord, Structural)]
pub struct PcieDomainId(u32);

impl View for PcieDomainId {
    type V = u32;

    closed spec fn view(&self) -> u32 {
        self.0
    }
}

impl PcieDomainId {
    /// The identifier with raw value `value`.
    pub closed spec fn of(value: u32) -> Self {
        PcieDomainId(value)
    }

    /// The raw value of [`Self::of`] is the value it was made from.
    pub broadcast proof fn lemma_of_view(value: u32)
        ensures
            #[trigger] Self::of(value)@ == value,
    {
    }

    /// Returns the raw CUPTI value.
    pub fn get(self) -> (r: u32)
        ensures
            r == self@,
    {
        self.0
    }
}

impl From<u32> for PcieDomainId {
    fn from(value: u32) -> (r: Self)
        ensures
            r == Self::of(value as u32),
            r@ == value,
    {
        PcieDomainId(value)
    }
}

impl vstd::std_specs::convert::FromSpecImpl<u32> for PcieDomainId {
    open spec fn obeys_from_spec() -> bool {
        true
    }

    closed spec fn from_spec(v: u32) -> Self {
        PcieDomainId(v as u32)
    }
}

impl From<PcieDomainId> for u32 {
    fn from(value: PcieDomainId) -> (r: u32)
        ensures
            r == value@,
    {
        value.0
    }
}

impl vstd::std_specs::convert::FromSpecImpl<PcieDomainId> for u32 {
    open spec fn obeys_from_spec() -> bool {
        true
    }

    closed spec fn from_spec(v: PcieDomainId) -> u32 {
        v.0
    }
}

/// CUPTI identifier wrapper.
#[derive(Debug, Clone, Copy, PartialEq, Eq, Hash, PartialOrd, Ord, Structural)]
pub struct OpenAccDeviceTypeId(u32);

impl View for OpenAccDeviceTypeId {
    type V = u32;

    closed spec fn view(&self) -> u32 {
        self.0
    }
}

impl OpenAccDeviceTypeId {
    /// The identifier with raw value `value`.
    pub closed spec fn of(value: u32) -> Self {
        OpenAccDeviceTypeId(value)
    }

    /// The raw value of [`Self::of`] is the value it was made from.
    pub broadcast proof fn lemma_of_view(value: u32)
        ensures
            #[trigger] Self::of(value)@ == value,
    {
    }

    /// Returns the raw CUPTI value.
    pub fn get(self) -> (r: u32)
        ensures
            r == self@,
    {
        self.0
    }
}

impl From<u32> for OpenAccDeviceTypeId {
    fn from(value: u32) -> (r: Self)
        ensures
            r == Self::of(value as u32),
            r@ == value,
    {
        OpenAccDeviceTypeId(value)
    }
}

impl vstd::std_specs::convert::FromSpecImpl<u32> for OpenAccDeviceTypeId {
    open spec fn obeys_from_spec() -> bool {
        true
    }

    closed spec fn from_spec(v: u32) -> Self {
        OpenAccDeviceTypeId(v as u32)
    }
}

impl From<OpenAccDeviceTypeId> for u32 {
    fn from(value: OpenAccDeviceTypeId) -> (r: u32)
        ensures
            r == value@,
    {
        value.0
    }
}

impl vstd::std_specs::convert::FromSpecImpl<OpenAccDeviceTypeId> for u32 {
    open spec fn obeys_from_spec() -> bool {
        true
    }

    closed spec fn from_spec(v: OpenAccDeviceTypeId) -> u32 {
        v.0
    }
}

/// CUPTI identifier wrapper.
#[derive(Debug, Clone, Copy, PartialEq, Eq, Hash, PartialOrd, Ord, Structural)]
pub struct OpenAccDeviceNumber(u32);

impl View for OpenAccDeviceNumber {
    type V = u32;

    closed spec fn view(&self) -> u32 {
        self.0
    }
}

impl OpenAccDeviceNumber {
    /// The identifier with raw value `value`.
    pub closed spec fn of(value: u32) -> Self {
        OpenAccDeviceNumber(value)
    }

    /// The raw value of [`Self::of`] is the value it was made from.
    pub broadcast proof fn lemma_of_view(value: u32)
        ensures
            #[trigger] Self::of(value)@ == value,
    {
    }

    /// Returns the raw CUPTI value.
    pub fn get(self) -> (r: u32)
        ensures
            r == self@,
    {
        self.0
    }
}

impl From<u32> for OpenAccDeviceNumber {
    fn from(value: u32) -> (r: Self)
        ensures
            r == Self::of(value as u32),
            r@ == value,
    {
        OpenAccDeviceNumber(value)
    }
}

impl vstd::std_specs::convert::FromSpecImpl<u32> for OpenAccDeviceNumber {
    open spec fn obeys_from_spec() -> bool {
        true
    }

    closed spec fn from_spec(v: u32) -> Self {
        OpenAccDeviceNumber(v as u32)
    }
}

impl From<OpenAccDeviceNumber> for u32 {
    fn from(value: OpenAccDeviceNumber) -> (r: u32)
        ensures
            r == value@,
    {
        value.0
    }
}

impl vstd::std_specs::convert::FromSpecImpl<OpenAccDeviceNumber> for u32 {
    open spec fn obeys_from_spec() -> bool {
        true
    }

    closed spec fn from_spec(v: OpenAccDeviceNumber) -> u32 {
        v.0
    }
}

/// CUPTI identifier wrapper.
#[derive(Debug, Clone, Copy, PartialEq, Eq, Hash, PartialOrd, Ord, Structural)]
pub struct OpenAccAsynchronousId(u64);

impl View for OpenAccAsynchronousId {
    type V = u64;

    closed spec fn view(&self) -> u64 {
        self.0
    }
}

impl OpenAccAsynchronousId {
    /// The identifier with raw value `value`.
    pub closed spec fn of(value: u64) -> Self {
        OpenAccAsynchronousId(value)
    }

    /// The raw value of [`Self::of`] is the value it was made from.
    pub broadcast proof fn lemma_of_view(value: u64)
        ensures
            #[trigger] Self::of(value)@ == value,
    {
    }

    /// Returns the raw CUPTI value.
    pub fn get(self) -> (r: u64)
        ensures
            r == self@,
    {
        self.0
    }
}

impl From<u64> for OpenAccAsynchronousId {
    fn from(value: u64) -> (r: Self)
        ensures
            r == Self::of(value as u64),
            r@ == value,
    {
        OpenAccAsynchronousId(value)
    }
}

impl vstd::std_specs::convert::FromSpecImpl<u64> for OpenAccAsynchronousId {
    open spec fn obeys_from_spec() -> bool {
        true
    }

    closed spec fn from_spec(v: u64) -> Self {
        OpenAccAsynchronousId(v as u64)
    }
}

impl From<OpenAccAsynchronousId> for u64 {
    fn from(value: OpenAccAsynchronousId) -> (r: u64)
        ensures
            r == value@,
    {
        value.0
    }
}

impl vstd::std_specs::convert::FromSpecImpl<OpenAccAsynchronousId> for u64 {
    open spec fn obeys_from_spec() -> bool {
        true
    }

    closed spec fn from_spec(v: OpenAccAsynchronousId) -> u64 {
        v.0
    }
}

/// CUDA device ordinal used by CUPTI APIs.
#[derive(Debug, Clone, Copy, PartialEq, Eq, Hash, PartialOrd, Ord, Structural)]
pub struct CudaDevice(i32);

impl View for CudaDevice {
    type V = i32;

    closed spec fn view(&self) -> i32 {
        self.0
    }
}

impl CudaDevice {
    /// The identifier with raw value `value`.
    pub closed spec fn of(value: i32) -> Self {
        CudaDevice(value)
    }

    /// The raw value of [`Self::of`] is the value it was made from.
    pub broadcast proof fn lemma_of_view(value: i32)
        ensures
            #[trigger] Self::of(value)@ == value,
    {
    }

    /// Returns the raw CUPTI value.
    pub fn get(self) -> (r: i32)
        ensures
            r == self@,
    {
        self.0
    }
}

impl From<i32> for CudaDevice {
    fn from(value: i32) -> (r: Self)
        ensures
            r == Self::of(value as i32),
            r@ == value,
    {
        CudaDevice(value)
    }
}

impl vstd::std_specs::convert::FromSpecImpl<i32> for CudaDevice {
    open spec fn obeys_from_spec() -> bool {
        true
    }

    closed spec fn from_spec(v: i32) -> Self {
        CudaDevice(v as i32)
    }
}

impl From<CudaDevice> for i32 {
    fn from(value: CudaDevice) -> (r: i32)
        ensures
            r == value@,
    {
        value.0
    }
}

impl vstd::std_specs::convert::FromSpecImpl<CudaDevice> for i32 {
    open spec fn obeys_from_spec() -> bool {
        true
    }

    closed spec fn from_spec(v: CudaDevice) -> i32 {
        v.0
    }
}

/// CUPTI event identifier.
#[derive(Debug, Clone, Copy, PartialEq, Eq, Hash, PartialOrd, Ord, Structural)]
pub struct EventId(u32);

impl View for EventId {
    type V = u32;

    closed spec fn view(&self) -> u32 {
        self.0
    }
}

impl EventId {
    /// The identifier with raw value `value`.
    pub closed spec fn of(value: u32) -> Self {
        EventId(value)
    }

    /// The raw value of [`Self::of`] is the value it was made from.
    pub broadcast proof fn lemma_of_view(value: u32)
        ensures
            #[trigger] Self::of(value)@ == value,
    {
    }

    /// Returns the raw CUPTI value.
    pub fn get(self) -> (r: u32)
        ensures
            r == self@,
    {
        self.0
    }
}

impl From<u32> for EventId {
    fn from(value: u32) -> (r: Self)
        ensures
            r == Self::of(value as u32),
            r@ == value,
    {
        EventId(value)
    }
}

impl vstd::std_specs::convert::FromSpecImpl<u32> for EventId {
    open spec fn obeys_from_spec() -> bool {
        true
    }

    closed spec fn from_spec(v: u32) -> Self {
        EventId(v as u32)
    }
}

impl From<EventId> for u32 {
    fn from(value: EventId) -> (r: u32)
        ensures
            r == value@,
    {
        value.0
    }
}

impl vstd::std_specs::convert::FromSpecImpl<EventId> for u32 {
    open spec fn obeys_from_spec() -> bool {
        true
    }

    closed spec fn from_spec(v: EventId) -> u32 {
        v.0
    }
}

/// CUPTI event domain identifier.
#[derive(Debug, Clone, Copy, PartialEq, Eq, Hash, PartialOrd, Ord, Structural)]
pub struct EventDomainId(u32);

impl View for EventDomainId {
    type V = u32;

    closed spec fn view(&self) -> u32 {
        self.0
    }
}

impl EventDomainId {
    /// The identifier with raw value `value`.
    pub closed spec fn of(value: u32) -> Self {
        EventDomainId(value)
    }

    /// The raw value of [`Self::of`] is the value it was made from.
    pub broadcast proof fn lemma_of_view(value: u32)
        ensures
            #[trigger] Self::of(value)@ == value,
    {
    }

    /// Returns the raw CUPTI value.
    pub fn get(self) -> (r: u32)
        ensures
            r == self@,
    {
        self.0
    }
}

impl From<u32> for EventDomainId {
    fn from(value: u32) -> (r: Self)
        ensures
            r == Self::of(value as u32),
            r@ == value,
    {
        EventDomainId(value)
    }
}

impl vstd::std_specs::convert::FromSpecImpl<u32> for EventDomainId {
    open spec fn obeys_from_spec() -> bool {
        true
    }

    closed spec fn from_spec(v: u32) -> Self {
        EventDomainId(v as u32)
    }
}

impl From<EventDomainId> for u32 {
    fn from(value: EventDomainId) -> (r: u32)
        ensures
            r == value@,
    {
        value.0
    }
}

impl vstd::std_specs::convert::FromSpecImpl<EventDomainId> for u32 {
    open spec fn obeys_from_spec() -> bool {
        true
    }

    closed spec fn from_spec(v: EventDomainId) -> u32 {
        v.0
    }
}

/// CUPTI metric identifier.
#[derive(Debug, Clone, Copy, PartialEq, Eq, Hash, PartialOrd, Ord, Structural)]
pub struct MetricId(u32);

impl View for MetricId {
    type V = u32;

    closed spec fn view(&self) -> u32 {
        self.0
    }
}

impl MetricId {
    /// The identifier with raw value `value`.
    pub closed spec fn of(value: u32) -> Self {
        MetricId(value)
    }

    /// The raw value of [`Self::of`] is the value it was made from.
    pub broadcast proof fn lemma_of_view(value: u32)
        ensures
            #[trigger] Self::of(value)@ == value,
    {
    }

    /// Returns the raw CUPTI value.
    pub fn get(self) -> (r: u32)
        ensures
            r == self@,
    {
        self.0
    }
}

impl From<u32> for MetricId {
    fn from(value: u32) -> (r: Self)
        ensures
            r == Self::of(value as u32),
            r@ == value,
    {
        MetricId(value)
    }
}

impl vstd::std_specs::convert::FromSpecImpl<u32> for MetricId {
    open spec fn obeys_from_spec() -> bool {
        true
    }

    closed spec fn from_spec(v: u32) -> Self {
        MetricId(v as u32)
    }
}

impl From<MetricId> for u32 {
    fn from(value: MetricId) -> (r: u32)
        ensures
            r == value@,
    {
        value.0
    }
}

impl vstd::std_specs::convert::FromSpecImpl<MetricId> for u32 {
    open spec fn obeys_from_spec() -> bool {
        true
    }

    closed spec fn from_spec(v: MetricId) -> u32 {
        v.0
    }
}

/// Raw CUDA driver device attribute reported by CUPTI.
#[derive(Debug, Clone, Copy, PartialEq, Eq, Hash, Structural)]
pub struct CudaDeviceAttribute(u32);

impl View for CudaDeviceAttribute {
    type V = u32;

    closed spec fn view(&self) -> u32 {
        self.0
    }
}

impl CudaDeviceAttribute {
    /// The identifier with raw value `value`.
    pub closed spec fn of(value: u32) -> Self {
        CudaDeviceAttribute(value)
    }

    /// The raw value of [`Self::of`] is the value it was made from.
    pub broadcast proof fn lemma_of_view(value: u32)
        ensures
            #[trigger] Self::of(value)@ == value,
    {
    }

    /// Returns the raw CUPTI value.
    pub fn get(self) -> (r: u32)
        ensures
            r == self@,
    {
        self.0
    }
}

impl From<u32> for CudaDeviceAttribute {
    fn from(value: u32) -> (r: Self)
        ensures
            r == Self::of(value as u32),
            r@ == value,
    {
        CudaDeviceAttribute(value)
    }
}

impl vstd::std_specs::convert::FromSpecImpl<u32> for CudaDeviceAttribute {
    open spec fn obeys_from_spec() -> bool {
        true
    }

    closed spec fn from_spec(v: u32) -> Self {
        CudaDeviceAttribute(v as u32)
    }
}

/// Identifier for a CUPTI callback within a callback domain.
#[derive(Debug, Clone, Copy, PartialEq, Eq, Hash, Structural)]
pub struct CallbackId(u32);

impl View for CallbackId {
    type V = u32;

    closed spec fn view(&self) -> u32 {
        self.0
    }
}

impl CallbackId {
    /// The identifier with raw value `value`.
    pub closed spec fn of(value: u32) -> Self {
        CallbackId(value)
    }

    /// The raw value of [`Self::of`] is the value it was made from.
    pub broadcast proof fn lemma_of_view(value: u32)
        ensures
            #[trigger] Self::of(value)@ == value,
    {
    }

    /// Returns the raw CUPTI value.
    pub fn get(self) -> (r: u32)
        ensures
            r == self@,
    {
        self.0
    }
}

impl From<u32> for CallbackId {
    fn from(value: u32) -> (r: Self)
        ensures
            r == Self::of(value as u32),
            r@ == value,
    {
        CallbackId(value)
    }
}

impl vstd::std_specs::convert::FromSpecImpl<u32> for CallbackId {
    open spec fn obeys_from_spec() -> bool {
        true
    }

    closed spec fn from_spec(v: u32) -> Self {
        CallbackId(v as u32)
    }
}

/// Raw activity field identifier used in activity field selection.
#[derive(Debug, Clone, Copy, PartialEq, Eq, Hash, Structural)]
pub struct ActivityFieldId(i32);

impl View for ActivityFieldId {
    type V = i32;

    closed spec fn view(&self) -> i32 {
        self.0
    }
}

impl ActivityFieldId {
    /// The identifier with raw value `value`.
    pub closed spec fn of(value: i32) -> Self {
        ActivityFieldId(value)
    }

    /// The raw value of [`Self::of`] is the value it was made from.
    pub broadcast proof fn lemma_of_view(value: i32)
        ensures
            #[trigger] Self::of(value)@ == value,
    {
    }

    /// Returns the raw CUPTI value.
    pub fn get(self) -> (r: i32)
        ensures
            r == self@,
    {
        self.0
    }
}

impl From<i32> for ActivityFieldId {
    fn from(value: i32) -> (r: Self)
        ensures
            r == Self::of(value as i32),
            r@ == value,
    {
        ActivityFieldId(value)
    }
}

impl vstd::std_specs::convert::FromSpecImpl<i32> for ActivityFieldId {
    open spec fn obeys_from_spec() -> bool {
        true
    }

    closed spec fn from_spec(v: i32) -> Self {
        ActivityFieldId(v as i32)
    }
}

/// Raw values of identifiers made with `of`.
pub broadcast group group_id_views {
    ContextId::lemma_of_view,
    DeviceId::lemma_of_view,
    GraphId::lemma_of_view,
    ExecutableGraphId::lemma_of_view,
    GraphNodeId::lemma_of_view,
    StreamId::lemma_of_view,
    ChannelId::lemma_of_view,
    CorrelationId::lemma_of_view,
    ExternalCorrelationId::lemma_of_view,
    CudaEventId::lemma_of_view,
    CudaEventSyncId::lemma_of_view,
    ActivityMarkerId::lemma_of_view,
    SourceLocatorId::lemma_of_view,
    FunctionId::lemma_of_view,
    ModuleId::lemma_of_view,
    GridId::lemma_of_view,
    ProcessId::lemma_of_view,
    ThreadId::lemma_of_view,
    CuptiDomainId::lemma_of_view,
    UnifiedMemoryProcessorId::lemma_of_view,
    GpuInstanceId::lemma_of_view,
    ComputeInstanceId::lemma_of_view,
    NonUniformMemoryAccessId::lemma_of_view,
    NpuDomainId::lemma_of_view,
    JitOperationCorrelationId::lemma_of_view,
    PcieBridgeId::lemma_of_view,
    PcieBusId::lemma_of_view,
    PcieHardwareDeviceId::lemma_of_view,
    PcieVendorId::lemma_of_view,
    PcieDomainId::lemma_of_view,
    OpenAccDeviceTypeId::lemma_of_view,
    OpenAccDeviceNumber::lemma_of_view,
    OpenAccAsynchronousId::lemma_of_view,
    CudaDevice::lemma_of_view,
    EventId::lemma_of_view,
    EventDomainId::lemma_of_view,
    MetricId::lemma_of_view,
    CudaDeviceAttribute::lemma_of_view,
    CallbackId::lemma_of_view,
    ActivityFieldId::lemma_of_view,
}

/// Kind of a CUPTI activity record.
#[derive(Debug, Clone, Copy, PartialEq, Eq, Hash, Structural)]
#[non_exhaustive]
pub enum ActivityKind {
    /// `CUPTI_ACTIVITY_KIND_INVALID`.
    Invalid,
    /// `CUPTI_ACTIVITY_KIND_MEMCPY`.
    MemoryCopy,
    /// `CUPTI_ACTIVITY_KIND_MEMSET`.
    MemorySet,
    /// `CUPTI_ACTIVITY_KIND_KERNEL`.
    Kernel,
    /// `CUPTI_ACTIVITY_KIND_DRIVER`.
    Driver,
    /// `CUPTI_ACTIVITY_KIND_RUNTIME`.
    Runtime,
    /// `CUPTI_ACTIVITY_KIND_EVENT`.
    Event,
    /// `CUPTI_ACTIVITY_KIND_METRIC`.
    Metric,
    /// `CUPTI_ACTIVITY_KIND_DEVICE`.
    Device,
    /// `CUPTI_ACTIVITY_KIND_CONTEXT`.
    Context,
    /// `CUPTI_ACTIVITY_KIND_CONCURRENT_KERNEL`.
    ConcurrentKernel,
    /// `CUPTI_ACTIVITY_KIND_NAME`.
    Name,
    /// `CUPTI_ACTIVITY_KIND_MARKER`.
    Marker,
    /// `CUPTI_ACTIVITY_KIND_MARKER_DATA`.
    MarkerData,
    /// `CUPTI_ACTIVITY_KIND_SOURCE_LOCATOR`.
    SourceLocator,
    /// `CUPTI_ACTIVITY_KIND_GLOBAL_ACCESS`.
    GlobalAccess,
    /// `CUPTI_ACTIVITY_KIND_BRANCH`.
    Branch,
    /// `CUPTI_ACTIVITY_KIND_OVERHEAD`.
    Overhead,
    /// `CUPTI_ACTIVITY_KIND_CDP_KERNEL`.
    CudaDynamicParallelismKernel,
    /// `CUPTI_ACTIVITY_KIND_PREEMPTION`.
    Preemption,
    /// `CUPTI_ACTIVITY_KIND_ENVIRONMENT`.
    Environment,
    /// `CUPTI_ACTIVITY_KIND_EVENT_INSTANCE`.
    EventInstance,
    /// `CUPTI_ACTIVITY_KIND_MEMCPY2`.
    PeerMemoryCopy,
    /// `CUPTI_ACTIVITY_KIND_METRIC_INSTANCE`.
    MetricInstance,
    /// `CUPTI_ACTIVITY_KIND_INSTRUCTION_EXECUTION`.
    InstructionExecution,
    /// `CUPTI_ACTIVITY_KIND_UNIFIED_MEMORY_COUNTER`.
    UnifiedMemoryCounter,
    /// `CUPTI_ACTIVITY_KIND_FUNCTION`.
    Function,
    /// `CUPTI_ACTIVITY_KIND_MODULE`.
    Module,
    /// `CUPTI_ACTIVITY_KIND_DEVICE_ATTRIBUTE`.
    DeviceAttribute,
    /// `CUPTI_ACTIVITY_KIND_SHARED_ACCESS`.
    SharedAccess,
    /// `CUPTI_ACTIVITY_KIND_PC_SAMPLING`.
    PcSampling,
    /// `CUPTI_ACTIVITY_KIND_PC_SAMPLING_RECORD_INFO`.
    PcSamplingRecordInfo,
    /// `CUPTI_ACTIVITY_KIND_INSTRUCTION_CORRELATION`.
    InstructionCorrelation,
    /// `CUPTI_ACTIVITY_KIND_OPENACC_DATA`.
    OpenAccData,
    /// `CUPTI_ACTIVITY_KIND_OPENACC_LAUNCH`.
    OpenAccLaunch,
    /// `CUPTI_ACTIVITY_KIND_OPENACC_OTHER`.
    OpenAccOther,
    /// `CUPTI_ACTIVITY_KIND_CUDA_EVENT`.
    CudaEvent,
    /// `CUPTI_ACTIVITY_KIND_STREAM`.
    Stream,
    /// `CUPTI_ACTIVITY_KIND_SYNCHRONIZATION`.
    Synchronization,
    /// `CUPTI_ACTIVITY_KIND_EXTERNAL_CORRELATION`.
    ExternalCorrelation,
    /// `CUPTI_ACTIVITY_KIND_NVLINK`.
    NvLink,
    /// `CUPTI_ACTIVITY_KIND_INSTANTANEOUS_EVENT`.
    InstantaneousEvent,
    /// `CUPTI_ACTIVITY_KIND_INSTANTANEOUS_EVENT_INSTANCE`.
    InstantaneousEventInstance,
    /// `CUPTI_ACTIVITY_KIND_INSTANTANEOUS_METRIC`.
    InstantaneousMetric,
    /// `CUPTI_ACTIVITY_KIND_INSTANTANEOUS_METRIC_INSTANCE`.
    InstantaneousMetricInstance,
    /// `CUPTI_ACTIVITY_KIND_MEMORY`.
    Memory,
    /// `CUPTI_ACTIVITY_KIND_PCIE`.
    Pcie,
    /// `CUPTI_ACTIVITY_KIND_OPENMP`.
    OpenMultiProcessing,
    /// `CUPTI_ACTIVITY_KIND_INTERNAL_LAUNCH_API`.
    InternalLaunchApi,
    /// `CUPTI_ACTIVITY_KIND_MEMORY2`.
    Memory2,
    /// `CUPTI_ACTIVITY_KIND_MEMORY_POOL`.
    MemoryPool,
    /// `CUPTI_ACTIVITY_KIND_GRAPH_TRACE`.
    GraphTrace,
    /// `CUPTI_ACTIVITY_KIND_JIT`.
    Jit,
    /// `CUPTI_ACTIVITY_KIND_DEVICE_GRAPH_TRACE`.
    DeviceGraphTrace,
    /// `CUPTI_ACTIVITY_KIND_MEM_DECOMPRESS`.
    MemoryDecompress,
    /// `CUPTI_ACTIVITY_KIND_CONFIDENTIAL_COMPUTE_ROTATION`.
    ConfidentialComputeRotation,
    /// `CUPTI_ACTIVITY_KIND_GRAPH_HOST_NODE`.
    GraphHostNode,
    /// `CUPTI_ACTIVITY_KIND_COMPUTE_ENGINE_CTX_SWITCH`.
    ComputeEngineCtxSwitch,
    /// `CUPTI_ACTIVITY_KIND_HOST_LAUNCH`.
    HostLaunch,
    /// `CUPTI_ACTIVITY_KIND_GREEN_CONTEXT`.
    GreenContext,
    /// `CUPTI_ACTIVITY_KIND_COUNT`.
    Count,
    /// `CUPTI_ACTIVITY_KIND_FORCE_INT`.
    ForceInt,
}

impl ActivityKind {
    /// Numeric value of the variant in the C enum.
    pub open spec fn raw_value(self) -> u32 {
        match self {
            ActivityKind::Invalid => 0,
            ActivityKind::MemoryCopy => 1,
            ActivityKind::MemorySet => 2,
            ActivityKind::Kernel => 3,
            ActivityKind::Driver => 4,
            ActivityKind::Runtime => 5,
            ActivityKind::Event => 6,
            ActivityKind::Metric => 7,
            ActivityKind::Device => 8,
            ActivityKind::Context => 9,
            ActivityKind::ConcurrentKernel => 10,
            ActivityKind::Name => 11,
            ActivityKind::Marker => 12,
            ActivityKind::MarkerData => 13,
            ActivityKind::SourceLocator => 14,
            ActivityKind::GlobalAccess => 15,
            ActivityKind::Branch => 16,
            ActivityKind::Overhead => 17,
            ActivityKind::CudaDynamicParallelismKernel => 18,
            ActivityKind::Preemption => 19,
            ActivityKind::Environment => 20,
            ActivityKind::EventInstance => 21,
            ActivityKind::PeerMemoryCopy => 22,
            ActivityKind::MetricInstance => 23,
            ActivityKind::InstructionExecution => 24,
            ActivityKind::UnifiedMemoryCounter => 25,
            ActivityKind::Function => 26,
            ActivityKind::Module => 27,
            ActivityKind::DeviceAttribute => 28,
            ActivityKind::SharedAccess => 29,
            ActivityKind::PcSampling => 30,
            ActivityKind::PcSamplingRecordInfo => 31,
            ActivityKind::InstructionCorrelation => 32,
            ActivityKind::OpenAccData => 33,
            ActivityKind::OpenAccLaunch => 34,
            ActivityKind::OpenAccOther => 35,
            ActivityKind::CudaEvent => 36,
            ActivityKind::Stream => 37,
            ActivityKind::Synchronization => 38,
            ActivityKind::ExternalCorrelation => 39,
            ActivityKind::NvLink => 40,
            ActivityKind::InstantaneousEvent => 41,
            ActivityKind::InstantaneousEventInstance => 42,
            ActivityKind::InstantaneousMetric => 43,
            ActivityKind::InstantaneousMetricInstance => 44,
            ActivityKind::Memory => 45,
            ActivityKind::Pcie => 46,
            ActivityKind::OpenMultiProcessing => 47,
            ActivityKind::InternalLaunchApi => 48,
            ActivityKind::Memory2 => 49,
            ActivityKind::MemoryPool => 50,
            ActivityKind::GraphTrace => 51,
            ActivityKind::Jit => 52,
            ActivityKind::DeviceGraphTrace => 53,
            ActivityKind::MemoryDecompress => 54,
            ActivityKind::ConfidentialComputeRotation => 55,
            ActivityKind::GraphHostNode => 56,
            ActivityKind::ComputeEngineCtxSwitch => 57,
            ActivityKind::HostLaunch => 58,
            ActivityKind::GreenContext => 59,
            ActivityKind::Count => 60,
            ActivityKind::ForceInt => 0x7fffffff,
        }
    }

    /// Returns the numeric value of the variant in the C enum.
    pub fn raw(self) -> (r: u32)
        ensures
            r == self.raw_value(),
    {
        match self {
            ActivityKind::Invalid => 0,
            ActivityKind::MemoryCopy => 1,
            ActivityKind::MemorySet => 2,
            ActivityKind::Kernel => 3,
            ActivityKind::Driver => 4,
            ActivityKind::Runtime => 5,
            ActivityKind::Event => 6,
            ActivityKind::Metric => 7,
            ActivityKind::Device => 8,
            ActivityKind::Context => 9,
            ActivityKind::ConcurrentKernel => 10,
            ActivityKind::Name => 11,
            ActivityKind::Marker => 12,
            ActivityKind::MarkerData => 13,
            ActivityKind::SourceLocator => 14,
            ActivityKind::GlobalAccess => 15,
            ActivityKind::Branch => 16,
            ActivityKind::Overhead => 17,
            ActivityKind::CudaDynamicParallelismKernel => 18,
            ActivityKind::Preemption => 19,
            ActivityKind::Environment => 20,
            ActivityKind::EventInstance => 21,
            ActivityKind::PeerMemoryCopy => 22,
            ActivityKind::MetricInstance => 23,
            ActivityKind::InstructionExecution => 24,
            ActivityKind::UnifiedMemoryCounter => 25,
            ActivityKind::Function => 26,
            ActivityKind::Module => 27,
            ActivityKind::DeviceAttribute => 28,
            ActivityKind::SharedAccess => 29,
            ActivityKind::PcSampling => 30,
            ActivityKind::PcSamplingRecordInfo => 31,
            ActivityKind::InstructionCorrelation => 32,
            ActivityKind::OpenAccData => 33,
            ActivityKind::OpenAccLaunch => 34,
            ActivityKind::OpenAccOther => 35,
            ActivityKind::CudaEvent => 36,
            ActivityKind::Stream => 37,
            ActivityKind::Synchronization => 38,
            ActivityKind::ExternalCorrelation => 39,
            ActivityKind::NvLink => 40,
            ActivityKind::InstantaneousEvent => 41,
            ActivityKind::InstantaneousEventInstance => 42,
            ActivityKind::InstantaneousMetric => 43,
            ActivityKind::InstantaneousMetricInstance => 44,
            ActivityKind::Memory => 45,
            ActivityKind::Pcie => 46,
            ActivityKind::OpenMultiProcessing => 47,
            ActivityKind::InternalLaunchApi => 48,
            ActivityKind::Memory2 => 49,
            ActivityKind::MemoryPool => 50,
            ActivityKind::GraphTrace => 51,
            ActivityKind::Jit => 52,
            ActivityKind::DeviceGraphTrace => 53,
            ActivityKind::MemoryDecompress => 54,
            ActivityKind::ConfidentialComputeRotation => 55,
            ActivityKind::GraphHostNode => 56,
            ActivityKind::ComputeEngineCtxSwitch => 57,
            ActivityKind::HostLaunch => 58,
            ActivityKind::GreenContext => 59,
            ActivityKind::Count => 60,
            ActivityKind::ForceInt => 0x7fffffff,
        }
    }

    /// Decodes a numeric value of the C enum, or `None` for a value it does not define.
    pub fn try_from_raw(value: u32) -> (r: Option<Self>)
        ensures
            match r {
                Some(v) => v.raw_value() == value,
                None => forall|v: Self| v.raw_value() != value,
            },
    {
        match value {
            0 => Some(ActivityKind::Invalid),
            1 => Some(ActivityKind::MemoryCopy),
            2 => Some(ActivityKind::MemorySet),
            3 => Some(ActivityKind::Kernel),
            4 => Some(ActivityKind::Driver),
            5 => Some(ActivityKind::Runtime),
            6 => Some(ActivityKind::Event),
            7 => Some(ActivityKind::Metric),
            8 => Some(ActivityKind::Device),
            9 => Some(ActivityKind::Context),
            10 => Some(ActivityKind::ConcurrentKernel),
            11 => Some(ActivityKind::Name),
            12 => Some(ActivityKind::Marker),
            13 => Some(ActivityKind::MarkerData),
            14 => Some(ActivityKind::SourceLocator),
            15 => Some(ActivityKind::GlobalAccess),
            16 => Some(ActivityKind::Branch),
            17 => Some(ActivityKind::Overhead),
            18 => Some(ActivityKind::CudaDynamicParallelismKernel),
            19 => Some(ActivityKind::Preemption),
            20 => Some(ActivityKind::Environment),
            21 => Some(ActivityKind::EventInstance),
            22 => Some(ActivityKind::PeerMemoryCopy),
            23 => Some(ActivityKind::MetricInstance),
            24 => Some(ActivityKind::InstructionExecution),
            25 => Some(ActivityKind::UnifiedMemoryCounter),
            26 => Some(ActivityKind::Function),
            27 => Some(ActivityKind::Module),
            28 => Some(ActivityKind::DeviceAttribute),
            29 => Some(ActivityKind::SharedAccess),
            30 => Some(ActivityKind::PcSampling),
            31 => Some(ActivityKind::PcSamplingRecordInfo),
            32 => Some(ActivityKind::InstructionCorrelation),
            33 => Some(ActivityKind::OpenAccData),
            34 => Some(ActivityKind::OpenAccLaunch),
            35 => Some(ActivityKind::OpenAccOther),
            36 => Some(ActivityKind::CudaEvent),
            37 => Some(ActivityKind::Stream),
            38 => Some(ActivityKind::Synchronization),
            39 => Some(ActivityKind::ExternalCorrelation),
            40 => Some(ActivityKind::NvLink),
            41 => Some(ActivityKind::InstantaneousEvent),
            42 => Some(ActivityKind::InstantaneousEventInstance),
            43 => Some(ActivityKind::InstantaneousMetric),
            44 => Some(ActivityKind::InstantaneousMetricInstance),
            45 => Some(ActivityKind::Memory),
            46 => Some(ActivityKind::Pcie),
            47 => Some(ActivityKind::OpenMultiProcessing),
            48 => Some(ActivityKind::InternalLaunchApi),
            49 => Some(ActivityKind::Memory2),
            50 => Some(ActivityKind::MemoryPool),
            51 => Some(ActivityKind::GraphTrace),
            52 => Some(ActivityKind::Jit),
            53 => Some(ActivityKind::DeviceGraphTrace),
            54 => Some(ActivityKind::MemoryDecompress),
            55 => Some(ActivityKind::ConfidentialComputeRotation),
            56 => Some(ActivityKind::GraphHostNode),
            57 => Some(ActivityKind::ComputeEngineCtxSwitch),
            58 => Some(ActivityKind::HostLaunch),
            59 => Some(ActivityKind::GreenContext),
            60 => Some(ActivityKind::Count),
            0x7fffffff => Some(ActivityKind::ForceInt),
            _ => None,
        }
    }

    /// The C name of the variant.
    pub open spec fn c_name(self) -> &'static str {
        match self {
            ActivityKind::Invalid => "CUPTI_ACTIVITY_KIND_INVALID",
            ActivityKind::MemoryCopy => "CUPTI_ACTIVITY_KIND_MEMCPY",
            ActivityKind::MemorySet => "CUPTI_ACTIVITY_KIND_MEMSET",
            ActivityKind::Kernel => "CUPTI_ACTIVITY_KIND_KERNEL",
            ActivityKind::Driver => "CUPTI_ACTIVITY_KIND_DRIVER",
            ActivityKind::Runtime => "CUPTI_ACTIVITY_KIND_RUNTIME",
            ActivityKind::Event => "CUPTI_ACTIVITY_KIND_EVENT",
            ActivityKind::Metric => "CUPTI_ACTIVITY_KIND_METRIC",
            ActivityKind::Device => "CUPTI_ACTIVITY_KIND_DEVICE",
            ActivityKind::Context => "CUPTI_ACTIVITY_KIND_CONTEXT",
            ActivityKind::ConcurrentKernel => "CUPTI_ACTIVITY_KIND_CONCURRENT_KERNEL",
            ActivityKind::Name => "CUPTI_ACTIVITY_KIND_NAME",
            ActivityKind::Marker => "CUPTI_ACTIVITY_KIND_MARKER",
            ActivityKind::MarkerData => "CUPTI_ACTIVITY_KIND_MARKER_DATA",
            ActivityKind::SourceLocator => "CUPTI_ACTIVITY_KIND_SOURCE_LOCATOR",
            ActivityKind::GlobalAccess => "CUPTI_ACTIVITY_KIND_GLOBAL_ACCESS",
            ActivityKind::Branch => "CUPTI_ACTIVITY_KIND_BRANCH",
            ActivityKind::Overhead => "CUPTI_ACTIVITY_KIND_OVERHEAD",
            ActivityKind::CudaDynamicParallelismKernel => "CUPTI_ACTIVITY_KIND_CDP_KERNEL",
            ActivityKind::Preemption => "CUPTI_ACTIVITY_KIND_PREEMPTION",
            ActivityKind::Environment => "CUPTI_ACTIVITY_KIND_ENVIRONMENT",
            ActivityKind::EventInstance => "CUPTI_ACTIVITY_KIND_EVENT_INSTANCE",
            ActivityKind::PeerMemoryCopy => "CUPTI_ACTIVITY_KIND_MEMCPY2",
            ActivityKind::MetricInstance => "CUPTI_ACTIVITY_KIND_METRIC_INSTANCE",
            ActivityKind::InstructionExecution => "CUPTI_ACTIVITY_KIND_INSTRUCTION_EXECUTION",
            ActivityKind::UnifiedMemoryCounter => "CUPTI_ACTIVITY_KIND_UNIFIED_MEMORY_COUNTER",
            ActivityKind::Function => "CUPTI_ACTIVITY_KIND_FUNCTION",
            ActivityKind::Module => "CUPTI_ACTIVITY_KIND_MODULE",
            ActivityKind::DeviceAttribute => "CUPTI_ACTIVITY_KIND_DEVICE_ATTRIBUTE",
            ActivityKind::SharedAccess => "CUPTI_ACTIVITY_KIND_SHARED_ACCESS",
            ActivityKind::PcSampling => "CUPTI_ACTIVITY_KIND_PC_SAMPLING",
            ActivityKind::PcSamplingRecordInfo => "CUPTI_ACTIVITY_KIND_PC_SAMPLING_RECORD_INFO",
            ActivityKind::InstructionCorrelation => "CUPTI_ACTIVITY_KIND_INSTRUCTION_CORRELATION",
            ActivityKind::OpenAccData => "CUPTI_ACTIVITY_KIND_OPENACC_DATA",
            ActivityKind::OpenAccLaunch => "CUPTI_ACTIVITY_KIND_OPENACC_LAUNCH",
            ActivityKind::OpenAccOther => "CUPTI_ACTIVITY_KIND_OPENACC_OTHER",
            ActivityKind::CudaEvent => "CUPTI_ACTIVITY_KIND_CUDA_EVENT",
            ActivityKind::Stream => "CUPTI_ACTIVITY_KIND_STREAM",
            ActivityKind::Synchronization => "CUPTI_ACTIVITY_KIND_SYNCHRONIZATION",
            ActivityKind::ExternalCorrelation => "CUPTI_ACTIVITY_KIND_EXTERNAL_CORRELATION",
            ActivityKind::NvLink => "CUPTI_ACTIVITY_KIND_NVLINK",
            ActivityKind::InstantaneousEvent => "CUPTI_ACTIVITY_KIND_INSTANTANEOUS_EVENT",
            ActivityKind::InstantaneousEventInstance => "CUPTI_ACTIVITY_KIND_INSTANTANEOUS_EVENT_INSTANCE",
            ActivityKind::InstantaneousMetric => "CUPTI_ACTIVITY_KIND_INSTANTANEOUS_METRIC",
            ActivityKind::InstantaneousMetricInstance => "CUPTI_ACTIVITY_KIND_INSTANTANEOUS_METRIC_INSTANCE",
            ActivityKind::Memory => "CUPTI_ACTIVITY_KIND_MEMORY",
            ActivityKind::Pcie => "CUPTI_ACTIVITY_KIND_PCIE",
            ActivityKind::OpenMultiProcessing => "CUPTI_ACTIVITY_KIND_OPENMP",
            ActivityKind::InternalLaunchApi => "CUPTI_ACTIVITY_KIND_INTERNAL_LAUNCH_API",
            ActivityKind::Memory2 => "CUPTI_ACTIVITY_KIND_MEMORY2",
            ActivityKind::MemoryPool => "CUPTI_ACTIVITY_KIND_MEMORY_POOL",
            ActivityKind::GraphTrace => "CUPTI_ACTIVITY_KIND_GRAPH_TRACE",
            ActivityKind::Jit => "CUPTI_ACTIVITY_KIND_JIT",
            ActivityKind::DeviceGraphTrace => "CUPTI_ACTIVITY_KIND_DEVICE_GRAPH_TRACE",
            ActivityKind::MemoryDecompress => "CUPTI_ACTIVITY_KIND_MEM_DECOMPRESS",
            ActivityKind::ConfidentialComputeRotation => "CUPTI_ACTIVITY_KIND_CONFIDENTIAL_COMPUTE_ROTATION",
            ActivityKind::GraphHostNode => "CUPTI_ACTIVITY_KIND_GRAPH_HOST_NODE",
            ActivityKind::ComputeEngineCtxSwitch => "CUPTI_ACTIVITY_KIND_COMPUTE_ENGINE_CTX_SWITCH",
            ActivityKind::HostLaunch => "CUPTI_ACTIVITY_KIND_HOST_LAUNCH",
            ActivityKind::GreenContext => "CUPTI_ACTIVITY_KIND_GREEN_CONTEXT",
            ActivityKind::Count => "CUPTI_ACTIVITY_KIND_COUNT",
            ActivityKind::ForceInt => "CUPTI_ACTIVITY_KIND_FORCE_INT",
        }
    }

    /// Returns the C name of the variant, as CUPTI's headers spell it.
    pub fn name(self) -> (r: &'static str)
        ensures
            r == self.c_name(),
    {
        match self {
            ActivityKind::Invalid => "CUPTI_ACTIVITY_KIND_INVALID",
            ActivityKind::MemoryCopy => "CUPTI_ACTIVITY_KIND_MEMCPY",
            ActivityKind::MemorySet => "CUPTI_ACTIVITY_KIND_MEMSET",
            ActivityKind::Kernel => "CUPTI_ACTIVITY_KIND_KERNEL",
            ActivityKind::Driver => "CUPTI_ACTIVITY_KIND_DRIVER",
            ActivityKind::Runtime => "CUPTI_ACTIVITY_KIND_RUNTIME",
            ActivityKind::Event => "CUPTI_ACTIVITY_KIND_EVENT",
            ActivityKind::Metric => "CUPTI_ACTIVITY_KIND_METRIC",
            ActivityKind::Device => "CUPTI_ACTIVITY_KIND_DEVICE",
            ActivityKind::Context => "CUPTI_ACTIVITY_KIND_CONTEXT",
            ActivityKind::ConcurrentKernel => "CUPTI_ACTIVITY_KIND_CONCURRENT_KERNEL",
            ActivityKind::Name => "CUPTI_ACTIVITY_KIND_NAME",
            ActivityKind::Marker => "CUPTI_ACTIVITY_KIND_MARKER",
            ActivityKind::MarkerData => "CUPTI_ACTIVITY_KIND_MARKER_DATA",
            ActivityKind::SourceLocator => "CUPTI_ACTIVITY_KIND_SOURCE_LOCATOR",
            ActivityKind::GlobalAccess => "CUPTI_ACTIVITY_KIND_GLOBAL_ACCESS",
            ActivityKind::Branch => "CUPTI_ACTIVITY_KIND_BRANCH",
            ActivityKind::Overhead => "CUPTI_ACTIVITY_KIND_OVERHEAD",
            ActivityKind::CudaDynamicParallelismKernel => "CUPTI_ACTIVITY_KIND_CDP_KERNEL",
            ActivityKind::Preemption => "CUPTI_ACTIVITY_KIND_PREEMPTION",
            ActivityKind::Environment => "CUPTI_ACTIVITY_KIND_ENVIRONMENT",
            ActivityKind::EventInstance => "CUPTI_ACTIVITY_KIND_EVENT_INSTANCE",
            ActivityKind::PeerMemoryCopy => "CUPTI_ACTIVITY_KIND_MEMCPY2",
            ActivityKind::MetricInstance => "CUPTI_ACTIVITY_KIND_METRIC_INSTANCE",
            ActivityKind::InstructionExecution => "CUPTI_ACTIVITY_KIND_INSTRUCTION_EXECUTION",
            ActivityKind::UnifiedMemoryCounter => "CUPTI_ACTIVITY_KIND_UNIFIED_MEMORY_COUNTER",
            ActivityKind::Function => "CUPTI_ACTIVITY_KIND_FUNCTION",
            ActivityKind::Module => "CUPTI_ACTIVITY_KIND_MODULE",
            ActivityKind::DeviceAttribute => "CUPTI_ACTIVITY_KIND_DEVICE_ATTRIBUTE",
            ActivityKind::SharedAccess => "CUPTI_ACTIVITY_KIND_SHARED_ACCESS",
            ActivityKind::PcSampling => "CUPTI_ACTIVITY_KIND_PC_SAMPLING",
            ActivityKind::PcSamplingRecordInfo => "CUPTI_ACTIVITY_KIND_PC_SAMPLING_RECORD_INFO",
            ActivityKind::InstructionCorrelation => "CUPTI_ACTIVITY_KIND_INSTRUCTION_CORRELATION",
            ActivityKind::OpenAccData => "CUPTI_ACTIVITY_KIND_OPENACC_DATA",
            ActivityKind::OpenAccLaunch => "CUPTI_ACTIVITY_KIND_OPENACC_LAUNCH",
            ActivityKind::OpenAccOther => "CUPTI_ACTIVITY_KIND_OPENACC_OTHER",
            ActivityKind::CudaEvent => "CUPTI_ACTIVITY_KIND_CUDA_EVENT",
            ActivityKind::Stream => "CUPTI_ACTIVITY_KIND_STREAM",
            ActivityKind::Synchronization => "CUPTI_ACTIVITY_KIND_SYNCHRONIZATION",
            ActivityKind::ExternalCorrelation => "CUPTI_ACTIVITY_KIND_EXTERNAL_CORRELATION",
            ActivityKind::NvLink => "CUPTI_ACTIVITY_KIND_NVLINK",
            ActivityKind::InstantaneousEvent => "CUPTI_ACTIVITY_KIND_INSTANTANEOUS_EVENT",
            ActivityKind::InstantaneousEventInstance => "CUPTI_ACTIVITY_KIND_INSTANTANEOUS_EVENT_INSTANCE",
            ActivityKind::InstantaneousMetric => "CUPTI_ACTIVITY_KIND_INSTANTANEOUS_METRIC",
            ActivityKind::InstantaneousMetricInstance => "CUPTI_ACTIVITY_KIND_INSTANTANEOUS_METRIC_INSTANCE",
            ActivityKind::Memory => "CUPTI_ACTIVITY_KIND_MEMORY",
            ActivityKind::Pcie => "CUPTI_ACTIVITY_KIND_PCIE",
            ActivityKind::OpenMultiProcessing => "CUPTI_ACTIVITY_KIND_OPENMP",
            ActivityKind::InternalLaunchApi => "CUPTI_ACTIVITY_KIND_INTERNAL_LAUNCH_API",
            ActivityKind::Memory2 => "CUPTI_ACTIVITY_KIND_MEMORY2",
            ActivityKind::MemoryPool => "CUPTI_ACTIVITY_KIND_MEMORY_POOL",
            ActivityKind::GraphTrace => "CUPTI_ACTIVITY_KIND_GRAPH_TRACE",
            ActivityKind::Jit => "CUPTI_ACTIVITY_KIND_JIT",
            ActivityKind::DeviceGraphTrace => "CUPTI_ACTIVITY_KIND_DEVICE_GRAPH_TRACE",
            ActivityKind::MemoryDecompress => "CUPTI_ACTIVITY_KIND_MEM_DECOMPRESS",
            ActivityKind::ConfidentialComputeRotation => "CUPTI_ACTIVITY_KIND_CONFIDENTIAL_COMPUTE_ROTATION",
            ActivityKind::GraphHostNode => "CUPTI_ACTIVITY_KIND_GRAPH_HOST_NODE",
            ActivityKind::ComputeEngineCtxSwitch => "CUPTI_ACTIVITY_KIND_COMPUTE_ENGINE_CTX_SWITCH",
            ActivityKind::HostLaunch => "CUPTI_ACTIVITY_KIND_HOST_LAUNCH",
            ActivityKind::GreenContext => "CUPTI_ACTIVITY_KIND_GREEN_CONTEXT",
            ActivityKind::Count => "CUPTI_ACTIVITY_KIND_COUNT",
            ActivityKind::ForceInt => "CUPTI_ACTIVITY_KIND_FORCE_INT",
        }
    }
}

/// No two activity kinds share a C value, so decoding the value of a kind with
/// [`ActivityKind::try_from_raw`] gives back that kind.
pub proof fn lemma_activity_kind_raw_round_trip(kind: ActivityKind, other: ActivityKind)
    requires
        other.raw_value() == kind.raw_value(),
    ensures
        other == kind,
{
}

/// Kind of object an activity record refers to.
#[derive(Debug, Clone, Copy, PartialEq, Eq, Hash, Structural)]
#[non_exhaustive]
pub enum ActivityObjectKind {
    /// `CUPTI_ACTIVITY_OBJECT_UNKNOWN`.
    Unknown,
    /// `CUPTI_ACTIVITY_OBJECT_PROCESS`.
    Process,
    /// `CUPTI_ACTIVITY_OBJECT_THREAD`.
    Thread,
    /// `CUPTI_ACTIVITY_OBJECT_DEVICE`.
    Device,
    /// `CUPTI_ACTIVITY_OBJECT_CONTEXT`.
    Context,
    /// `CUPTI_ACTIVITY_OBJECT_STREAM`.
    Stream,
    /// `CUPTI_ACTIVITY_OBJECT_FORCE_INT`.
    ForceInt,
}

impl ActivityObjectKind {
    /// Numeric value of the variant in the C enum.
    pub open spec fn raw_value(self) -> u32 {
        match self {
            ActivityObjectKind::Unknown => 0,
            ActivityObjectKind::Process => 1,
            ActivityObjectKind::Thread => 2,
            ActivityObjectKind::Device => 3,
            ActivityObjectKind::Context => 4,
            ActivityObjectKind::Stream => 5,
            ActivityObjectKind::ForceInt => 0x7fffffff,
        }
    }

    /// Returns the numeric value of the variant in the C enum.
    pub fn raw(self) -> (r: u32)
        ensures
            r == self.raw_value(),
    {
        match self {
            ActivityObjectKind::Unknown => 0,
            ActivityObjectKind::Process => 1,
            ActivityObjectKind::Thread => 2,
            ActivityObjectKind::Device => 3,
            ActivityObjectKind::Context => 4,
            ActivityObjectKind::Stream => 5,
            ActivityObjectKind::ForceInt => 0x7fffffff,
        }
    }

    /// Decodes a numeric value of the C enum, or `None` for a value it does not define.
    pub fn try_from_raw(value: u32) -> (r: Option<Self>)
        ensures
            match r {
                Some(v) => v.raw_value() == value,
                None => forall|v: Self| v.raw_value() != value,
            },
    {
        match value {
            0 => Some(ActivityObjectKind::Unknown),
            1 => Some(ActivityObjectKind::Process),
            2 => Some(ActivityObjectKind::Thread),
            3 => Some(ActivityObjectKind::Device),
            4 => Some(ActivityObjectKind::Context),
            5 => Some(ActivityObjectKind::Stream),
            0x7fffffff => Some(ActivityObjectKind::ForceInt),
            _ => None,
        }
    }
}

/// Kind of environment data in an environment activity record.
#[derive(Debug, Clone, Copy, PartialEq, Eq, Hash, Structural)]
#[non_exhaustive]
pub enum ActivityEnvironmentKind {
    /// `CUPTI_ACTIVITY_ENVIRONMENT_UNKNOWN`.
    Unknown,
    /// `CUPTI_ACTIVITY_ENVIRONMENT_SPEED`.
    Speed,
    /// `CUPTI_ACTIVITY_ENVIRONMENT_TEMPERATURE`.
    Temperature,
    /// `CUPTI_ACTIVITY_ENVIRONMENT_POWER`.
    Power,
    /// `CUPTI_ACTIVITY_ENVIRONMENT_COOLING`.
    Cooling,
    /// `CUPTI_ACTIVITY_ENVIRONMENT_COUNT`.
    Count,
    /// `CUPTI_ACTIVITY_ENVIRONMENT_KIND_FORCE_INT`.
    ForceInt,
}

impl ActivityEnvironmentKind {
    /// Numeric value of the variant in the C enum.
    pub open spec fn raw_value(self) -> u32 {
        match self {
            ActivityEnvironmentKind::Unknown => 0,
            ActivityEnvironmentKind::Speed => 1,
            ActivityEnvironmentKind::Temperature => 2,
            ActivityEnvironmentKind::Power => 3,
            ActivityEnvironmentKind::Cooling => 4,
            ActivityEnvironmentKind::Count => 5,
            ActivityEnvironmentKind::ForceInt => 0x7fffffff,
        }
    }

    /// Returns the numeric value of the variant in the C enum.
    pub fn raw(self) -> (r: u32)
        ensures
            r == self.raw_value(),
    {
        match self {
            ActivityEnvironmentKind::Unknown => 0,
            ActivityEnvironmentKind::Speed => 1,
            ActivityEnvironmentKind::Temperature => 2,
            ActivityEnvironmentKind::Power => 3,
            ActivityEnvironmentKind::Cooling => 4,
            ActivityEnvironmentKind::Count => 5,
            ActivityEnvironmentKind::ForceInt => 0x7fffffff,
        }
    }

    /// Decodes a numeric value of the C enum, or `None` for a value it does not define.
    pub fn try_from_raw(value: u32) -> (r: Option<Self>)
        ensures
            match r {
                Some(v) => v.raw_value() == value,
                None => forall|v: Self| v.raw_value() != value,
            },
    {
        match value {
            0 => Some(ActivityEnvironmentKind::Unknown),
            1 => Some(ActivityEnvironmentKind::Speed),
            2 => Some(ActivityEnvironmentKind::Temperature),
            3 => Some(ActivityEnvironmentKind::Power),
            4 => Some(ActivityEnvironmentKind::Cooling),
            5 => Some(ActivityEnvironmentKind::Count),
            0x7fffffff => Some(ActivityEnvironmentKind::ForceInt),
            _ => None,
        }
    }
}

/// Kind of device a PCIe activity record describes.
#[derive(Debug, Clone, Copy, PartialEq, Eq, Hash, Structural)]
#[non_exhaustive]
pub enum PcieDeviceType {
    /// `CUPTI_PCIE_DEVICE_TYPE_GPU`.
    Gpu,
    /// `CUPTI_PCIE_DEVICE_TYPE_BRIDGE`.
    Bridge,
    /// `CUPTI_PCIE_DEVICE_TYPE_FORCE_INT`.
    ForceInt,
}

impl PcieDeviceType {
    /// Numeric value of the variant in the C enum.
    pub open spec fn raw_value(self) -> u32 {
        match self {
            PcieDeviceType::Gpu => 0,
            PcieDeviceType::Bridge => 1,
            PcieDeviceType::ForceInt => 0x7fffffff,
        }
    }

    /// Returns the numeric value of the variant in the C enum.
    pub fn raw(self) -> (r: u32)
        ensures
            r == self.raw_value(),
    {
        match self {
            PcieDeviceType::Gpu => 0,
            PcieDeviceType::Bridge => 1,
            PcieDeviceType::ForceInt => 0x7fffffff,
        }
    }

    /// Decodes a numeric value of the C enum, or `None` for a value it does not define.
    pub fn try_from_raw(value: u32) -> (r: Option<Self>)
        ensures
            match r {
                Some(v) => v.raw_value() == value,
                None => forall|v: Self| v.raw_value() != value,
            },
    {
        match value {
            0 => Some(PcieDeviceType::Gpu),
            1 => Some(PcieDeviceType::Bridge),
            0x7fffffff => Some(PcieDeviceType::ForceInt),
            _ => None,
        }
    }
}

/// Kind of device at one end of an NVLink.
#[derive(Debug, Clone, Copy, PartialEq, Eq, Hash, Structural)]
#[non_exhaustive]
pub enum DeviceType {
    /// `CUPTI_DEV_TYPE_INVALID`.
    Invalid,
    /// `CUPTI_DEV_TYPE_GPU`.
    Gpu,
    /// `CUPTI_DEV_TYPE_NPU`.
    Npu,
    /// `CUPTI_DEV_TYPE_FORCE_INT`.
    ForceInt,
}

impl DeviceType {
    /// Numeric value of the variant in the C enum.
    pub open spec fn raw_value(self) -> u32 {
        match self {
            DeviceType::Invalid => 0,
            DeviceType::Gpu => 1,
            DeviceType::Npu => 2,
            DeviceType::ForceInt => 0x7fffffff,
        }
    }

    /// Returns the numeric value of the variant in the C enum.
    pub fn raw(self) -> (r: u32)
        ensures
            r == self.raw_value(),
    {
        match self {
            DeviceType::Invalid => 0,
            DeviceType::Gpu => 1,
            DeviceType::Npu => 2,
            DeviceType::ForceInt => 0x7fffffff,
        }
    }

    /// Decodes a numeric value of the C enum, or `None` for a value it does not define.
    pub fn try_from_raw(value: u32) -> (r: Option<Self>)
        ensures
            match r {
                Some(v) => v.raw_value() == value,
                None => forall|v: Self| v.raw_value() != value,
            },
    {
        match value {
            0 => Some(DeviceType::Invalid),
            1 => Some(DeviceType::Gpu),
            2 => Some(DeviceType::Npu),
            0x7fffffff => Some(DeviceType::ForceInt),
            _ => None,
        }
    }
}

/// How a device-launched CUDA graph was launched.
#[derive(Debug, Clone, Copy, PartialEq, Eq, Hash, Structural)]
#[non_exhaustive]
pub enum DeviceGraphLaunchMode {
    /// `CUPTI_DEVICE_GRAPH_LAUNCH_MODE_INVALID`.
    Invalid,
    /// `CUPTI_DEVICE_GRAPH_LAUNCH_MODE_FIRE_AND_FORGET`.
    FireAndForget,
    /// `CUPTI_DEVICE_GRAPH_LAUNCH_MODE_TAIL`.
    Tail,
    /// `CUPTI_DEVICE_GRAPH_LAUNCH_MODE_FIRE_AND_FORGET_AS_SIBLING`.
    FireAndForgetAsSibling,
}

impl DeviceGraphLaunchMode {
    /// Numeric value of the variant in the C enum.
    pub open spec fn raw_value(self) -> u32 {
        match self {
            DeviceGraphLaunchMode::Invalid => 0,
            DeviceGraphLaunchMode::FireAndForget => 1,
            DeviceGraphLaunchMode::Tail => 2,
            DeviceGraphLaunchMode::FireAndForgetAsSibling => 3,
        }
    }

    /// Returns the numeric value of the variant in the C enum.
    pub fn raw(self) -> (r: u32)
        ensures
            r == self.raw_value(),
    {
        match self {
            DeviceGraphLaunchMode::Invalid => 0,
            DeviceGraphLaunchMode::FireAndForget => 1,
            DeviceGraphLaunchMode::Tail => 2,
            DeviceGraphLaunchMode::FireAndForgetAsSibling => 3,
        }
    }

    /// Decodes a numeric value of the C enum, or `None` for a value it does not define.
    pub fn try_from_raw(value: u32) -> (r: Option<Self>)
        ensures
            match r {
                Some(v) => v.raw_value() == value,
                None => forall|v: Self| v.raw_value() != value,
            },
    {
        match value {
            0 => Some(DeviceGraphLaunchMode::Invalid),
            1 => Some(DeviceGraphLaunchMode::FireAndForget),
            2 => Some(DeviceGraphLaunchMode::Tail),
            3 => Some(DeviceGraphLaunchMode::FireAndForgetAsSibling),
            _ => None,
        }
    }
}

/// Flags attached to CUPTI activity records.
#[derive(Debug, Clone, Copy, Default, PartialEq, Eq, Hash, Structural)]
pub struct ActivityFlags {
    bits: u32,
}

impl View for ActivityFlags {
    type V = u32;

    closed spec fn view(&self) -> u32 {
        self.bits
    }
}

impl ActivityFlags {
    /// The activity record has no flags.
    pub const NONE: u32 = 0;
    /// The device supports concurrent kernel execution (device records).
    pub const DEVICE_CONCURRENT_KERNELS: u32 = 0x1;
    /// The attribute is a CUDA driver attribute (device attribute records).
    pub const DEVICE_ATTRIBUTE_CUDEVICE: u32 = 0x1;
    /// The marker starts a region.
    pub const MARKER_START: u32 = 0x2;
    /// The marker ends a region.
    pub const MARKER_END: u32 = 0x4;
    /// An attempt to acquire a user defined synchronization object.
    pub const MARKER_SYNC_ACQUIRE: u32 = 0x8;
    /// Success in acquiring a user defined synchronization object.
    pub const MARKER_SYNC_ACQUIRE_SUCCESS: u32 = 0x10;
    /// Failure in acquiring a user defined synchronization object.
    pub const MARKER_SYNC_ACQUIRE_FAILED: u32 = 0x20;
    /// Release of a user defined synchronization object.
    pub const MARKER_SYNC_RELEASE: u32 = 0x40;
    /// Mask of the number of bytes each thread accessed (global access records).
    pub const GLOBAL_ACCESS_KIND_SIZE_MASK: u32 = 0xff;
    /// The global access was a load; otherwise a store.
    pub const GLOBAL_ACCESS_KIND_LOAD: u32 = 0x100;
    /// The global load was cached.
    pub const GLOBAL_ACCESS_KIND_CACHED: u32 = 0x200;
    /// Mask of the instruction class bits (instruction records).
    pub const INSTRUCTION_CLASS_MASK: u32 = 0x1fe;
    /// The flags with exactly the bits of `bits`.
    pub closed spec fn of(bits: u32) -> Self {
        ActivityFlags { bits }
    }

    /// The bits of [`Self::of`] are the bits it was made from.
    pub broadcast proof fn lemma_of_view(bits: u32)
        ensures
            #[trigger] Self::of(bits)@ == bits,
    {
    }

    /// Union of every defined flag bit.
    pub const ALL_BITS: u32 = 0x3ff;

    /// The flags with no bit set.
    pub fn empty() -> (r: Self)
        ensures
            r@ == 0,
    {
        ActivityFlags { bits: 0 }
    }

    /// The flags of `bits`, with every bit that no flag defines dropped.
    pub fn from_bits_truncate(bits: u32) -> (r: Self)
        ensures
            r == Self::of(bits & 0x3ff),
            r@ == bits & 0x3ff,
    {
        ActivityFlags { bits: bits & ActivityFlags::ALL_BITS }
    }

    /// The flags of `bits`, or `None` if `bits` sets a bit that no flag defines.
    pub fn from_bits(bits: u32) -> (r: Option<Self>)
        ensures
            match r {
                Some(f) => f@ == bits && bits & 0x3ff == bits,
                None => bits & 0x3ff != bits,
            },
    {
        if bits & ActivityFlags::ALL_BITS == bits {
            Some(ActivityFlags { bits })
        } else {
            None
        }
    }

    /// Returns the raw flag bits.
    pub fn bits(self) -> (r: u32)
        ensures
            r == self@,
    {
        self.bits
    }

    /// Returns `true` if every bit of `flags` is set.
    pub fn contains(self, flags: u32) -> (r: bool)
        ensures
            r == (self@ & flags == flags),
    {
        self.bits & flags == flags
    }

    /// Returns `true` if no bit is set.
    pub fn is_empty(self) -> (r: bool)
        ensures
            r == (self@ == 0),
    {
        self.bits == 0
    }
}

/// Clock-throttle reason flags reported by CUPTI environment records.
#[derive(Debug, Clone, Copy, Default, PartialEq, Eq, Hash, Structural)]
pub struct EnvironmentClocksThrottleReasons {
    bits: u32,
}

impl View for EnvironmentClocksThrottleReasons {
    type V = u32;

    closed spec fn view(&self) -> u32 {
        self.bits
    }
}

impl EnvironmentClocksThrottleReasons {
    /// No clock throttling.
    pub const NONE: u32 = 0;
    /// Nothing is running on the GPU and the clocks are dropping to idle state.
    pub const GPU_IDLE: u32 = 0x1;
    /// The GPU clocks are limited by a user specified limit.
    pub const USER_DEFINED_CLOCKS: u32 = 0x2;
    /// A software power scaling algorithm is reducing the clocks.
    pub const SOFTWARE_POWER_CAP: u32 = 0x4;
    /// Hardware slowdown by a factor of two or more is engaged.
    pub const HARDWARE_SLOWDOWN: u32 = 0x8;
    /// Some unspecified factor is reducing the clocks.
    pub const UNKNOWN: u32 = 0x80000000;
    /// Throttle reasons are not supported for this GPU.
    pub const UNSUPPORTED: u32 = 0x40000000;
    /// The flags with exactly the bits of `bits`.
    pub closed spec fn of(bits: u32) -> Self {
        EnvironmentClocksThrottleReasons { bits }
    }

    /// The bits of [`Self::of`] are the bits it was made from.
    pub broadcast proof fn lemma_of_view(bits: u32)
        ensures
            #[trigger] Self::of(bits)@ == bits,
    {
    }

    /// Union of every defined flag bit.
    pub const ALL_BITS: u32 = 0xc000000f;

    /// The flags with no bit set.
    pub fn empty() -> (r: Self)
        ensures
            r@ == 0,
    {
        EnvironmentClocksThrottleReasons { bits: 0 }
    }

    /// The flags of `bits`, with every bit that no flag defines dropped.
    pub fn from_bits_truncate(bits: u32) -> (r: Self)
        ensures
            r == Self::of(bits & 0xc000000f),
            r@ == bits & 0xc000000f,
    {
        EnvironmentClocksThrottleReasons { bits: bits & EnvironmentClocksThrottleReasons::ALL_BITS }
    }

    /// The flags of `bits`, or `None` if `bits` sets a bit that no flag defines.
    pub fn from_bits(bits: u32) -> (r: Option<Self>)
        ensures
            match r {
                Some(f) => f@ == bits && bits & 0xc000000f == bits,
                None => bits & 0xc000000f != bits,
            },
    {
        if bits & EnvironmentClocksThrottleReasons::ALL_BITS == bits {
            Some(EnvironmentClocksThrottleReasons { bits })
        } else {
            None
        }
    }

    /// Returns the raw flag bits.
    pub fn bits(self) -> (r: u32)
        ensures
            r == self@,
    {
        self.bits
    }

    /// Returns `true` if every bit of `flags` is set.
    pub fn contains(self, flags: u32) -> (r: bool)
        ensures
            r == (self@ & flags == flags),
    {
        self.bits & flags == flags
    }

    /// Returns `true` if no bit is set.
    pub fn is_empty(self) -> (r: bool)
        ensures
            r == (self@ == 0),
    {
        self.bits == 0
    }
}

/// Capability flags for a topology link.
#[derive(Debug, Clone, Copy, Default, PartialEq, Eq, Hash, Structural)]
pub struct LinkFlags {
    bits: u32,
}

impl View for LinkFlags {
    type V = u32;

    closed spec fn view(&self) -> u32 {
        self.bits
    }
}

impl LinkFlags {
    /// Peer to peer access is supported by the link.
    pub const PEER_ACCESS: u32 = 0x2;
    /// System memory access is supported by the link.
    pub const SYSTEM_MEMORY_ACCESS: u32 = 0x4;
    /// Peer atomic access is supported by the link.
    pub const PEER_ATOMICS: u32 = 0x8;
    /// System memory atomic access is supported by the link.
    pub const SYSTEM_MEMORY_ATOMICS: u32 = 0x10;
    /// The flags with exactly the bits of `bits`.
    pub closed spec fn of(bits: u32) -> Self {
        LinkFlags { bits }
    }

    /// The bits of [`Self::of`] are the bits it was made from.
    pub broadcast proof fn lemma_of_view(bits: u32)
        ensures
            #[trigger] Self::of(bits)@ == bits,
    {
    }

    /// Union of every defined flag bit.
    pub const ALL_BITS: u32 = 0x1e;

    /// The flags with no bit set.
    pub fn empty() -> (r: Self)
        ensures
            r@ == 0,
    {
        LinkFlags { bits: 0 }
    }

    /// The flags of `bits`, with every bit that no flag defines dropped.
    pub fn from_bits_truncate(bits: u32) -> (r: Self)
        ensures
            r == Self::of(bits & 0x1e),
            r@ == bits & 0x1e,
    {
        LinkFlags { bits: bits & LinkFlags::ALL_BITS }
    }

    /// The flags of `bits`, or `None` if `bits` sets a bit that no flag defines.
    pub fn from_bits(bits: u32) -> (r: Option<Self>)
        ensures
            match r {
                Some(f) => f@ == bits && bits & 0x1e == bits,
                None => bits & 0x1e != bits,
            },
    {
        if bits & LinkFlags::ALL_BITS == bits {
            Some(LinkFlags { bits })
        } else {
            None
        }
    }

    /// Returns the raw flag bits.
    pub fn bits(self) -> (r: u32)
        ensures
            r == self@,
    {
        self.bits
    }

    /// Returns `true` if every bit of `flags` is set.
    pub fn contains(self, flags: u32) -> (r: bool)
        ensures
            r == (self@ & flags == flags),
    {
        self.bits & flags == flags
    }

    /// Returns `true` if no bit is set.
    pub fn is_empty(self) -> (r: bool)
        ensures
            r == (self@ == 0),
    {
        self.bits == 0
    }
}

/// Bits of flag sets made with `of`.
pub broadcast group group_flag_views {
    ActivityFlags::lemma_of_view,
    EnvironmentClocksThrottleReasons::lemma_of_view,
    LinkFlags::lemma_of_view,
}

/// Controls whether an activity flush is requested normally or forced.
#[derive(Debug, Clone, Copy, PartialEq, Eq, Hash, Structural)]
#[non_exhaustive]
pub enum ActivityFlushFlag {
    /// Requests the default activity buffer flush behavior.
    Default,
    /// Requests a forced activity buffer flush.
    Forced,
}

/// The CUPTI flag word of a flush request.
pub open spec fn flush_flag_bits(flag: ActivityFlushFlag) -> u32 {
    match flag {
        ActivityFlushFlag::Default => 0,
        ActivityFlushFlag::Forced => 1,
    }
}

impl From<ActivityFlushFlag> for u32 {
    fn from(value: ActivityFlushFlag) -> (r: u32)
        ensures
            r == flush_flag_bits(value),
    {
        match value {
            ActivityFlushFlag::Default => 0,
            ActivityFlushFlag::Forced => 1,
        }
    }
}

impl vstd::std_specs::convert::FromSpecImpl<ActivityFlushFlag> for u32 {
    open spec fn obeys_from_spec() -> bool {
        true
    }

    open spec fn from_spec(v: ActivityFlushFlag) -> u32 {
        flush_flag_bits(v)
    }
}

/// Writable values for supported event group attribute settings.
#[derive(Debug, Clone, Copy, PartialEq, Eq, Hash, Structural)]
#[non_exhaustive]
pub enum EventGroupAttributeSetting {
    /// Whether to profile all instances of the event domain.
    ProfileAllDomainInstances(bool),
}

/// State of CUPTI multiple-subscriber support.
#[derive(Debug, Clone, Copy, PartialEq, Eq, Hash, Structural)]
#[non_exhaustive]
pub enum MultipleSubscriberState {
    /// Multiple subscribers are disabled.
    Disabled,
    /// Multiple subscribers are enabled.
    Enabled,
    /// The state has not been set.
    Unset,
    /// A value CUPTI does not document.
    Unknown(u8),
}

/// The state CUPTI reports with the byte `value`.
pub open spec fn subscriber_state_of(value: u8) -> MultipleSubscriberState {
    match value {
        0 => MultipleSubscriberState::Disabled,
        1 => MultipleSubscriberState::Enabled,
        2 => MultipleSubscriberState::Unset,
        v => MultipleSubscriberState::Unknown(v),
    }
}

/// The byte with which CUPTI encodes `state`.
pub open spec fn subscriber_state_byte(state: MultipleSubscriberState) -> u8 {
    match state {
        MultipleSubscriberState::Disabled => 0,
        MultipleSubscriberState::Enabled => 1,
        MultipleSubscriberState::Unset => 2,
        MultipleSubscriberState::Unknown(v) => v,
    }
}

/// Encoding the state decoded from a byte gives that byte back.
pub proof fn lemma_subscriber_state_byte_round_trip(value: u8)
    ensures
        subscriber_state_byte(subscriber_state_of(value)) == value,
{
}

/// Decoding the byte of a state gives that state back, for every state but an
/// `Unknown` that holds the byte of a known state.
pub proof fn lemma_subscriber_state_round_trip(state: MultipleSubscriberState)
    requires
        !(state matches MultipleSubscriberState::Unknown(v) && v <= 2),
    ensures
        subscriber_state_of(subscriber_state_byte(state)) == state,
{
}

impl From<u8> for MultipleSubscriberState {
    fn from(value: u8) -> (r: Self)
        ensures
            r == subscriber_state_of(value),
    {
        match value {
            0 => MultipleSubscriberState::Disabled,
            1 => MultipleSubscriberState::Enabled,
            2 => MultipleSubscriberState::Unset,
            value => MultipleSubscriberState::Unknown(value),
        }
    }
}

impl vstd::std_specs::convert::FromSpecImpl<u8> for MultipleSubscriberState {
    open spec fn obeys_from_spec() -> bool {
        true
    }

    open spec fn from_spec(v: u8) -> Self {
        subscriber_state_of(v)
    }
}

impl From<MultipleSubscriberState> for u8 {
    fn from(value: MultipleSubscriberState) -> (r: u8)
        ensures
            r == subscriber_state_byte(value),
    {
        match value {
            MultipleSubscriberState::Disabled => 0,
            MultipleSubscriberState::Enabled => 1,
            MultipleSubscriberState::Unset => 2,
            MultipleSubscriberState::Unknown(value) => value,
        }
    }
}

impl vstd::std_specs::convert::FromSpecImpl<MultipleSubscriberState> for u8 {
    open spec fn obeys_from_spec() -> bool {
        true
    }

    open spec fn from_spec(v: MultipleSubscriberState) -> u8 {
        subscriber_state_byte(v)
    }
}

/// Activity field-selection configuration passed to CUPTI activity APIs.
#[derive(Debug, Clone, PartialEq, Eq, Hash)]
pub struct ActivityConfig {
    field_ids: Vec<i32>,
}

impl View for ActivityConfig {
    type V = Seq<i32>;

    closed spec fn view(&self) -> Seq<i32> {
        self.field_ids@
    }
}

impl ActivityConfig {
    /// Creates an activity configuration from selected fields, in the given order.
    pub fn from_fields(field_ids: Vec<ActivityFieldId>) -> (r: Self)
        ensures
            r@.len() == field_ids@.len(),
            forall|i: int| 0 <= i < field_ids@.len() ==> r@[i] == #[trigger] field_ids@[i]@,
    {
        let mut ids: Vec<i32> = Vec::new();
        let mut i: usize = 0;
        while i < field_ids.len()
            invariant
                i <= field_ids@.len(),
                ids@.len() == i,
                forall|j: int| 0 <= j < i ==> ids@[j] == #[trigger] field_ids@[j]@,
            decreases field_ids@.len() - i,
        {
            ids.push(field_ids[i].get());
            i += 1;
        }
        ActivityConfig { field_ids: ids }
    }

    /// Creates an activity configuration that selects all fields.
    pub fn all_fields() -> (r: Self)
        ensures
            r@.len() == 0,
    {
        ActivityConfig { field_ids: Vec::new() }
    }

    /// Returns the selected raw field identifiers; empty selects every field.
    pub fn field_ids(&self) -> (r: &[i32])
        ensures
            r@ == self@,
    {
        self.field_ids.as_slice()
    }
}

/// Automatic boost state record as CUPTI fills it.
#[derive(Debug, Clone, Copy, PartialEq, Eq, Hash, Structural)]
pub struct RawActivityAutoBoostState {
    pub enabled: u32,
    pub pid: u32,
}

/// Automatic boost state reported for a CUDA context.
#[derive(Debug, Clone, Copy, PartialEq, Eq, Hash, Structural)]
pub struct ActivityAutoBoostState {
    /// Whether automatic boost is enabled.
    pub enabled: bool,
    /// Process that requested the automatic boost state.
    pub process_id: ProcessId,
}

impl From<RawActivityAutoBoostState> for ActivityAutoBoostState {
    fn from(value: RawActivityAutoBoostState) -> (r: Self)
        ensures
            r.enabled == (value.enabled != 0),
            r.process_id@ == value.pid,
    {
        ActivityAutoBoostState { enabled: value.enabled != 0, process_id: ProcessId::from(value.pid) }
    }
}

impl vstd::std_specs::convert::FromSpecImpl<RawActivityAutoBoostState> for ActivityAutoBoostState {
    open spec fn obeys_from_spec() -> bool {
        true
    }

    open spec fn from_spec(v: RawActivityAutoBoostState) -> Self {
        ActivityAutoBoostState {
            enabled: v.enabled != 0,
            process_id: ProcessId::of(v.pid as u64),
        }
    }
}

/// Stream flag reported by [`crate::cupti::activity::record::ActivityStream`].
#[derive(Debug, Clone, Copy, PartialEq, Eq, Hash, Structural)]
#[non_exhaustive]
pub enum ActivityStreamFlag {
    /// `CUPTI_ACTIVITY_STREAM_CREATE_FLAG_UNKNOWN`.
    Unknown,
    /// `CUPTI_ACTIVITY_STREAM_CREATE_FLAG_DEFAULT`.
    Default,
    /// `CUPTI_ACTIVITY_STREAM_CREATE_FLAG_NON_BLOCKING`.
    NonBlocking,
    /// `CUPTI_ACTIVITY_STREAM_CREATE_FLAG_NULL`.
    Null,
    /// `CUPTI_ACTIVITY_STREAM_CREATE_MASK`.
    Mask,
    /// `CUPTI_ACTIVITY_STREAM_CREATE_FLAG_FORCE_INT`.
    ForceInt,
}

/// Synchronization operation reported by [`crate::cupti::activity::record::ActivitySynchronization`].
#[derive(Debug, Clone, Copy, PartialEq, Eq, Hash, Structural)]
#[non_exhaustive]
pub enum ActivitySynchronizationType {
    /// `CUPTI_ACTIVITY_SYNCHRONIZATION_TYPE_UNKNOWN`.
    Unknown,
    /// `CUPTI_ACTIVITY_SYNCHRONIZATION_TYPE_EVENT_SYNCHRONIZE`.
    EventSynchronize,
    /// `CUPTI_ACTIVITY_SYNCHRONIZATION_TYPE_STREAM_WAIT_EVENT`.
    StreamWaitEvent,
    /// `CUPTI_ACTIVITY_SYNCHRONIZATION_TYPE_STREAM_SYNCHRONIZE`.
    StreamSynchronize,
    /// `CUPTI_ACTIVITY_SYNCHRONIZATION_TYPE_CONTEXT_SYNCHRONIZE`.
    ContextSynchronize,
    /// `CUPTI_ACTIVITY_SYNCHRONIZATION_TYPE_FORCE_INT`.
    ForceInt,
}

/// Memory pool type reported by [`crate::cupti::activity::record::ActivityMemoryPool`].
#[derive(Debug, Clone, Copy, PartialEq, Eq, Hash, Structural)]
#[non_exhaustive]
pub enum ActivityMemoryPoolType {
    /// `CUPTI_ACTIVITY_MEMORY_POOL_TYPE_INVALID`.
    Invalid,
    /// `CUPTI_ACTIVITY_MEMORY_POOL_TYPE_LOCAL`.
    Local,
    /// `CUPTI_ACTIVITY_MEMORY_POOL_TYPE_IMPORTED`.
    Imported,
    /// `CUPTI_ACTIVITY_MEMORY_POOL_TYPE_FORCE_INT`.
    ForceInt,
}

/// Memory pool operation reported by [`crate::cupti::activity::record::ActivityMemoryPool`].
#[derive(Debug, Clone, Copy, PartialEq, Eq, Hash, Structural)]
#[non_exhaustive]
pub enum ActivityMemoryPoolOperationType {
    /// `CUPTI_ACTIVITY_MEMORY_POOL_OPERATION_TYPE_INVALID`.
    Invalid,
    /// `CUPTI_ACTIVITY_MEMORY_POOL_OPERATION_TYPE_CREATED`.
    Created,
    /// `CUPTI_ACTIVITY_MEMORY_POOL_OPERATION_TYPE_DESTROYED`.
    Destroyed,
    /// `CUPTI_ACTIVITY_MEMORY_POOL_OPERATION_TYPE_TRIMMED`.
    Trimmed,
    /// `CUPTI_ACTIVITY_MEMORY_POOL_OPERATION_TYPE_FORCE_INT`.
    ForceInt,
}

/// Operation type reported by [`crate::cupti::activity::record::ActivityMemory`].
#[derive(Debug, Clone, Copy, PartialEq, Eq, Hash, Structural)]
#[non_exhaustive]
pub enum ActivityMemoryOperationType {
    /// `CUPTI_ACTIVITY_MEMORY_OPERATION_TYPE_INVALID`.
    Invalid,
    /// `CUPTI_ACTIVITY_MEMORY_OPERATION_TYPE_ALLOCATION`.
    Allocation,
    /// `CUPTI_ACTIVITY_MEMORY_OPERATION_TYPE_RELEASE`.
    Release,
    /// `CUPTI_ACTIVITY_MEMORY_OPERATION_TYPE_FORCE_INT`.
    ForceInt,
}

/// Operation reported by a compute-engine context-switch record.
#[derive(Debug, Clone, Copy, PartialEq, Eq, Hash, Structural)]
#[non_exhaustive]
pub enum ComputeEngineContextSwitchOperationType {
    /// `CUPTI_COMPUTE_ENGINE_CTX_SWITCH_OPERATION_INVALID`.
    Invalid,
    /// `CUPTI_COMPUTE_ENGINE_CTX_SWITCH_OPERATION_START`.
    Start,
    /// `CUPTI_COMPUTE_ENGINE_CTX_SWITCH_OPERATION_END`.
    End,
    /// `CUPTI_COMPUTE_ENGINE_CTX_SWITCH_OPERATION_COUNT`.
    Count,
}

/// External correlation namespace used by CUPTI correlation records.
#[derive(Debug, Clone, Copy, PartialEq, Eq, Hash, Structural)]
#[non_exhaustive]
pub enum ExternalCorrelationKind {
    /// `CUPTI_EXTERNAL_CORRELATION_KIND_INVALID`.
    Invalid,
    /// `CUPTI_EXTERNAL_CORRELATION_KIND_UNKNOWN`.
    Unknown,
    /// `CUPTI_EXTERNAL_CORRELATION_KIND_OPENACC`.
    OpenAcc,
    /// `CUPTI_EXTERNAL_CORRELATION_KIND_CUSTOM0`.
    Custom0,
    /// `CUPTI_EXTERNAL_CORRELATION_KIND_CUSTOM1`.
    Custom1,
    /// `CUPTI_EXTERNAL_CORRELATION_KIND_CUSTOM2`.
    Custom2,
    /// `CUPTI_EXTERNAL_CORRELATION_KIND_SIZE`.
    Size,
    /// `CUPTI_EXTERNAL_CORRELATION_KIND_FORCE_INT`.
    ForceInt,
}

/// CUDA-in-Graphics mode associated with a CUDA context.
#[derive(Debug, Clone, Copy, PartialEq, Eq, Hash, Structural)]
#[non_exhaustive]
pub enum ContextCigMode {
    /// `CUPTI_CONTEXT_CIG_MODE_NONE`.
    NoCig,
    /// `CUPTI_CONTEXT_CIG_MODE_CIG`.
    Cig,
    /// `CUPTI_CONTEXT_CIG_MODE_CIG_FALLBACK`.
    CigFallback,
    /// `CUPTI_CONTEXT_CIG_MODE_FORCE_INT`.
    ForceInt,
}

/// Stall reason reported by PC-sampling activity records.
#[derive(Debug, Clone, Copy, PartialEq, Eq, Hash, Structural)]
#[non_exhaustive]
pub enum ActivityPcSamplingStallReason {
    /// `CUPTI_ACTIVITY_PC_SAMPLING_STALL_INVALID`.
    Invalid,
    /// `CUPTI_ACTIVITY_PC_SAMPLING_STALL_NONE`.
    NoStall,
    /// `CUPTI_ACTIVITY_PC_SAMPLING_STALL_INST_FETCH`.
    InstructionFetch,
    /// `CUPTI_ACTIVITY_PC_SAMPLING_STALL_EXEC_DEPENDENCY`.
    ExecutionDependency,
    /// `CUPTI_ACTIVITY_PC_SAMPLING_STALL_MEMORY_DEPENDENCY`.
    MemoryDependency,
    /// `CUPTI_ACTIVITY_PC_SAMPLING_STALL_TEXTURE`.
    Texture,
    /// `CUPTI_ACTIVITY_PC_SAMPLING_STALL_SYNC`.
    Sync,
    /// `CUPTI_ACTIVITY_PC_SAMPLING_STALL_CONSTANT_MEMORY_DEPENDENCY`.
    ConstantMemoryDependency,
    /// `CUPTI_ACTIVITY_PC_SAMPLING_STALL_PIPE_BUSY`.
    PipeBusy,
    /// `CUPTI_ACTIVITY_PC_SAMPLING_STALL_MEMORY_THROTTLE`.
    MemoryThrottle,
    /// `CUPTI_ACTIVITY_PC_SAMPLING_STALL_NOT_SELECTED`.
    NotSelected,
    /// `CUPTI_ACTIVITY_PC_SAMPLING_STALL_OTHER`.
    Other,
    /// `CUPTI_ACTIVITY_PC_SAMPLING_STALL_SLEEPING`.
    Sleeping,
    /// `CUPTI_ACTIVITY_PC_SAMPLING_STALL_FORCE_INT`.
    ForceInt,
}

/// Unified-memory counter kind.
#[derive(Debug, Clone, Copy, PartialEq, Eq, Hash, Structural)]
#[non_exhaustive]
pub enum ActivityUnifiedMemoryCounterKind {
    /// `CUPTI_ACTIVITY_UNIFIED_MEMORY_COUNTER_KIND_UNKNOWN`.
    Unknown,
    /// `CUPTI_ACTIVITY_UNIFIED_MEMORY_COUNTER_KIND_BYTES_TRANSFER_HTOD`.
    BytesTransferHostToDevice,
    /// `CUPTI_ACTIVITY_UNIFIED_MEMORY_COUNTER_KIND_BYTES_TRANSFER_DTOH`.
    BytesTransferDeviceToHost,
    /// `CUPTI_ACTIVITY_UNIFIED_MEMORY_COUNTER_KIND_CPU_PAGE_FAULT_COUNT`.
    CentralProcessingUnitPageFaultCount,
    /// `CUPTI_ACTIVITY_UNIFIED_MEMORY_COUNTER_KIND_GPU_PAGE_FAULT`.
    GpuPageFault,
    /// `CUPTI_ACTIVITY_UNIFIED_MEMORY_COUNTER_KIND_THRASHING`.
    Thrashing,
    /// `CUPTI_ACTIVITY_UNIFIED_MEMORY_COUNTER_KIND_THROTTLING`.
    Throttling,
    /// `CUPTI_ACTIVITY_UNIFIED_MEMORY_COUNTER_KIND_REMOTE_MAP`.
    RemoteMap,
    /// `CUPTI_ACTIVITY_UNIFIED_MEMORY_COUNTER_KIND_BYTES_TRANSFER_DTOD`.
    BytesTransferDeviceToDevice,
    /// `CUPTI_ACTIVITY_UNIFIED_MEMORY_COUNTER_KIND_COUNT`.
    Count,
    /// `CUPTI_ACTIVITY_UNIFIED_MEMORY_COUNTER_KIND_FORCE_INT`.
    ForceInt,
}

/// JIT input/output entry type reported by [`crate::cupti::activity::record::ActivityJit`].
#[derive(Debug, Clone, Copy, PartialEq, Eq, Hash, Structural)]
#[non_exhaustive]
pub enum ActivityJitEntryType {
    /// `CUPTI_ACTIVITY_JIT_ENTRY_INVALID`.
    Invalid,
    /// `CUPTI_ACTIVITY_JIT_ENTRY_PTX_TO_CUBIN`.
    ParallelThreadExecutionToCudaBinary,
    /// `CUPTI_ACTIVITY_JIT_ENTRY_NVVM_IR_TO_PTX`.
    NvidiaVirtualMachineIntermediateRepresentationToParallelThreadExecution,
    /// `CUPTI_ACTIVITY_JIT_ENTRY_TYPE_FORCE_INT`.
    ForceInt,
}

/// JIT operation type reported by [`crate::cupti::activity::record::ActivityJit`].
#[derive(Debug, Clone, Copy, PartialEq, Eq, Hash, Structural)]
#[non_exhaustive]
pub enum ActivityJitOperationType {
    /// `CUPTI_ACTIVITY_JIT_OPERATION_INVALID`.
    Invalid,
    /// `CUPTI_ACTIVITY_JIT_OPERATION_CACHE_LOAD`.
    CacheLoad,
    /// `CUPTI_ACTIVITY_JIT_OPERATION_CACHE_STORE`.
    CacheStore,
    /// `CUPTI_ACTIVITY_JIT_OPERATION_COMPILE`.
    Compile,
    /// `CUPTI_ACTIVITY_JIT_OPERATION_TYPE_FORCE_INT`.
    ForceInt,
}

/// OpenMP event kind reported by OpenMP activity records.
#[derive(Debug, Clone, Copy, PartialEq, Eq, Hash, Structural)]
#[non_exhaustive]
pub enum OpenMultiProcessingEventKind {
    /// `CUPTI_OPENMP_EVENT_KIND_INVALID`.
    Invalid,
    /// `CUPTI_OPENMP_EVENT_KIND_PARALLEL`.
    Parallel,
    /// `CUPTI_OPENMP_EVENT_KIND_TASK`.
    Task,
    /// `CUPTI_OPENMP_EVENT_KIND_THREAD`.
    Thread,
    /// `CUPTI_OPENMP_EVENT_KIND_IDLE`.
    Idle,
    /// `CUPTI_OPENMP_EVENT_KIND_WAIT_BARRIER`.
    WaitBarrier,
    /// `CUPTI_OPENMP_EVENT_KIND_WAIT_TASKWAIT`.
    WaitTaskwait,
    /// `CUPTI_OPENMP_EVENT_KIND_FORCE_INT`.
    ForceInt,
}

/// OpenACC event kind reported by OpenACC activity records.
#[derive(Debug, Clone, Copy, PartialEq, Eq, Hash, Structural)]
#[non_exhaustive]
pub enum OpenAccEventKind {
    /// `CUPTI_OPENACC_EVENT_KIND_INVALID`.
    Invalid,
    /// `CUPTI_OPENACC_EVENT_KIND_DEVICE_INIT`.
    DeviceInit,
    /// `CUPTI_OPENACC_EVENT_KIND_DEVICE_SHUTDOWN`.
    DeviceShutdown,
    /// `CUPTI_OPENACC_EVENT_KIND_RUNTIME_SHUTDOWN`.
    RuntimeShutdown,
    /// `CUPTI_OPENACC_EVENT_KIND_ENQUEUE_LAUNCH`.
    EnqueueLaunch,
    /// `CUPTI_OPENACC_EVENT_KIND_ENQUEUE_UPLOAD`.
    EnqueueUpload,
    /// `CUPTI_OPENACC_EVENT_KIND_ENQUEUE_DOWNLOAD`.
    EnqueueDownload,
    /// `CUPTI_OPENACC_EVENT_KIND_WAIT`.
    Wait,
    /// `CUPTI_OPENACC_EVENT_KIND_IMPLICIT_WAIT`.
    ImplicitWait,
    /// `CUPTI_OPENACC_EVENT_KIND_COMPUTE_CONSTRUCT`.
    ComputeConstruct,
    /// `CUPTI_OPENACC_EVENT_KIND_UPDATE`.
    Update,
    /// `CUPTI_OPENACC_EVENT_KIND_ENTER_DATA`.
    EnterData,
    /// `CUPTI_OPENACC_EVENT_KIND_EXIT_DATA`.
    ExitData,
    /// `CUPTI_OPENACC_EVENT_KIND_CREATE`.
    Create,
    /// `CUPTI_OPENACC_EVENT_KIND_DELETE`.
    Delete,
    /// `CUPTI_OPENACC_EVENT_KIND_ALLOC`.
    Alloc,
    /// `CUPTI_OPENACC_EVENT_KIND_FREE`.
    Free,
    /// `CUPTI_OPENACC_EVENT_KIND_FORCE_INT`.
    ForceInt,
}

/// OpenACC construct kind reported by OpenACC activity records.
#[derive(Debug, Clone, Copy, PartialEq, Eq, Hash, Structural)]
#[non_exhaustive]
pub enum OpenAccConstructKind {
    /// `CUPTI_OPENACC_CONSTRUCT_KIND_UNKNOWN`.
    Unknown,
    /// `CUPTI_OPENACC_CONSTRUCT_KIND_PARALLEL`.
    Parallel,
    /// `CUPTI_OPENACC_CONSTRUCT_KIND_KERNELS`.
    Kernels,
    /// `CUPTI_OPENACC_CONSTRUCT_KIND_LOOP`.
    Loop,
    /// `CUPTI_OPENACC_CONSTRUCT_KIND_DATA`.
    Data,
    /// `CUPTI_OPENACC_CONSTRUCT_KIND_ENTER_DATA`.
    EnterData,
    /// `CUPTI_OPENACC_CONSTRUCT_KIND_EXIT_DATA`.
    ExitData,
    /// `CUPTI_OPENACC_CONSTRUCT_KIND_HOST_DATA`.
    HostData,
    /// `CUPTI_OPENACC_CONSTRUCT_KIND_ATOMIC`.
    Atomic,
    /// `CUPTI_OPENACC_CONSTRUCT_KIND_DECLARE`.
    Declare,
    /// `CUPTI_OPENACC_CONSTRUCT_KIND_INIT`.
    Init,
    /// `CUPTI_OPENACC_CONSTRUCT_KIND_SHUTDOWN`.
    Shutdown,
    /// `CUPTI_OPENACC_CONSTRUCT_KIND_SET`.
    SetDefaults,
    /// `CUPTI_OPENACC_CONSTRUCT_KIND_UPDATE`.
    Update,
    /// `CUPTI_OPENACC_CONSTRUCT_KIND_ROUTINE`.
    Routine,
    /// `CUPTI_OPENACC_CONSTRUCT_KIND_WAIT`.
    Wait,
    /// `CUPTI_OPENACC_CONSTRUCT_KIND_RUNTIME_API`.
    RuntimeApi,
    /// `CUPTI_OPENACC_CONSTRUCT_KIND_FORCE_INT`.
    ForceInt,
}

/// Preemption activity kind.
#[derive(Debug, Clone, Copy, PartialEq, Eq, Hash, Structural)]
#[non_exhaustive]
pub enum ActivityPreemptionKind {
    /// `CUPTI_ACTIVITY_PREEMPTION_KIND_UNKNOWN`.
    Unknown,
    /// `CUPTI_ACTIVITY_PREEMPTION_KIND_SAVE`.
    Save,
    /// `CUPTI_ACTIVITY_PREEMPTION_KIND_RESTORE`.
    Restore,
    /// `CUPTI_ACTIVITY_PREEMPTION_KIND_FORCE_INT`.
    ForceInt,
}

/// Confidential-compute key-rotation event type.
#[derive(Debug, Clone, Copy, PartialEq, Eq, Hash, Structural)]
#[non_exhaustive]
pub enum ConfidentialComputeRotationEventType {
    /// `CUPTI_CONFIDENTIAL_COMPUTE_INVALID_ROTATION_EVENT`.
    Invalid,
    /// `CUPTI_CONFIDENTIAL_COMPUTE_KEY_ROTATION_CHANNEL_BLOCKED`.
    ChannelBlocked,
    /// `CUPTI_CONFIDENTIAL_COMPUTE_KEY_ROTATION_CHANNEL_DRAINED`.
    ChannelDrained,
    /// `CUPTI_CONFIDENTIAL_COMPUTE_KEY_ROTATION_CHANNEL_UNBLOCKED`.
    ChannelUnblocked,
    /// `CUPTI_CONFIDENTIAL_COMPUTE_EVENT_TYPE_FORCE_INT`.
    ForceInt,
}

/// CUPTI channel type reported by activity records.
#[derive(Debug, Clone, Copy, PartialEq, Eq, Hash, Structural)]
#[non_exhaustive]
pub enum ChannelType {
    /// `CUPTI_CHANNEL_TYPE_INVALID`.
    Invalid,
    /// `CUPTI_CHANNEL_TYPE_COMPUTE`.
    Compute,
    /// `CUPTI_CHANNEL_TYPE_ASYNC_MEMCPY`.
    AsynchronousMemoryCopy,
    /// `CUPTI_CHANNEL_TYPE_DECOMP`.
    Decompress,
    /// `CUPTI_CHANNEL_TYPE_FORCE_INT`.
    ForceInt,
}

/// Kind of CUPTI overhead reported by [`crate::cupti::activity::record::ActivityOverhead`].
#[derive(Debug, Clone, Copy, PartialEq, Eq, Hash, Structural)]
#[non_exhaustive]
pub enum ActivityOverheadKind {
    /// `CUPTI_ACTIVITY_OVERHEAD_UNKNOWN`.
    Unknown,
    /// `CUPTI_ACTIVITY_OVERHEAD_DRIVER_COMPILER`.
    DriverCompiler,
    /// `CUPTI_ACTIVITY_OVERHEAD_CUPTI_BUFFER_FLUSH`.
    BufferFlush,
    /// `CUPTI_ACTIVITY_OVERHEAD_CUPTI_INSTRUMENTATION`.
    Instrumentation,
    /// `CUPTI_ACTIVITY_OVERHEAD_CUPTI_RESOURCE`.
    Resource,
    /// `CUPTI_ACTIVITY_OVERHEAD_RUNTIME_TRIGGERED_MODULE_LOADING`.
    RuntimeTriggeredModuleLoading,
    /// `CUPTI_ACTIVITY_OVERHEAD_LAZY_FUNCTION_LOADING`.
    LazyFunctionLoading,
    /// `CUPTI_ACTIVITY_OVERHEAD_COMMAND_BUFFER_FULL`.
    CommandBufferFull,
    /// `CUPTI_ACTIVITY_OVERHEAD_ACTIVITY_BUFFER_REQUEST`.
    ActivityBufferRequest,
    /// `CUPTI_ACTIVITY_OVERHEAD_UVM_ACTIVITY_INIT`.
    UvmActivityInit,
    /// `CUPTI_ACTIVITY_OVERHEAD_FORCE_INT`.
    ForceInt,
}

/// Partitioned global cache configuration reported by kernel activity records.
#[derive(Debug, Clone, Copy, PartialEq, Eq, Hash, Structural)]
#[non_exhaustive]
pub enum ActivityPartitionedGlobalCacheConfig {
    /// `CUPTI_ACTIVITY_PARTITIONED_GLOBAL_CACHE_CONFIG_UNKNOWN`.
    Unknown,
    /// `CUPTI_ACTIVITY_PARTITIONED_GLOBAL_CACHE_CONFIG_NOT_SUPPORTED`.
    NotSupported,
    /// `CUPTI_ACTIVITY_PARTITIONED_GLOBAL_CACHE_CONFIG_OFF`.
    Off,
    /// `CUPTI_ACTIVITY_PARTITIONED_GLOBAL_CACHE_CONFIG_ON`.
    On,
    /// `CUPTI_ACTIVITY_PARTITIONED_GLOBAL_CACHE_CONFIG_FORCE_INT`.
    ForceInt,
}

/// Shared-memory limit configuration for occupancy-related kernel metadata.
#[derive(Debug, Clone, Copy, PartialEq, Eq, Hash, Structural)]
#[non_exhaustive]
pub enum FunctionSharedMemoryLimitConfig {
    /// `CUPTI_FUNC_SHMEM_LIMIT_DEFAULT`.
    Default,
    /// `CUPTI_FUNC_SHMEM_LIMIT_OPTIN`.
    OptIn,
    /// `CUPTI_FUNC_SHMEM_LIMIT_FORCE_INT`.
    ForceInt,
}

impl ActivityPartitionedGlobalCacheConfig {
    /// Numeric value of the variant in the C enum.
    pub open spec fn raw_value(self) -> u32 {
        match self {
            ActivityPartitionedGlobalCacheConfig::Unknown => 0,
            ActivityPartitionedGlobalCacheConfig::NotSupported => 1,
            ActivityPartitionedGlobalCacheConfig::Off => 2,
            ActivityPartitionedGlobalCacheConfig::On => 3,
            ActivityPartitionedGlobalCacheConfig::ForceInt => 0x7fffffff,
        }
    }

    /// Returns the numeric value of the variant in the C enum.
    pub fn raw(self) -> (r: u32)
        ensures
            r == self.raw_value(),
    {
        match self {
            ActivityPartitionedGlobalCacheConfig::Unknown => 0,
            ActivityPartitionedGlobalCacheConfig::NotSupported => 1,
            ActivityPartitionedGlobalCacheConfig::Off => 2,
            ActivityPartitionedGlobalCacheConfig::On => 3,
            ActivityPartitionedGlobalCacheConfig::ForceInt => 0x7fffffff,
        }
    }

    /// Decodes a numeric value of the C enum, or `None` for a value it does not define.
    pub fn try_from_raw(value: u32) -> (r: Option<Self>)
        ensures
            match r {
                Some(v) => v.raw_value() == value,
                None => forall|v: Self| v.raw_value() != value,
            },
    {
        match value {
            0 => Some(ActivityPartitionedGlobalCacheConfig::Unknown),
            1 => Some(ActivityPartitionedGlobalCacheConfig::NotSupported),
            2 => Some(ActivityPartitionedGlobalCacheConfig::Off),
            3 => Some(ActivityPartitionedGlobalCacheConfig::On),
            0x7fffffff => Some(ActivityPartitionedGlobalCacheConfig::ForceInt),
            _ => None,
        }
    }
}

impl FunctionSharedMemoryLimitConfig {
    /// Numeric value of the variant in the C enum.
    pub open spec fn raw_value(self) -> u32 {
        match self {
            FunctionSharedMemoryLimitConfig::Default => 0,
            FunctionSharedMemoryLimitConfig::OptIn => 1,
            FunctionSharedMemoryLimitConfig::ForceInt => 0x7fffffff,
        }
    }

    /// Returns the numeric value of the variant in the C enum.
    pub fn raw(self) -> (r: u32)
        ensures
            r == self.raw_value(),
    {
        match self {
            FunctionSharedMemoryLimitConfig::Default => 0,
            FunctionSharedMemoryLimitConfig::OptIn => 1,
            FunctionSharedMemoryLimitConfig::ForceInt => 0x7fffffff,
        }
    }

    /// Decodes a numeric value of the C enum, or `None` for a value it does not define.
    pub fn try_from_raw(value: u32) -> (r: Option<Self>)
        ensures
            match r {
                Some(v) => v.raw_value() == value,
                None => forall|v: Self| v.raw_value() != value,
            },
    {
        match value {
            0 => Some(FunctionSharedMemoryLimitConfig::Default),
            1 => Some(FunctionSharedMemoryLimitConfig::OptIn),
            0x7fffffff => Some(FunctionSharedMemoryLimitConfig::ForceInt),
            _ => None,
        }
    }
}

/// Storage kind of a CUPTI metric value.
#[derive(Debug, Clone, Copy, PartialEq, Eq, Hash, Structural)]
#[non_exhaustive]
pub enum MetricValueKind {
    /// `CUPTI_METRIC_VALUE_KIND_DOUBLE`.
    Double,
    /// `CUPTI_METRIC_VALUE_KIND_UINT64`.
    Uint64,
    /// `CUPTI_METRIC_VALUE_KIND_PERCENT`.
    Percent,
    /// `CUPTI_METRIC_VALUE_KIND_THROUGHPUT`.
    Throughput,
    /// `CUPTI_METRIC_VALUE_KIND_INT64`.
    Int64,
    /// `CUPTI_METRIC_VALUE_KIND_UTILIZATION_LEVEL`.
    UtilizationLevel,
    /// `CUPTI_METRIC_VALUE_KIND_NVTX_EXTENDED_PAYLOAD`.
    NvtxExtendedPayload,
    /// `CUPTI_METRIC_VALUE_KIND_FORCE_INT`.
    ForceInt,
}

/// Device attributes readable through [`crate::cupti::event::get_device_attribute_value`].
#[derive(Debug, Clone, Copy, PartialEq, Eq, Hash, Structural)]
#[non_exhaustive]
pub enum DeviceAttribute {
    /// `CUPTI_DEVICE_ATTR_MAX_EVENT_ID`.
    MaxEventId,
    /// `CUPTI_DEVICE_ATTR_MAX_EVENT_DOMAIN_ID`.
    MaxEventDomainId,
    /// `CUPTI_DEVICE_ATTR_GLOBAL_MEMORY_BANDWIDTH`.
    GlobalMemoryBandwidth,
    /// `CUPTI_DEVICE_ATTR_INSTRUCTION_PER_CYCLE`.
    InstructionPerCycle,
    /// `CUPTI_DEVICE_ATTR_INSTRUCTION_THROUGHPUT_SINGLE_PRECISION`.
    InstructionThroughputSp,
    /// `CUPTI_DEVICE_ATTR_MAX_FRAME_BUFFERS`.
    MaxFrameBuffers,
    /// `CUPTI_DEVICE_ATTR_PCIE_LINK_RATE`.
    PcieLinkRate,
    /// `CUPTI_DEVICE_ATTR_PCIE_LINK_WIDTH`.
    PcieLinkWidth,
    /// `CUPTI_DEVICE_ATTR_PCIE_GEN`.
    PcieGeneration,
    /// `CUPTI_DEVICE_ATTR_DEVICE_CLASS`.
    DeviceClass,
    /// `CUPTI_DEVICE_ATTR_FLOP_SP_PER_CYCLE`.
    FlopSpPerCycle,
    /// `CUPTI_DEVICE_ATTR_FLOP_DP_PER_CYCLE`.
    FlopDpPerCycle,
    /// `CUPTI_DEVICE_ATTR_MAX_L2_UNITS`.
    MaxL2Units,
    /// `CUPTI_DEVICE_ATTR_MAX_SHARED_MEMORY_CACHE_CONFIG_PREFER_SHARED`.
    MaxSharedMemoryCacheConfigPreferShared,
    /// `CUPTI_DEVICE_ATTR_MAX_SHARED_MEMORY_CACHE_CONFIG_PREFER_L1`.
    MaxSharedMemoryCacheConfigPreferL1,
    /// `CUPTI_DEVICE_ATTR_MAX_SHARED_MEMORY_CACHE_CONFIG_PREFER_EQUAL`.
    MaxSharedMemoryCacheConfigPreferEqual,
    /// `CUPTI_DEVICE_ATTR_FLOP_HP_PER_CYCLE`.
    FlopHpPerCycle,
    /// `CUPTI_DEVICE_ATTR_NVLINK_PRESENT`.
    NvLinkPresent,
    /// `CUPTI_DEVICE_ATTR_GPU_CPU_NVLINK_BW`.
    GpuCentralProcessingUnitNvLinkBandwidth,
    /// `CUPTI_DEVICE_ATTR_NVSWITCH_PRESENT`.
    NvSwitchPresent,
    /// `CUPTI_DEVICE_ATTR_FORCE_INT`.
    ForceInt,
}

impl DeviceAttribute {
    /// The variant's name, as `Debug` prints it.
    pub open spec fn variant_name(self) -> &'static str {
        match self {
            DeviceAttribute::MaxEventId => "MaxEventId",
            DeviceAttribute::MaxEventDomainId => "MaxEventDomainId",
            DeviceAttribute::GlobalMemoryBandwidth => "GlobalMemoryBandwidth",
            DeviceAttribute::InstructionPerCycle => "InstructionPerCycle",
            DeviceAttribute::InstructionThroughputSp => "InstructionThroughputSp",
            DeviceAttribute::MaxFrameBuffers => "MaxFrameBuffers",
            DeviceAttribute::PcieLinkRate => "PcieLinkRate",
            DeviceAttribute::PcieLinkWidth => "PcieLinkWidth",
            DeviceAttribute::PcieGeneration => "PcieGeneration",
            DeviceAttribute::DeviceClass => "DeviceClass",
            DeviceAttribute::FlopSpPerCycle => "FlopSpPerCycle",
            DeviceAttribute::FlopDpPerCycle => "FlopDpPerCycle",
            DeviceAttribute::MaxL2Units => "MaxL2Units",
            DeviceAttribute::MaxSharedMemoryCacheConfigPreferShared => "MaxSharedMemoryCacheConfigPreferShared",
            DeviceAttribute::MaxSharedMemoryCacheConfigPreferL1 => "MaxSharedMemoryCacheConfigPreferL1",
            DeviceAttribute::MaxSharedMemoryCacheConfigPreferEqual => "MaxSharedMemoryCacheConfigPreferEqual",
            DeviceAttribute::FlopHpPerCycle => "FlopHpPerCycle",
            DeviceAttribute::NvLinkPresent => "NvLinkPresent",
            DeviceAttribute::GpuCentralProcessingUnitNvLinkBandwidth => "GpuCentralProcessingUnitNvLinkBandwidth",
            DeviceAttribute::NvSwitchPresent => "NvSwitchPresent",
            DeviceAttribute::ForceInt => "ForceInt",
        }
    }

    /// Returns the variant's name, as `Debug` prints it.
    pub fn name(self) -> (r: &'static str)
        ensures
            r == self.variant_name(),
    {
        match self {
            DeviceAttribute::MaxEventId => "MaxEventId",
            DeviceAttribute::MaxEventDomainId => "MaxEventDomainId",
            DeviceAttribute::GlobalMemoryBandwidth => "GlobalMemoryBandwidth",
            DeviceAttribute::InstructionPerCycle => "InstructionPerCycle",
            DeviceAttribute::InstructionThroughputSp => "InstructionThroughputSp",
            DeviceAttribute::MaxFrameBuffers => "MaxFrameBuffers",
            DeviceAttribute::PcieLinkRate => "PcieLinkRate",
            DeviceAttribute::PcieLinkWidth => "PcieLinkWidth",
            DeviceAttribute::PcieGeneration => "PcieGeneration",
            DeviceAttribute::DeviceClass => "DeviceClass",
            DeviceAttribute::FlopSpPerCycle => "FlopSpPerCycle",
            DeviceAttribute::FlopDpPerCycle => "FlopDpPerCycle",
            DeviceAttribute::MaxL2Units => "MaxL2Units",
            DeviceAttribute::MaxSharedMemoryCacheConfigPreferShared => "MaxSharedMemoryCacheConfigPreferShared",
            DeviceAttribute::MaxSharedMemoryCacheConfigPreferL1 => "MaxSharedMemoryCacheConfigPreferL1",
            DeviceAttribute::MaxSharedMemoryCacheConfigPreferEqual => "MaxSharedMemoryCacheConfigPreferEqual",
            DeviceAttribute::FlopHpPerCycle => "FlopHpPerCycle",
            DeviceAttribute::NvLinkPresent => "NvLinkPresent",
            DeviceAttribute::GpuCentralProcessingUnitNvLinkBandwidth => "GpuCentralProcessingUnitNvLinkBandwidth",
            DeviceAttribute::NvSwitchPresent => "NvSwitchPresent",
            DeviceAttribute::ForceInt => "ForceInt",
        }
    }
}

/// Source and destination kind for an activity memory-copy record.
#[derive(Debug, Clone, Copy, PartialEq, Eq, Hash, Structural)]
#[non_exhaustive]
pub enum ActivityMemoryCopyKind {
    /// `CUPTI_ACTIVITY_MEMCPY_KIND_UNKNOWN`.
    Unknown,
    /// `CUPTI_ACTIVITY_MEMCPY_KIND_HTOD`.
    HostToDevice,
    /// `CUPTI_ACTIVITY_MEMCPY_KIND_DTOH`.
    DeviceToHost,
    /// `CUPTI_ACTIVITY_MEMCPY_KIND_HTOA`.
    HostToArray,
    /// `CUPTI_ACTIVITY_MEMCPY_KIND_ATOH`.
    ArrayToHost,
    /// `CUPTI_ACTIVITY_MEMCPY_KIND_ATOA`.
    ArrayToArray,
    /// `CUPTI_ACTIVITY_MEMCPY_KIND_ATOD`.
    ArrayToDevice,
    /// `CUPTI_ACTIVITY_MEMCPY_KIND_DTOA`.
    DeviceToArray,
    /// `CUPTI_ACTIVITY_MEMCPY_KIND_DTOD`.
    DeviceToDevice,
    /// `CUPTI_ACTIVITY_MEMCPY_KIND_HTOH`.
    HostToHost,
    /// `CUPTI_ACTIVITY_MEMCPY_KIND_PTOP`.
    PeerToPeer,
    /// `CUPTI_ACTIVITY_MEMCPY_KIND_FORCE_INT`.
    ForceInt,
}

impl ActivityMemoryCopyKind {
    /// Numeric value of the variant in the C enum.
    pub open spec fn raw_value(self) -> u32 {
        match self {
            ActivityMemoryCopyKind::Unknown => 0,
            ActivityMemoryCopyKind::HostToDevice => 1,
            ActivityMemoryCopyKind::DeviceToHost => 2,
            ActivityMemoryCopyKind::HostToArray => 3,
            ActivityMemoryCopyKind::ArrayToHost => 4,
            ActivityMemoryCopyKind::ArrayToArray => 5,
            ActivityMemoryCopyKind::ArrayToDevice => 6,
            ActivityMemoryCopyKind::DeviceToArray => 7,
            ActivityMemoryCopyKind::DeviceToDevice => 8,
            ActivityMemoryCopyKind::HostToHost => 9,
            ActivityMemoryCopyKind::PeerToPeer => 10,
            ActivityMemoryCopyKind::ForceInt => 0x7fffffff,
        }
    }

    /// Returns the numeric value of the variant in the C enum.
    pub fn raw(self) -> (r: u32)
        ensures
            r == self.raw_value(),
    {
        match self {
            ActivityMemoryCopyKind::Unknown => 0,
            ActivityMemoryCopyKind::HostToDevice => 1,
            ActivityMemoryCopyKind::DeviceToHost => 2,
            ActivityMemoryCopyKind::HostToArray => 3,
            ActivityMemoryCopyKind::ArrayToHost => 4,
            ActivityMemoryCopyKind::ArrayToArray => 5,
            ActivityMemoryCopyKind::ArrayToDevice => 6,
            ActivityMemoryCopyKind::DeviceToArray => 7,
            ActivityMemoryCopyKind::DeviceToDevice => 8,
            ActivityMemoryCopyKind::HostToHost => 9,
            ActivityMemoryCopyKind::PeerToPeer => 10,
            ActivityMemoryCopyKind::ForceInt => 0x7fffffff,
        }
    }

    /// Decodes a numeric value of the C enum, or `None` for a value it does not define.
    pub fn try_from_raw(value: u32) -> (r: Option<Self>)
        ensures
            match r {
                Some(v) => v.raw_value() == value,
                None => forall|v: Self| v.raw_value() != value,
            },
    {
        match value {
            0 => Some(ActivityMemoryCopyKind::Unknown),
            1 => Some(ActivityMemoryCopyKind::HostToDevice),
            2 => Some(ActivityMemoryCopyKind::DeviceToHost),
            3 => Some(ActivityMemoryCopyKind::HostToArray),
            4 => Some(ActivityMemoryCopyKind::ArrayToHost),
            5 => Some(ActivityMemoryCopyKind::ArrayToArray),
            6 => Some(ActivityMemoryCopyKind::ArrayToDevice),
            7 => Some(ActivityMemoryCopyKind::DeviceToArray),
            8 => Some(ActivityMemoryCopyKind::DeviceToDevice),
            9 => Some(ActivityMemoryCopyKind::HostToHost),
            10 => Some(ActivityMemoryCopyKind::PeerToPeer),
            0x7fffffff => Some(ActivityMemoryCopyKind::ForceInt),
            _ => None,
        }
    }
}

/// Memory kind reported by activity memory records.
#[derive(Debug, Clone, Copy, PartialEq, Eq, Hash, Structural)]
#[non_exhaustive]
pub enum ActivityMemoryKind {
    /// `CUPTI_ACTIVITY_MEMORY_KIND_UNKNOWN`.
    Unknown,
    /// `CUPTI_ACTIVITY_MEMORY_KIND_PAGEABLE`.
    Pageable,
    /// `CUPTI_ACTIVITY_MEMORY_KIND_PINNED`.
    Pinned,
    /// `CUPTI_ACTIVITY_MEMORY_KIND_DEVICE`.
    Device,
    /// `CUPTI_ACTIVITY_MEMORY_KIND_ARRAY`.
    Array,
    /// `CUPTI_ACTIVITY_MEMORY_KIND_MANAGED`.
    Managed,
    /// `CUPTI_ACTIVITY_MEMORY_KIND_DEVICE_STATIC`.
    DeviceStatic,
    /// `CUPTI_ACTIVITY_MEMORY_KIND_MANAGED_STATIC`.
    ManagedStatic,
    /// `CUPTI_ACTIVITY_MEMORY_KIND_FORCE_INT`.
    ForceInt,
}

impl ActivityMemoryKind {
    /// Numeric value of the variant in the C enum.
    pub open spec fn raw_value(self) -> u32 {
        match self {
            ActivityMemoryKind::Unknown => 0,
            ActivityMemoryKind::Pageable => 1,
            ActivityMemoryKind::Pinned => 2,
            ActivityMemoryKind::Device => 3,
            ActivityMemoryKind::Array => 4,
            ActivityMemoryKind::Managed => 5,
            ActivityMemoryKind::DeviceStatic => 6,
            ActivityMemoryKind::ManagedStatic => 7,
            ActivityMemoryKind::ForceInt => 0x7fffffff,
        }
    }

    /// Returns the numeric value of the variant in the C enum.
    pub fn raw(self) -> (r: u32)
        ensures
            r == self.raw_value(),
    {
        match self {
            ActivityMemoryKind::Unknown => 0,
            ActivityMemoryKind::Pageable => 1,
            ActivityMemoryKind::Pinned => 2,
            ActivityMemoryKind::Device => 3,
            ActivityMemoryKind::Array => 4,
            ActivityMemoryKind::Managed => 5,
            ActivityMemoryKind::DeviceStatic => 6,
            ActivityMemoryKind::ManagedStatic => 7,
            ActivityMemoryKind::ForceInt => 0x7fffffff,
        }
    }

    /// Decodes a numeric value of the C enum, or `None` for a value it does not define.
    pub fn try_from_raw(value: u32) -> (r: Option<Self>)
        ensures
            match r {
                Some(v) => v.raw_value() == value,
                None => forall|v: Self| v.raw_value() != value,
            },
    {
        match value {
            0 => Some(ActivityMemoryKind::Unknown),
            1 => Some(ActivityMemoryKind::Pageable),
            2 => Some(ActivityMemoryKind::Pinned),
            3 => Some(ActivityMemoryKind::Device),
            4 => Some(ActivityMemoryKind::Array),
            5 => Some(ActivityMemoryKind::Managed),
            6 => Some(ActivityMemoryKind::DeviceStatic),
            7 => Some(ActivityMemoryKind::ManagedStatic),
            0x7fffffff => Some(ActivityMemoryKind::ForceInt),
            _ => None,
        }
    }
}

/// CUDA kernel launch type reported by kernel activity records.
#[derive(Debug, Clone, Copy, PartialEq, Eq, Hash, Structural)]
#[non_exhaustive]
pub enum ActivityLaunchType {
    /// `CUPTI_ACTIVITY_LAUNCH_TYPE_REGULAR`.
    Regular,
    /// `CUPTI_ACTIVITY_LAUNCH_TYPE_COOPERATIVE_SINGLE_DEVICE`.
    CooperativeSingleDevice,
    /// `CUPTI_ACTIVITY_LAUNCH_TYPE_COOPERATIVE_MULTI_DEVICE`.
    CooperativeMultiDevice,
    /// `CUPTI_ACTIVITY_LAUNCH_TYPE_CBL_COMMANDLIST`.
    CblCommandlist,
}

impl ActivityLaunchType {
    /// Numeric value of the variant in the C enum.
    pub open spec fn raw_value(self) -> u32 {
        match self {
            ActivityLaunchType::Regular => 0,
            ActivityLaunchType::CooperativeSingleDevice => 1,
            ActivityLaunchType::CooperativeMultiDevice => 2,
            ActivityLaunchType::CblCommandlist => 3,
        }
    }

    /// Returns the numeric value of the variant in the C enum.
    pub fn raw(self) -> (r: u32)
        ensures
            r == self.raw_value(),
    {
        match self {
            ActivityLaunchType::Regular => 0,
            ActivityLaunchType::CooperativeSingleDevice => 1,
            ActivityLaunchType::CooperativeMultiDevice => 2,
            ActivityLaunchType::CblCommandlist => 3,
        }
    }

    /// Decodes a numeric value of the C enum, or `None` for a value it does not define.
    pub fn try_from_raw(value: u32) -> (r: Option<Self>)
        ensures
            match r {
                Some(v) => v.raw_value() == value,
                None => forall|v: Self| v.raw_value() != value,
            },
    {
        match value {
            0 => Some(ActivityLaunchType::Regular),
            1 => Some(ActivityLaunchType::CooperativeSingleDevice),
            2 => Some(ActivityLaunchType::CooperativeMultiDevice),
            3 => Some(ActivityLaunchType::CblCommandlist),
            _ => None,
        }
    }
}

/// Compute API family reported by activity records.
#[derive(Debug, Clone, Copy, PartialEq, Eq, Hash, Structural)]
#[non_exhaustive]
pub enum ActivityComputeApiKind {
    /// `CUPTI_ACTIVITY_COMPUTE_API_UNKNOWN`.
    Unknown,
    /// `CUPTI_ACTIVITY_COMPUTE_API_CUDA`.
    Cuda,
    /// `CUPTI_ACTIVITY_COMPUTE_API_CUDA_MPS`.
    CudaMultiProcessService,
    /// `CUPTI_ACTIVITY_COMPUTE_API_FORCE_INT`.
    ForceInt,
}

impl ActivityComputeApiKind {
    /// Numeric value of the variant in the C enum.
    pub open spec fn raw_value(self) -> u32 {
        match self {
            ActivityComputeApiKind::Unknown => 0,
            ActivityComputeApiKind::Cuda => 1,
            ActivityComputeApiKind::CudaMultiProcessService => 2,
            ActivityComputeApiKind::ForceInt => 0x7fffffff,
        }
    }

    /// Returns the numeric value of the variant in the C enum.
    pub fn raw(self) -> (r: u32)
        ensures
            r == self.raw_value(),
    {
        match self {
            ActivityComputeApiKind::Unknown => 0,
            ActivityComputeApiKind::Cuda => 1,
            ActivityComputeApiKind::CudaMultiProcessService => 2,
            ActivityComputeApiKind::ForceInt => 0x7fffffff,
        }
    }

    /// Decodes a numeric value of the C enum, or `None` for a value it does not define.
    pub fn try_from_raw(value: u32) -> (r: Option<Self>)
        ensures
            match r {
                Some(v) => v.raw_value() == value,
                None => forall|v: Self| v.raw_value() != value,
            },
    {
        match value {
            0 => Some(ActivityComputeApiKind::Unknown),
            1 => Some(ActivityComputeApiKind::Cuda),
            2 => Some(ActivityComputeApiKind::CudaMultiProcessService),
            0x7fffffff => Some(ActivityComputeApiKind::ForceInt),
            _ => None,
        }
    }
}

/// Access type reported for unified-memory page-fault counters.
#[derive(Debug, Clone, Copy, PartialEq, Eq, Hash, Structural)]
#[non_exhaustive]
pub enum ActivityUnifiedMemoryAccessType {
    /// `CUPTI_ACTIVITY_UNIFIED_MEMORY_ACCESS_TYPE_UNKNOWN`.
    Unknown,
    /// `CUPTI_ACTIVITY_UNIFIED_MEMORY_ACCESS_TYPE_READ`.
    Read,
    /// `CUPTI_ACTIVITY_UNIFIED_MEMORY_ACCESS_TYPE_WRITE`.
    Write,
    /// `CUPTI_ACTIVITY_UNIFIED_MEMORY_ACCESS_TYPE_ATOMIC`.
    Atomic,
    /// `CUPTI_ACTIVITY_UNIFIED_MEMORY_ACCESS_TYPE_PREFETCH`.
    Prefetch,
}

impl ActivityUnifiedMemoryAccessType {
    /// Numeric value of the variant in the C enum.
    pub open spec fn raw_value(self) -> u32 {
        match self {
            ActivityUnifiedMemoryAccessType::Unknown => 0,
            ActivityUnifiedMemoryAccessType::Read => 1,
            ActivityUnifiedMemoryAccessType::Write => 2,
            ActivityUnifiedMemoryAccessType::Atomic => 3,
            ActivityUnifiedMemoryAccessType::Prefetch => 4,
        }
    }

    /// Returns the numeric value of the variant in the C enum.
    pub fn raw(self) -> (r: u32)
        ensures
            r == self.raw_value(),
    {
        match self {
            ActivityUnifiedMemoryAccessType::Unknown => 0,
            ActivityUnifiedMemoryAccessType::Read => 1,
            ActivityUnifiedMemoryAccessType::Write => 2,
            ActivityUnifiedMemoryAccessType::Atomic => 3,
            ActivityUnifiedMemoryAccessType::Prefetch => 4,
        }
    }

    /// Decodes a numeric value of the C enum, or `None` for a value it does not define.
    pub fn try_from_raw(value: u32) -> (r: Option<Self>)
        ensures
            match r {
                Some(v) => v.raw_value() == value,
                None => forall|v: Self| v.raw_value() != value,
            },
    {
        match value {
            0 => Some(ActivityUnifiedMemoryAccessType::Unknown),
            1 => Some(ActivityUnifiedMemoryAccessType::Read),
            2 => Some(ActivityUnifiedMemoryAccessType::Write),
            3 => Some(ActivityUnifiedMemoryAccessType::Atomic),
            4 => Some(ActivityUnifiedMemoryAccessType::Prefetch),
            _ => None,
        }
    }
}

/// Migration cause reported for unified-memory transfer counters.
#[derive(Debug, Clone, Copy, PartialEq, Eq, Hash, Structural)]
#[non_exhaustive]
pub enum ActivityUnifiedMemoryMigrationCause {
    /// `CUPTI_ACTIVITY_UNIFIED_MEMORY_MIGRATION_CAUSE_UNKNOWN`.
    Unknown,
    /// `CUPTI_ACTIVITY_UNIFIED_MEMORY_MIGRATION_CAUSE_USER`.
    User,
    /// `CUPTI_ACTIVITY_UNIFIED_MEMORY_MIGRATION_CAUSE_COHERENCE`.
    Coherence,
    /// `CUPTI_ACTIVITY_UNIFIED_MEMORY_MIGRATION_CAUSE_PREFETCH`.
    Prefetch,
    /// `CUPTI_ACTIVITY_UNIFIED_MEMORY_MIGRATION_CAUSE_EVICTION`.
    Eviction,
    /// `CUPTI_ACTIVITY_UNIFIED_MEMORY_MIGRATION_CAUSE_ACCESS_COUNTERS`.
    AccessCounters,
}

impl ActivityUnifiedMemoryMigrationCause {
    /// Numeric value of the variant in the C enum.
    pub open spec fn raw_value(self) -> u32 {
        match self {
            ActivityUnifiedMemoryMigrationCause::Unknown => 0,
            ActivityUnifiedMemoryMigrationCause::User => 1,
            ActivityUnifiedMemoryMigrationCause::Coherence => 2,
            ActivityUnifiedMemoryMigrationCause::Prefetch => 3,
            ActivityUnifiedMemoryMigrationCause::Eviction => 4,
            ActivityUnifiedMemoryMigrationCause::AccessCounters => 5,
        }
    }

    /// Returns the numeric value of the variant in the C enum.
    pub fn raw(self) -> (r: u32)
        ensures
            r == self.raw_value(),
    {
        match self {
            ActivityUnifiedMemoryMigrationCause::Unknown => 0,
            ActivityUnifiedMemoryMigrationCause::User => 1,
            ActivityUnifiedMemoryMigrationCause::Coherence => 2,
            ActivityUnifiedMemoryMigrationCause::Prefetch => 3,
            ActivityUnifiedMemoryMigrationCause::Eviction => 4,
            ActivityUnifiedMemoryMigrationCause::AccessCounters => 5,
        }
    }

    /// Decodes a numeric value of the C enum, or `None` for a value it does not define.
    pub fn try_from_raw(value: u32) -> (r: Option<Self>)
        ensures
            match r {
                Some(v) => v.raw_value() == value,
                None => forall|v: Self| v.raw_value() != value,
            },
    {
        match value {
            0 => Some(ActivityUnifiedMemoryMigrationCause::Unknown),
            1 => Some(ActivityUnifiedMemoryMigrationCause::User),
            2 => Some(ActivityUnifiedMemoryMigrationCause::Coherence),
            3 => Some(ActivityUnifiedMemoryMigrationCause::Prefetch),
            4 => Some(ActivityUnifiedMemoryMigrationCause::Eviction),
            5 => Some(ActivityUnifiedMemoryMigrationCause::AccessCounters),
            _ => None,
        }
    }
}

/// Remote-map cause reported for unified-memory counters.
#[derive(Debug, Clone, Copy, PartialEq, Eq, Hash, Structural)]
#[non_exhaustive]
pub enum ActivityUnifiedMemoryRemoteMapCause {
    /// `CUPTI_ACTIVITY_UNIFIED_MEMORY_REMOTE_MAP_CAUSE_UNKNOWN`.
    Unknown,
    /// `CUPTI_ACTIVITY_UNIFIED_MEMORY_REMOTE_MAP_CAUSE_COHERENCE`.
    Coherence,
    /// `CUPTI_ACTIVITY_UNIFIED_MEMORY_REMOTE_MAP_CAUSE_THRASHING`.
    Thrashing,
    /// `CUPTI_ACTIVITY_UNIFIED_MEMORY_REMOTE_MAP_CAUSE_POLICY`.
    Policy,
    /// `CUPTI_ACTIVITY_UNIFIED_MEMORY_REMOTE_MAP_CAUSE_OUT_OF_MEMORY`.
    OutOfMemory,
    /// `CUPTI_ACTIVITY_UNIFIED_MEMORY_REMOTE_MAP_CAUSE_EVICTION`.
    Eviction,
}

impl ActivityUnifiedMemoryRemoteMapCause {
    /// Numeric value of the variant in the C enum.
    pub open spec fn raw_value(self) -> u32 {
        match self {
            ActivityUnifiedMemoryRemoteMapCause::Unknown => 0,
            ActivityUnifiedMemoryRemoteMapCause::Coherence => 1,
            ActivityUnifiedMemoryRemoteMapCause::Thrashing => 2,
            ActivityUnifiedMemoryRemoteMapCause::Policy => 3,
            ActivityUnifiedMemoryRemoteMapCause::OutOfMemory => 4,
            ActivityUnifiedMemoryRemoteMapCause::Eviction => 5,
        }
    }

    /// Returns the numeric value of the variant in the C enum.
    pub fn raw(self) -> (r: u32)
        ensures
            r == self.raw_value(),
    {
        match self {
            ActivityUnifiedMemoryRemoteMapCause::Unknown => 0,
            ActivityUnifiedMemoryRemoteMapCause::Coherence => 1,
            ActivityUnifiedMemoryRemoteMapCause::Thrashing => 2,
            ActivityUnifiedMemoryRemoteMapCause::Policy => 3,
            ActivityUnifiedMemoryRemoteMapCause::OutOfMemory => 4,
            ActivityUnifiedMemoryRemoteMapCause::Eviction => 5,
        }
    }

    /// Decodes a numeric value of the C enum, or `None` for a value it does not define.
    pub fn try_from_raw(value: u32) -> (r: Option<Self>)
        ensures
            match r {
                Some(v) => v.raw_value() == value,
                None => forall|v: Self| v.raw_value() != value,
            },
    {
        match value {
            0 => Some(ActivityUnifiedMemoryRemoteMapCause::Unknown),
            1 => Some(ActivityUnifiedMemoryRemoteMapCause::Coherence),
            2 => Some(ActivityUnifiedMemoryRemoteMapCause::Thrashing),
            3 => Some(ActivityUnifiedMemoryRemoteMapCause::Policy),
            4 => Some(ActivityUnifiedMemoryRemoteMapCause::OutOfMemory),
            5 => Some(ActivityUnifiedMemoryRemoteMapCause::Eviction),
            _ => None,
        }
    }
}


/// Activity API attributes read and written with `cuptiActivityGetAttribute` and
/// `cuptiActivitySetAttribute`.
#[derive(Debug, Clone, Copy, PartialEq, Eq, Hash, Structural)]
#[non_exhaustive]
pub enum ActivityAttribute {
    /// `CUPTI_ACTIVITY_ATTR_DEVICE_BUFFER_SIZE`.
    DeviceBufferSize,
    /// `CUPTI_ACTIVITY_ATTR_DEVICE_BUFFER_SIZE_CDP`.
    DeviceBufferSizeCudaDynamicParallelism,
    /// `CUPTI_ACTIVITY_ATTR_DEVICE_BUFFER_POOL_LIMIT`.
    DeviceBufferPoolLimit,
    /// `CUPTI_ACTIVITY_ATTR_PROFILING_SEMAPHORE_POOL_SIZE`.
    ProfilingSemaphorePoolSize,
    /// `CUPTI_ACTIVITY_ATTR_PROFILING_SEMAPHORE_POOL_LIMIT`.
    ProfilingSemaphorePoolLimit,
    /// `CUPTI_ACTIVITY_ATTR_ZEROED_OUT_ACTIVITY_BUFFER`.
    ZeroedOutActivityBuffer,
    /// `CUPTI_ACTIVITY_ATTR_DEVICE_BUFFER_PRE_ALLOCATE_VALUE`.
    DeviceBufferPreAllocateValue,
    /// `CUPTI_ACTIVITY_ATTR_PROFILING_SEMAPHORE_PRE_ALLOCATE_VALUE`.
    ProfilingSemaphorePreAllocateValue,
    /// `CUPTI_ACTIVITY_ATTR_MEM_ALLOCATION_TYPE_HOST_PINNED`.
    MemAllocationTypeHostPinned,
    /// `CUPTI_ACTIVITY_ATTR_PER_THREAD_ACTIVITY_BUFFER`.
    PerThreadActivityBuffer,
    /// `CUPTI_ACTIVITY_ATTR_DEVICE_BUFFER_SIZE_DEVICE_GRAPHS`.
    DeviceBufferSizeDeviceGraphs,
    /// `CUPTI_ACTIVITY_ATTR_USER_DEFINED_RECORDS`.
    UserDefinedRecords,
    /// `CUPTI_ACTIVITY_ATTR_MULTIPLE_SUBSCRIBER_STATE`.
    MultipleSubscriberState,
    /// `CUPTI_ACTIVITY_ATTR_ENABLE_HES`.
    EnableHes,
    /// `CUPTI_ACTIVITY_ATTR_ENABLE_ALLOCATION_SOURCE_TRACKING`.
    EnableAllocationSourceTracking,
    /// `CUPTI_ACTIVITY_ATTR_ENABLE_KERNEL_LATENCY_TIMESTAMPS`.
    EnableKernelLatencyTimestamps,
    /// `CUPTI_ACTIVITY_ATTR_ENABLE_ALL_SYNC_RECORDS`.
    EnableAllSyncRecords,
    /// `CUPTI_ACTIVITY_ATTR_ENABLE_CUDA_EVENT_DEVICE_TIMESTAMPS`.
    EnableCudaEventDeviceTimestamps,
    /// `CUPTI_ACTIVITY_ATTR_ENABLE_KERNEL_LAUNCH_ATTRIBUTES`.
    EnableKernelLaunchAttributes,
    /// `CUPTI_ACTIVITY_ATTR_ENABLE_DEVICE_GRAPH_TRACE`.
    EnableDeviceGraphTrace,
    /// `CUPTI_ACTIVITY_ATTR_ENABLE_MULTI_SUBSCRIBER_GRAPH_TRACE`.
    EnableMultiSubscriberGraphLevelTrace,
    /// `CUPTI_ACTIVITY_ATTR_THREAD_ID_TYPE`.
    ThreadIdType,
    /// `CUPTI_ACTIVITY_ATTR_TIMESTAMP_CALLBACK`.
    TimestampCallback,
    /// `CUPTI_ACTIVITY_ATTR_ENABLE_CIG_MODE`.
    CigMode,
    /// `CUPTI_ACTIVITY_ATTR_DEVICE_BUFFER_FORCE_INT`.
    DeviceBufferForceInt,
}

impl ActivityAttribute {
    /// The variant's name, as `Debug` prints it.
    pub open spec fn variant_name(self) -> &'static str {
        match self {
            ActivityAttribute::DeviceBufferSize => "DeviceBufferSize",
            ActivityAttribute::DeviceBufferSizeCudaDynamicParallelism => "DeviceBufferSizeCudaDynamicParallelism",
            ActivityAttribute::DeviceBufferPoolLimit => "DeviceBufferPoolLimit",
            ActivityAttribute::ProfilingSemaphorePoolSize => "ProfilingSemaphorePoolSize",
            ActivityAttribute::ProfilingSemaphorePoolLimit => "ProfilingSemaphorePoolLimit",
            ActivityAttribute::ZeroedOutActivityBuffer => "ZeroedOutActivityBuffer",
            ActivityAttribute::DeviceBufferPreAllocateValue => "DeviceBufferPreAllocateValue",
            ActivityAttribute::ProfilingSemaphorePreAllocateValue => "ProfilingSemaphorePreAllocateValue",
            ActivityAttribute::MemAllocationTypeHostPinned => "MemAllocationTypeHostPinned",
            ActivityAttribute::PerThreadActivityBuffer => "PerThreadActivityBuffer",
            ActivityAttribute::DeviceBufferSizeDeviceGraphs => "DeviceBufferSizeDeviceGraphs",
            ActivityAttribute::UserDefinedRecords => "UserDefinedRecords",
            ActivityAttribute::MultipleSubscriberState => "MultipleSubscriberState",
            ActivityAttribute::EnableHes => "EnableHes",
            ActivityAttribute::EnableAllocationSourceTracking => "EnableAllocationSourceTracking",
            ActivityAttribute::EnableKernelLatencyTimestamps => "EnableKernelLatencyTimestamps",
            ActivityAttribute::EnableAllSyncRecords => "EnableAllSyncRecords",
            ActivityAttribute::EnableCudaEventDeviceTimestamps => "EnableCudaEventDeviceTimestamps",
            ActivityAttribute::EnableKernelLaunchAttributes => "EnableKernelLaunchAttributes",
            ActivityAttribute::EnableDeviceGraphTrace => "EnableDeviceGraphTrace",
            ActivityAttribute::EnableMultiSubscriberGraphLevelTrace => "EnableMultiSubscriberGraphLevelTrace",
            ActivityAttribute::ThreadIdType => "ThreadIdType",
            ActivityAttribute::TimestampCallback => "TimestampCallback",
            ActivityAttribute::CigMode => "CigMode",
            ActivityAttribute::DeviceBufferForceInt => "DeviceBufferForceInt",
        }
    }

    /// Returns the variant's name, as `Debug` prints it.
    pub fn name(self) -> (r: &'static str)
        ensures
            r == self.variant_name(),
    {
        match self {
            ActivityAttribute::DeviceBufferSize => "DeviceBufferSize",
            ActivityAttribute::DeviceBufferSizeCudaDynamicParallelism => "DeviceBufferSizeCudaDynamicParallelism",
            ActivityAttribute::DeviceBufferPoolLimit => "DeviceBufferPoolLimit",
            ActivityAttribute::ProfilingSemaphorePoolSize => "ProfilingSemaphorePoolSize",
            ActivityAttribute::ProfilingSemaphorePoolLimit => "ProfilingSemaphorePoolLimit",
            ActivityAttribute::ZeroedOutActivityBuffer => "ZeroedOutActivityBuffer",
            ActivityAttribute::DeviceBufferPreAllocateValue => "DeviceBufferPreAllocateValue",
            ActivityAttribute::ProfilingSemaphorePreAllocateValue => "ProfilingSemaphorePreAllocateValue",
            ActivityAttribute::MemAllocationTypeHostPinned => "MemAllocationTypeHostPinned",
            ActivityAttribute::PerThreadActivityBuffer => "PerThreadActivityBuffer",
            ActivityAttribute::DeviceBufferSizeDeviceGraphs => "DeviceBufferSizeDeviceGraphs",
            ActivityAttribute::UserDefinedRecords => "UserDefinedRecords",
            ActivityAttribute::MultipleSubscriberState => "MultipleSubscriberState",
            ActivityAttribute::EnableHes => "EnableHes",
            ActivityAttribute::EnableAllocationSourceTracking => "EnableAllocationSourceTracking",
            ActivityAttribute::EnableKernelLatencyTimestamps => "EnableKernelLatencyTimestamps",
            ActivityAttribute::EnableAllSyncRecords => "EnableAllSyncRecords",
            ActivityAttribute::EnableCudaEventDeviceTimestamps => "EnableCudaEventDeviceTimestamps",
            ActivityAttribute::EnableKernelLaunchAttributes => "EnableKernelLaunchAttributes",
            ActivityAttribute::EnableDeviceGraphTrace => "EnableDeviceGraphTrace",
            ActivityAttribute::EnableMultiSubscriberGraphLevelTrace => "EnableMultiSubscriberGraphLevelTrace",
            ActivityAttribute::ThreadIdType => "ThreadIdType",
            ActivityAttribute::TimestampCallback => "TimestampCallback",
            ActivityAttribute::CigMode => "CigMode",
            ActivityAttribute::DeviceBufferForceInt => "DeviceBufferForceInt",
        }
    }
}

/// Thread identifier source used by CUPTI activity records.
#[derive(Debug, Clone, Copy, PartialEq, Eq, Hash, Structural)]
#[non_exhaustive]
pub enum ActivityThreadIdType {
    /// `CUPTI_ACTIVITY_THREAD_ID_TYPE_DEFAULT`.
    Default,
    /// `CUPTI_ACTIVITY_THREAD_ID_TYPE_SYSTEM`.
    System,
    /// `CUPTI_ACTIVITY_THREAD_ID_TYPE_SIZE`.
    Size,
    /// `CUPTI_ACTIVITY_THREAD_ID_TYPE_FORCE_INT`.
    ForceInt,
}


/// Decoded value of an activity attribute.
#[derive(Debug, Clone, Copy, PartialEq, Eq, Hash, Structural)]
#[non_exhaustive]
pub enum ActivityAttributeValue {
    /// A size in bytes.
    Bytes(usize),
    /// A number of buffers or semaphores.
    Count(usize),
    /// Whether a feature is enabled.
    Enabled(bool),
    /// State of multiple-subscriber support.
    MultipleSubscriberState(MultipleSubscriberState),
    /// Source of the thread identifiers in activity records.
    ThreadIdType(ActivityThreadIdType),
}

/// Value to write to an activity attribute.
#[derive(Debug, Clone, Copy, PartialEq, Eq, Hash, Structural)]
#[non_exhaustive]
pub enum ActivityAttributeSetting {
    /// A size in bytes.
    Bytes(usize),
    /// A number of buffers or semaphores.
    Count(usize),
    /// Whether a feature is enabled.
    Enabled(bool),
    /// Source of the thread identifiers in activity records.
    ThreadIdType(ActivityThreadIdType),
}

/// Event-group attributes readable through [`crate::cupti::event::get_event_group_attribute_value`].
#[derive(Debug, Clone, Copy, PartialEq, Eq, Hash, Structural)]
#[non_exhaustive]
pub enum EventGroupAttribute {
    /// `CUPTI_EVENT_GROUP_ATTR_EVENT_DOMAIN_ID`.
    EventDomainId,
    /// `CUPTI_EVENT_GROUP_ATTR_PROFILE_ALL_DOMAIN_INSTANCES`.
    ProfileAllDomainInstances,
    /// `CUPTI_EVENT_GROUP_ATTR_USER_DATA`.
    UserData,
    /// `CUPTI_EVENT_GROUP_ATTR_NUM_EVENTS`.
    NumEvents,
    /// `CUPTI_EVENT_GROUP_ATTR_EVENTS`.
    Events,
    /// `CUPTI_EVENT_GROUP_ATTR_INSTANCE_COUNT`.
    InstanceCount,
    /// `CUPTI_EVENT_GROUP_ATTR_PROFILING_SCOPE`.
    ProfilingScope,
    /// `CUPTI_EVENT_GROUP_ATTR_FORCE_INT`.
    ForceInt,
}

impl EventGroupAttribute {
    /// The variant's name, as `Debug` prints it.
    pub open spec fn variant_name(self) -> &'static str {
        match self {
            EventGroupAttribute::EventDomainId => "EventDomainId",
            EventGroupAttribute::ProfileAllDomainInstances => "ProfileAllDomainInstances",
            EventGroupAttribute::UserData => "UserData",
            EventGroupAttribute::NumEvents => "NumEvents",
            EventGroupAttribute::Events => "Events",
            EventGroupAttribute::InstanceCount => "InstanceCount",
            EventGroupAttribute::ProfilingScope => "ProfilingScope",
            EventGroupAttribute::ForceInt => "ForceInt",
        }
    }

    /// Returns the variant's name, as `Debug` prints it.
    pub fn name(self) -> (r: &'static str)
        ensures
            r == self.variant_name(),
    {
        match self {
            EventGroupAttribute::EventDomainId => "EventDomainId",
            EventGroupAttribute::ProfileAllDomainInstances => "ProfileAllDomainInstances",
            EventGroupAttribute::UserData => "UserData",
            EventGroupAttribute::NumEvents => "NumEvents",
            EventGroupAttribute::Events => "Events",
            EventGroupAttribute::InstanceCount => "InstanceCount",
            EventGroupAttribute::ProfilingScope => "ProfilingScope",
            EventGroupAttribute::ForceInt => "ForceInt",
        }
    }
}

/// Event attributes readable through [`crate::cupti::event::get_event_attribute_value`].
#[derive(Debug, Clone, Copy, PartialEq, Eq, Hash, Structural)]
#[non_exhaustive]
pub enum EventAttribute {
    /// `CUPTI_EVENT_ATTR_NAME`.
    Name,
    /// `CUPTI_EVENT_ATTR_SHORT_DESCRIPTION`.
    ShortDescription,
    /// `CUPTI_EVENT_ATTR_LONG_DESCRIPTION`.
    LongDescription,
    /// `CUPTI_EVENT_ATTR_CATEGORY`.
    Category,
    /// `CUPTI_EVENT_ATTR_PROFILING_SCOPE`.
    ProfilingScope,
    /// `CUPTI_EVENT_ATTR_FORCE_INT`.
    ForceInt,
}

impl EventAttribute {
    /// The variant's name, as `Debug` prints it.
    pub open spec fn variant_name(self) -> &'static str {
        match self {
            EventAttribute::Name => "Name",
            EventAttribute::ShortDescription => "ShortDescription",
            EventAttribute::LongDescription => "LongDescription",
            EventAttribute::Category => "Category",
            EventAttribute::ProfilingScope => "ProfilingScope",
            EventAttribute::ForceInt => "ForceInt",
        }
    }

    /// Returns the variant's name, as `Debug` prints it.
    pub fn name(self) -> (r: &'static str)
        ensures
            r == self.variant_name(),
    {
        match self {
            EventAttribute::Name => "Name",
            EventAttribute::ShortDescription => "ShortDescription",
            EventAttribute::LongDescription => "LongDescription",
            EventAttribute::Category => "Category",
            EventAttribute::ProfilingScope => "ProfilingScope",
            EventAttribute::ForceInt => "ForceInt",
        }
    }
}

/// Event-domain attributes readable through [`crate::cupti::event::get_event_domain_attribute_value`] or [`crate::cupti::event::get_device_event_domain_attribute_value`].
#[derive(Debug, Clone, Copy, PartialEq, Eq, Hash, Structural)]
#[non_exhaustive]
pub enum EventDomainAttribute {
    /// `CUPTI_EVENT_DOMAIN_ATTR_NAME`.
    Name,
    /// `CUPTI_EVENT_DOMAIN_ATTR_INSTANCE_COUNT`.
    InstanceCount,
    /// `CUPTI_EVENT_DOMAIN_ATTR_TOTAL_INSTANCE_COUNT`.
    TotalInstanceCount,
    /// `CUPTI_EVENT_DOMAIN_ATTR_COLLECTION_METHOD`.
    CollectionMethod,
    /// `CUPTI_EVENT_DOMAIN_ATTR_FORCE_INT`.
    ForceInt,
}

impl EventDomainAttribute {
    /// The variant's name, as `Debug` prints it.
    pub open spec fn variant_name(self) -> &'static str {
        match self {
            EventDomainAttribute::Name => "Name",
            EventDomainAttribute::InstanceCount => "InstanceCount",
            EventDomainAttribute::TotalInstanceCount => "TotalInstanceCount",
            EventDomainAttribute::CollectionMethod => "CollectionMethod",
            EventDomainAttribute::ForceInt => "ForceInt",
        }
    }

    /// Returns the variant's name, as `Debug` prints it.
    pub fn name(self) -> (r: &'static str)
        ensures
            r == self.variant_name(),
    {
        match self {
            EventDomainAttribute::Name => "Name",
            EventDomainAttribute::InstanceCount => "InstanceCount",
            EventDomainAttribute::TotalInstanceCount => "TotalInstanceCount",
            EventDomainAttribute::CollectionMethod => "CollectionMethod",
            EventDomainAttribute::ForceInt => "ForceInt",
        }
    }
}

/// Metric attributes readable through [`crate::cupti::event::get_metric_attribute_value`].
#[derive(Debug, Clone, Copy, PartialEq, Eq, Hash, Structural)]
#[non_exhaustive]
pub enum MetricAttribute {
    /// `CUPTI_METRIC_ATTR_NAME`.
    Name,
    /// `CUPTI_METRIC_ATTR_SHORT_DESCRIPTION`.
    ShortDescription,
    /// `CUPTI_METRIC_ATTR_LONG_DESCRIPTION`.
    LongDescription,
    /// `CUPTI_METRIC_ATTR_CATEGORY`.
    Category,
    /// `CUPTI_METRIC_ATTR_VALUE_KIND`.
    ValueKind,
    /// `CUPTI_METRIC_ATTR_EVALUATION_MODE`.
    EvaluationMode,
    /// `CUPTI_METRIC_ATTR_FORCE_INT`.
    ForceInt,
}

impl MetricAttribute {
    /// The variant's name, as `Debug` prints it.
    pub open spec fn variant_name(self) -> &'static str {
        match self {
            MetricAttribute::Name => "Name",
            MetricAttribute::ShortDescription => "ShortDescription",
            MetricAttribute::LongDescription => "LongDescription",
            MetricAttribute::Category => "Category",
            MetricAttribute::ValueKind => "ValueKind",
            MetricAttribute::EvaluationMode => "EvaluationMode",
            MetricAttribute::ForceInt => "ForceInt",
        }
    }

    /// Returns the variant's name, as `Debug` prints it.
    pub fn name(self) -> (r: &'static str)
        ensures
            r == self.variant_name(),
    {
        match self {
            MetricAttribute::Name => "Name",
            MetricAttribute::ShortDescription => "ShortDescription",
            MetricAttribute::LongDescription => "LongDescription",
            MetricAttribute::Category => "Category",
            MetricAttribute::ValueKind => "ValueKind",
            MetricAttribute::EvaluationMode => "EvaluationMode",
            MetricAttribute::ForceInt => "ForceInt",
        }
    }
}

/// Scope at which a CUPTI event can be profiled.
#[derive(Debug, Clone, Copy, PartialEq, Eq, Hash, Structural)]
#[non_exhaustive]
pub enum EventProfilingScope {
    /// `CUPTI_EVENT_PROFILING_SCOPE_CONTEXT`.
    Context,
    /// `CUPTI_EVENT_PROFILING_SCOPE_DEVICE`.
    Device,
    /// `CUPTI_EVENT_PROFILING_SCOPE_BOTH`.
    Both,
    /// `CUPTI_EVENT_PROFILING_SCOPE_FORCE_INT`.
    ForceInt,
}

/// General category assigned to a CUPTI event.
#[derive(Debug, Clone, Copy, PartialEq, Eq, Hash, Structural)]
#[non_exhaustive]
pub enum EventCategory {
    /// `CUPTI_EVENT_CATEGORY_INSTRUCTION`.
    Instruction,
    /// `CUPTI_EVENT_CATEGORY_MEMORY`.
    Memory,
    /// `CUPTI_EVENT_CATEGORY_CACHE`.
    Cache,
    /// `CUPTI_EVENT_CATEGORY_PROFILE_TRIGGER`.
    ProfileTrigger,
    /// `CUPTI_EVENT_CATEGORY_SYSTEM`.
    System,
    /// `CUPTI_EVENT_CATEGORY_FORCE_INT`.
    ForceInt,
}

/// Hardware or software mechanism used to collect an event.
#[derive(Debug, Clone, Copy, PartialEq, Eq, Hash, Structural)]
#[non_exhaustive]
pub enum EventCollectionMethod {
    /// `CUPTI_EVENT_COLLECTION_METHOD_PM`.
    Pm,
    /// `CUPTI_EVENT_COLLECTION_METHOD_SM`.
    Sm,
    /// `CUPTI_EVENT_COLLECTION_METHOD_INSTRUMENTED`.
    Instrumented,
    /// `CUPTI_EVENT_COLLECTION_METHOD_NVLINK_TC`.
    NvLinkTc,
    /// `CUPTI_EVENT_COLLECTION_METHOD_FORCE_INT`.
    ForceInt,
}

/// General category assigned to a CUPTI metric.
#[derive(Debug, Clone, Copy, PartialEq, Eq, Hash, Structural)]
#[non_exhaustive]
pub enum MetricCategory {
    /// `CUPTI_METRIC_CATEGORY_MEMORY`.
    Memory,
    /// `CUPTI_METRIC_CATEGORY_INSTRUCTION`.
    Instruction,
    /// `CUPTI_METRIC_CATEGORY_MULTIPROCESSOR`.
    Multiprocessor,
    /// `CUPTI_METRIC_CATEGORY_CACHE`.
    Cache,
    /// `CUPTI_METRIC_CATEGORY_TEXTURE`.
    Texture,
    /// `CUPTI_METRIC_CATEGORY_NVLINK`.
    NvLink,
    /// `CUPTI_METRIC_CATEGORY_PCIE`.
    Pcie,
    /// `CUPTI_METRIC_CATEGORY_FORCE_INT`.
    ForceInt,
}

/// Evaluation mode supported by a CUPTI metric.
#[derive(Debug, Clone, Copy, PartialEq, Eq, Hash, Structural)]
#[non_exhaustive]
pub enum MetricEvaluationMode {
    /// `CUPTI_METRIC_EVALUATION_MODE_PER_INSTANCE`.
    PerInstance,
    /// `CUPTI_METRIC_EVALUATION_MODE_AGGREGATE`.
    Aggregate,
    /// `CUPTI_METRIC_EVALUATION_MODE_FORCE_INT`.
    ForceInt,
}

/// CUDA device class returned by [`DeviceAttribute::DeviceClass`].
#[derive(Debug, Clone, Copy, PartialEq, Eq, Hash, Structural)]
#[non_exhaustive]
pub enum DeviceAttributeDeviceClass {
    /// `CUPTI_DEVICE_ATTR_DEVICE_CLASS_TESLA`.
    Tesla,
    /// `CUPTI_DEVICE_ATTR_DEVICE_CLASS_QUADRO`.
    Quadro,
    /// `CUPTI_DEVICE_ATTR_DEVICE_CLASS_GEFORCE`.
    Geforce,
    /// `CUPTI_DEVICE_ATTR_DEVICE_CLASS_TEGRA`.
    Tegra,
}

/// Decoded value of an event group attribute.
#[derive(Debug, Clone, PartialEq, Eq, Hash)]
#[non_exhaustive]
pub enum EventGroupAttributeValue {
    /// The event domain of the group.
    EventDomainId(EventDomainId),
    /// Whether all instances of the domain are profiled.
    ProfileAllDomainInstances(bool),
    /// Number of events in the group.
    NumEvents(u32),
    /// The events in the group.
    Events(Vec<EventId>),
    /// Number of domain instances counted.
    InstanceCount(u32),
    /// Profiling scope of the group.
    ProfilingScope(EventProfilingScope),
}

/// Decoded value of an event attribute.
#[derive(Debug, Clone, PartialEq, Eq, Hash)]
#[non_exhaustive]
pub enum EventAttributeValue {
    /// Event name.
    Name(String),
    /// Short description of the event.
    ShortDescription(String),
    /// Long description of the event.
    LongDescription(String),
    /// Category of the event.
    Category(EventCategory),
    /// Profiling scope of the event.
    ProfilingScope(EventProfilingScope),
}

/// Decoded value of an event domain attribute.
#[derive(Debug, Clone, PartialEq, Eq, Hash)]
#[non_exhaustive]
pub enum EventDomainAttributeValue {
    /// Name of the domain.
    Name(String),
    /// A count: domain instances, or total domain instances.
    U32(u32),
    /// How the domain's events are collected.
    CollectionMethod(EventCollectionMethod),
}

/// Decoded value of a metric attribute.
#[derive(Debug, Clone, PartialEq, Eq, Hash)]
#[non_exhaustive]
pub enum MetricAttributeValue {
    /// Metric name.
    Name(String),
    /// Short description of the metric.
    ShortDescription(String),
    /// Long description of the metric.
    LongDescription(String),
    /// Category of the metric.
    Category(MetricCategory),
    /// Kind of the metric's values.
    ValueKind(MetricValueKind),
    /// How the metric is evaluated.
    EvaluationMode(MetricEvaluationMode),
}

/// Decoded value of a device attribute.
#[derive(Debug, Clone, Copy, PartialEq, Eq, Hash, Structural)]
#[non_exhaustive]
pub enum DeviceAttributeValue {
    /// A 32-bit value.
    U32(u32),
    /// Class of the device.
    DeviceClass(DeviceAttributeDeviceClass),
}


/// Group of related CUPTI callback IDs.
#[derive(Debug, Clone, Copy, PartialEq, Eq, Hash, Structural)]
#[non_exhaustive]
pub enum CallbackDomain {
    /// `CUPTI_CB_DOMAIN_INVALID`.
    Invalid,
    /// `CUPTI_CB_DOMAIN_DRIVER_API`.
    DriverApi,
    /// `CUPTI_CB_DOMAIN_RUNTIME_API`.
    RuntimeApi,
    /// `CUPTI_CB_DOMAIN_RESOURCE`.
    Resource,
    /// `CUPTI_CB_DOMAIN_SYNCHRONIZE`.
    Synchronize,
    /// `CUPTI_CB_DOMAIN_NVTX`.
    Nvtx,
    /// `CUPTI_CB_DOMAIN_STATE`.
    State,
    /// `CUPTI_CB_DOMAIN_SIZE`.
    Size,
    /// `CUPTI_CB_DOMAIN_FORCE_INT`.
    ForceInt,
}

/// Point at which CUPTI invokes an API callback. Callback payloads expose this as the callback site of the underlying CUPTI callback data.
#[derive(Debug, Clone, Copy, PartialEq, Eq, Hash, Structural)]
#[non_exhaustive]
pub enum ApiCallbackSite {
    /// `CUPTI_API_ENTER`.
    Enter,
    /// `CUPTI_API_EXIT`.
    Exit,
    /// `CUPTI_API_CBSITE_FORCE_INT`.
    ForceInt,
}


impl CallbackDomain {
    /// Numeric value of the variant in the C enum.
    pub open spec fn raw_value(self) -> u32 {
        match self {
            CallbackDomain::Invalid => 0,
            CallbackDomain::DriverApi => 1,
            CallbackDomain::RuntimeApi => 2,
            CallbackDomain::Resource => 3,
            CallbackDomain::Synchronize => 4,
            CallbackDomain::Nvtx => 5,
            CallbackDomain::State => 6,
            CallbackDomain::Size => 7,
            CallbackDomain::ForceInt => 0x7fffffff,
        }
    }

    /// Returns the numeric value of the variant in the C enum.
    pub fn raw(self) -> (r: u32)
        ensures
            r == self.raw_value(),
    {
        match self {
            CallbackDomain::Invalid => 0,
            CallbackDomain::DriverApi => 1,
            CallbackDomain::RuntimeApi => 2,
            CallbackDomain::Resource => 3,
            CallbackDomain::Synchronize => 4,
            CallbackDomain::Nvtx => 5,
            CallbackDomain::State => 6,
            CallbackDomain::Size => 7,
            CallbackDomain::ForceInt => 0x7fffffff,
        }
    }

    /// Decodes a numeric value of the C enum, or `None` for a value it does not define.
    pub fn try_from_raw(value: u32) -> (r: Option<Self>)
        ensures
            match r {
                Some(v) => v.raw_value() == value,
                None => forall|v: Self| v.raw_value() != value,
            },
    {
        match value {
            0 => Some(CallbackDomain::Invalid),
            1 => Some(CallbackDomain::DriverApi),
            2 => Some(CallbackDomain::RuntimeApi),
            3 => Some(CallbackDomain::Resource),
            4 => Some(CallbackDomain::Synchronize),
            5 => Some(CallbackDomain::Nvtx),
            6 => Some(CallbackDomain::State),
            7 => Some(CallbackDomain::Size),
            0x7fffffff => Some(CallbackDomain::ForceInt),
            _ => None,
        }
    }
}

impl ApiCallbackSite {
    /// Numeric value of the variant in the C enum.
    pub open spec fn raw_value(self) -> u32 {
        match self {
            ApiCallbackSite::Enter => 0,
            ApiCallbackSite::Exit => 1,
            ApiCallbackSite::ForceInt => 0x7fffffff,
        }
    }

    /// Returns the numeric value of the variant in the C enum.
    pub fn raw(self) -> (r: u32)
        ensures
            r == self.raw_value(),
    {
        match self {
            ApiCallbackSite::Enter => 0,
            ApiCallbackSite::Exit => 1,
            ApiCallbackSite::ForceInt => 0x7fffffff,
        }
    }

    /// Decodes a numeric value of the C enum, or `None` for a value it does not define.
    pub fn try_from_raw(value: u32) -> (r: Option<Self>)
        ensures
            match r {
                Some(v) => v.raw_value() == value,
                None => forall|v: Self| v.raw_value() != value,
            },
    {
        match value {
            0 => Some(ApiCallbackSite::Enter),
            1 => Some(ApiCallbackSite::Exit),
            0x7fffffff => Some(ApiCallbackSite::ForceInt),
            _ => None,
        }
    }
}

/// Period over which enabled event groups collect events.
#[derive(Debug, Clone, Copy, PartialEq, Eq, Hash, Structural)]
#[non_exhaustive]
pub enum EventCollectionMode {
    /// `CUPTI_EVENT_COLLECTION_MODE_CONTINUOUS`.
    Continuous,
    /// `CUPTI_EVENT_COLLECTION_MODE_KERNEL`.
    Kernel,
    /// `CUPTI_EVENT_COLLECTION_MODE_FORCE_INT`.
    ForceInt,
}

impl EventCollectionMode {
    /// Numeric value of the variant in the C enum.
    pub open spec fn raw_value(self) -> u32 {
        match self {
            EventCollectionMode::Continuous => 0,
            EventCollectionMode::Kernel => 1,
            EventCollectionMode::ForceInt => 0x7fffffff,
        }
    }

    /// Returns the numeric value of the variant in the C enum.
    pub fn raw(self) -> (r: u32)
        ensures
            r == self.raw_value(),
    {
        match self {
            EventCollectionMode::Continuous => 0,
            EventCollectionMode::Kernel => 1,
            EventCollectionMode::ForceInt => 0x7fffffff,
        }
    }

    /// Decodes a numeric value of the C enum, or `None` for a value it does not define.
    pub fn try_from_raw(value: u32) -> (r: Option<Self>)
        ensures
            match r {
                Some(v) => v.raw_value() == value,
                None => forall|v: Self| v.raw_value() != value,
            },
    {
        match value {
            0 => Some(EventCollectionMode::Continuous),
            1 => Some(EventCollectionMode::Kernel),
            0x7fffffff => Some(EventCollectionMode::ForceInt),
            _ => None,
        }
    }
}

/// Flags used when reading event values from an event group.
#[derive(Debug, Clone, Copy, PartialEq, Eq, Hash, Structural)]
#[non_exhaustive]
pub enum ReadEventFlags {
    /// `CUPTI_EVENT_READ_FLAG_NONE`.
    NoFlags,
    /// `CUPTI_EVENT_READ_FLAG_FORCE_INT`.
    ForceInt,
}

impl ReadEventFlags {
    /// Numeric value of the variant in the C enum.
    pub open spec fn raw_value(self) -> u32 {
        match self {
            ReadEventFlags::NoFlags => 0,
            ReadEventFlags::ForceInt => 0x7fffffff,
        }
    }

    /// Returns the numeric value of the variant in the C enum.
    pub fn raw(self) -> (r: u32)
        ensures
            r == self.raw_value(),
    {
        match self {
            ReadEventFlags::NoFlags => 0,
            ReadEventFlags::ForceInt => 0x7fffffff,
        }
    }

    /// Decodes a numeric value of the C enum, or `None` for a value it does not define.
    pub fn try_from_raw(value: u32) -> (r: Option<Self>)
        ensures
            match r {
                Some(v) => v.raw_value() == value,
                None => forall|v: Self| v.raw_value() != value,
            },
    {
        match value {
            0 => Some(ReadEventFlags::NoFlags),
            0x7fffffff => Some(ReadEventFlags::ForceInt),
            _ => None,
        }
    }
}

/// Callback identifiers of the resource callback domain.
#[derive(Debug, Clone, Copy, PartialEq, Eq, Hash, Structural)]
#[non_exhaustive]
pub enum CallbackIdResource {
    /// `CUPTI_CBID_RESOURCE_INVALID`.
    Invalid,
    /// `CUPTI_CBID_RESOURCE_CONTEXT_CREATED`.
    ContextCreated,
    /// `CUPTI_CBID_RESOURCE_CONTEXT_DESTROY_STARTING`.
    ContextDestroyStarting,
    /// `CUPTI_CBID_RESOURCE_STREAM_CREATED`.
    StreamCreated,
    /// `CUPTI_CBID_RESOURCE_STREAM_DESTROY_STARTING`.
    StreamDestroyStarting,
    /// `CUPTI_CBID_RESOURCE_CU_INIT_FINISHED`.
    CuInitFinished,
    /// `CUPTI_CBID_RESOURCE_MODULE_LOADED`.
    ModuleLoaded,
    /// `CUPTI_CBID_RESOURCE_MODULE_UNLOAD_STARTING`.
    ModuleUnloadStarting,
    /// `CUPTI_CBID_RESOURCE_MODULE_PROFILED`.
    ModuleProfiled,
    /// `CUPTI_CBID_RESOURCE_GRAPH_CREATED`.
    GraphCreated,
    /// `CUPTI_CBID_RESOURCE_GRAPH_DESTROY_STARTING`.
    GraphDestroyStarting,
    /// `CUPTI_CBID_RESOURCE_GRAPH_CLONED`.
    GraphCloned,
    /// `CUPTI_CBID_RESOURCE_GRAPHNODE_CREATE_STARTING`.
    GraphNodeCreateStarting,
    /// `CUPTI_CBID_RESOURCE_GRAPHNODE_CREATED`.
    GraphNodeCreated,
    /// `CUPTI_CBID_RESOURCE_GRAPHNODE_DESTROY_STARTING`.
    GraphNodeDestroyStarting,
    /// `CUPTI_CBID_RESOURCE_GRAPHNODE_DEPENDENCY_CREATED`.
    GraphNodeDependencyCreated,
    /// `CUPTI_CBID_RESOURCE_GRAPHNODE_DEPENDENCY_DESTROY_STARTING`.
    GraphNodeDependencyDestroyStarting,
    /// `CUPTI_CBID_RESOURCE_GRAPHEXEC_CREATE_STARTING`.
    ExecutableGraphCreateStarting,
    /// `CUPTI_CBID_RESOURCE_GRAPHEXEC_CREATED`.
    ExecutableGraphCreated,
    /// `CUPTI_CBID_RESOURCE_GRAPHEXEC_DESTROY_STARTING`.
    ExecutableGraphDestroyStarting,
    /// `CUPTI_CBID_RESOURCE_GRAPHNODE_CLONED`.
    GraphNodeCloned,
    /// `CUPTI_CBID_RESOURCE_STREAM_ATTRIBUTE_CHANGED`.
    StreamAttributeChanged,
    /// `CUPTI_CBID_RESOURCE_GRAPH_NODE_UPDATED`.
    GraphNodeUpdated,
    /// `CUPTI_CBID_RESOURCE_GRAPH_NODE_SET_PARAMS`.
    GraphNodeSetParams,
    /// `CUPTI_CBID_RESOURCE_SIZE`.
    Size,
    /// `CUPTI_CBID_RESOURCE_FORCE_INT`.
    ForceInt,
}

impl CallbackIdResource {
    /// Numeric value of the variant in the C enum.
    pub open spec fn raw_value(self) -> u32 {
        match self {
            CallbackIdResource::Invalid => 0,
            CallbackIdResource::ContextCreated => 1,
            CallbackIdResource::ContextDestroyStarting => 2,
            CallbackIdResource::StreamCreated => 3,
            CallbackIdResource::StreamDestroyStarting => 4,
            CallbackIdResource::CuInitFinished => 5,
            CallbackIdResource::ModuleLoaded => 6,
            CallbackIdResource::ModuleUnloadStarting => 7,
            CallbackIdResource::ModuleProfiled => 8,
            CallbackIdResource::GraphCreated => 9,
            CallbackIdResource::GraphDestroyStarting => 10,
            CallbackIdResource::GraphCloned => 11,
            CallbackIdResource::GraphNodeCreateStarting => 12,
            CallbackIdResource::GraphNodeCreated => 13,
            CallbackIdResource::GraphNodeDestroyStarting => 14,
            CallbackIdResource::GraphNodeDependencyCreated => 15,
            CallbackIdResource::GraphNodeDependencyDestroyStarting => 16,
            CallbackIdResource::ExecutableGraphCreateStarting => 17,
            CallbackIdResource::ExecutableGraphCreated => 18,
            CallbackIdResource::ExecutableGraphDestroyStarting => 19,
            CallbackIdResource::GraphNodeCloned => 20,
            CallbackIdResource::StreamAttributeChanged => 21,
            CallbackIdResource::GraphNodeUpdated => 22,
            CallbackIdResource::GraphNodeSetParams => 23,
            CallbackIdResource::Size => 24,
            CallbackIdResource::ForceInt => 0x7fffffff,
        }
    }

    /// Returns the numeric value of the variant in the C enum.
    pub fn raw(self) -> (r: u32)
        ensures
            r == self.raw_value(),
    {
        match self {
            CallbackIdResource::Invalid => 0,
            CallbackIdResource::ContextCreated => 1,
            CallbackIdResource::ContextDestroyStarting => 2,
            CallbackIdResource::StreamCreated => 3,
            CallbackIdResource::StreamDestroyStarting => 4,
            CallbackIdResource::CuInitFinished => 5,
            CallbackIdResource::ModuleLoaded => 6,
            CallbackIdResource::ModuleUnloadStarting => 7,
            CallbackIdResource::ModuleProfiled => 8,
            CallbackIdResource::GraphCreated => 9,
            CallbackIdResource::GraphDestroyStarting => 10,
            CallbackIdResource::GraphCloned => 11,
            CallbackIdResource::GraphNodeCreateStarting => 12,
            CallbackIdResource::GraphNodeCreated => 13,
            CallbackIdResource::GraphNodeDestroyStarting => 14,
            CallbackIdResource::GraphNodeDependencyCreated => 15,
            CallbackIdResource::GraphNodeDependencyDestroyStarting => 16,
            CallbackIdResource::ExecutableGraphCreateStarting => 17,
            CallbackIdResource::ExecutableGraphCreated => 18,
            CallbackIdResource::ExecutableGraphDestroyStarting => 19,
            CallbackIdResource::GraphNodeCloned => 20,
            CallbackIdResource::StreamAttributeChanged => 21,
            CallbackIdResource::GraphNodeUpdated => 22,
            CallbackIdResource::GraphNodeSetParams => 23,
            CallbackIdResource::Size => 24,
            CallbackIdResource::ForceInt => 0x7fffffff,
        }
    }

    /// Decodes a numeric value of the C enum, or `None` for a value it does not define.
    pub fn try_from_raw(value: u32) -> (r: Option<Self>)
        ensures
            match r {
                Some(v) => v.raw_value() == value,
                None => forall|v: Self| v.raw_value() != value,
            },
    {
        match value {
            0 => Some(CallbackIdResource::Invalid),
            1 => Some(CallbackIdResource::ContextCreated),
            2 => Some(CallbackIdResource::ContextDestroyStarting),
            3 => Some(CallbackIdResource::StreamCreated),
            4 => Some(CallbackIdResource::StreamDestroyStarting),
            5 => Some(CallbackIdResource::CuInitFinished),
            6 => Some(CallbackIdResource::ModuleLoaded),
            7 => Some(CallbackIdResource::ModuleUnloadStarting),
            8 => Some(CallbackIdResource::ModuleProfiled),
            9 => Some(CallbackIdResource::GraphCreated),
            10 => Some(CallbackIdResource::GraphDestroyStarting),
            11 => Some(CallbackIdResource::GraphCloned),
            12 => Some(CallbackIdResource::GraphNodeCreateStarting),
            13 => Some(CallbackIdResource::GraphNodeCreated),
            14 => Some(CallbackIdResource::GraphNodeDestroyStarting),
            15 => Some(CallbackIdResource::GraphNodeDependencyCreated),
            16 => Some(CallbackIdResource::GraphNodeDependencyDestroyStarting),
            17 => Some(CallbackIdResource::ExecutableGraphCreateStarting),
            18 => Some(CallbackIdResource::ExecutableGraphCreated),
            19 => Some(CallbackIdResource::ExecutableGraphDestroyStarting),
            20 => Some(CallbackIdResource::GraphNodeCloned),
            21 => Some(CallbackIdResource::StreamAttributeChanged),
            22 => Some(CallbackIdResource::GraphNodeUpdated),
            23 => Some(CallbackIdResource::GraphNodeSetParams),
            24 => Some(CallbackIdResource::Size),
            0x7fffffff => Some(CallbackIdResource::ForceInt),
            _ => None,
        }
    }

    /// The C name of the variant.
    pub open spec fn c_name(self) -> &'static str {
        match self {
            CallbackIdResource::Invalid => "CUPTI_CBID_RESOURCE_INVALID",
            CallbackIdResource::ContextCreated => "CUPTI_CBID_RESOURCE_CONTEXT_CREATED",
            CallbackIdResource::ContextDestroyStarting => "CUPTI_CBID_RESOURCE_CONTEXT_DESTROY_STARTING",
            CallbackIdResource::StreamCreated => "CUPTI_CBID_RESOURCE_STREAM_CREATED",
            CallbackIdResource::StreamDestroyStarting => "CUPTI_CBID_RESOURCE_STREAM_DESTROY_STARTING",
            CallbackIdResource::CuInitFinished => "CUPTI_CBID_RESOURCE_CU_INIT_FINISHED",
            CallbackIdResource::ModuleLoaded => "CUPTI_CBID_RESOURCE_MODULE_LOADED",
            CallbackIdResource::ModuleUnloadStarting => "CUPTI_CBID_RESOURCE_MODULE_UNLOAD_STARTING",
            CallbackIdResource::ModuleProfiled => "CUPTI_CBID_RESOURCE_MODULE_PROFILED",
            CallbackIdResource::GraphCreated => "CUPTI_CBID_RESOURCE_GRAPH_CREATED",
            CallbackIdResource::GraphDestroyStarting => "CUPTI_CBID_RESOURCE_GRAPH_DESTROY_STARTING",
            CallbackIdResource::GraphCloned => "CUPTI_CBID_RESOURCE_GRAPH_CLONED",
            CallbackIdResource::GraphNodeCreateStarting => "CUPTI_CBID_RESOURCE_GRAPHNODE_CREATE_STARTING",
            CallbackIdResource::GraphNodeCreated => "CUPTI_CBID_RESOURCE_GRAPHNODE_CREATED",
            CallbackIdResource::GraphNodeDestroyStarting => "CUPTI_CBID_RESOURCE_GRAPHNODE_DESTROY_STARTING",
            CallbackIdResource::GraphNodeDependencyCreated => "CUPTI_CBID_RESOURCE_GRAPHNODE_DEPENDENCY_CREATED",
            CallbackIdResource::GraphNodeDependencyDestroyStarting => "CUPTI_CBID_RESOURCE_GRAPHNODE_DEPENDENCY_DESTROY_STARTING",
            CallbackIdResource::ExecutableGraphCreateStarting => "CUPTI_CBID_RESOURCE_GRAPHEXEC_CREATE_STARTING",
            CallbackIdResource::ExecutableGraphCreated => "CUPTI_CBID_RESOURCE_GRAPHEXEC_CREATED",
            CallbackIdResource::ExecutableGraphDestroyStarting => "CUPTI_CBID_RESOURCE_GRAPHEXEC_DESTROY_STARTING",
            CallbackIdResource::GraphNodeCloned => "CUPTI_CBID_RESOURCE_GRAPHNODE_CLONED",
            CallbackIdResource::StreamAttributeChanged => "CUPTI_CBID_RESOURCE_STREAM_ATTRIBUTE_CHANGED",
            CallbackIdResource::GraphNodeUpdated => "CUPTI_CBID_RESOURCE_GRAPH_NODE_UPDATED",
            CallbackIdResource::GraphNodeSetParams => "CUPTI_CBID_RESOURCE_GRAPH_NODE_SET_PARAMS",
            CallbackIdResource::Size => "CUPTI_CBID_RESOURCE_SIZE",
            CallbackIdResource::ForceInt => "CUPTI_CBID_RESOURCE_FORCE_INT",
        }
    }

    /// Returns the C name of the variant, as CUPTI's headers spell it.
    pub fn name(self) -> (r: &'static str)
        ensures
            r == self.c_name(),
    {
        match self {
            CallbackIdResource::Invalid => "CUPTI_CBID_RESOURCE_INVALID",
            CallbackIdResource::ContextCreated => "CUPTI_CBID_RESOURCE_CONTEXT_CREATED",
            CallbackIdResource::ContextDestroyStarting => "CUPTI_CBID_RESOURCE_CONTEXT_DESTROY_STARTING",
            CallbackIdResource::StreamCreated => "CUPTI_CBID_RESOURCE_STREAM_CREATED",
            CallbackIdResource::StreamDestroyStarting => "CUPTI_CBID_RESOURCE_STREAM_DESTROY_STARTING",
            CallbackIdResource::CuInitFinished => "CUPTI_CBID_RESOURCE_CU_INIT_FINISHED",
            CallbackIdResource::ModuleLoaded => "CUPTI_CBID_RESOURCE_MODULE_LOADED",
            CallbackIdResource::ModuleUnloadStarting => "CUPTI_CBID_RESOURCE_MODULE_UNLOAD_STARTING",
            CallbackIdResource::ModuleProfiled => "CUPTI_CBID_RESOURCE_MODULE_PROFILED",
            CallbackIdResource::GraphCreated => "CUPTI_CBID_RESOURCE_GRAPH_CREATED",
            CallbackIdResource::GraphDestroyStarting => "CUPTI_CBID_RESOURCE_GRAPH_DESTROY_STARTING",
            CallbackIdResource::GraphCloned => "CUPTI_CBID_RESOURCE_GRAPH_CLONED",
            CallbackIdResource::GraphNodeCreateStarting => "CUPTI_CBID_RESOURCE_GRAPHNODE_CREATE_STARTING",
            CallbackIdResource::GraphNodeCreated => "CUPTI_CBID_RESOURCE_GRAPHNODE_CREATED",
            CallbackIdResource::GraphNodeDestroyStarting => "CUPTI_CBID_RESOURCE_GRAPHNODE_DESTROY_STARTING",
            CallbackIdResource::GraphNodeDependencyCreated => "CUPTI_CBID_RESOURCE_GRAPHNODE_DEPENDENCY_CREATED",
            CallbackIdResource::GraphNodeDependencyDestroyStarting => "CUPTI_CBID_RESOURCE_GRAPHNODE_DEPENDENCY_DESTROY_STARTING",
            CallbackIdResource::ExecutableGraphCreateStarting => "CUPTI_CBID_RESOURCE_GRAPHEXEC_CREATE_STARTING",
            CallbackIdResource::ExecutableGraphCreated => "CUPTI_CBID_RESOURCE_GRAPHEXEC_CREATED",
            CallbackIdResource::ExecutableGraphDestroyStarting => "CUPTI_CBID_RESOURCE_GRAPHEXEC_DESTROY_STARTING",
            CallbackIdResource::GraphNodeCloned => "CUPTI_CBID_RESOURCE_GRAPHNODE_CLONED",
            CallbackIdResource::StreamAttributeChanged => "CUPTI_CBID_RESOURCE_STREAM_ATTRIBUTE_CHANGED",
            CallbackIdResource::GraphNodeUpdated => "CUPTI_CBID_RESOURCE_GRAPH_NODE_UPDATED",
            CallbackIdResource::GraphNodeSetParams => "CUPTI_CBID_RESOURCE_GRAPH_NODE_SET_PARAMS",
            CallbackIdResource::Size => "CUPTI_CBID_RESOURCE_SIZE",
            CallbackIdResource::ForceInt => "CUPTI_CBID_RESOURCE_FORCE_INT",
        }
    }
}

/// Callback identifiers of the synchronization callback domain.
#[derive(Debug, Clone, Copy, PartialEq, Eq, Hash, Structural)]
#[non_exhaustive]
pub enum CallbackIdSync {
    /// `CUPTI_CBID_SYNCHRONIZE_INVALID`.
    Invalid,
    /// `CUPTI_CBID_SYNCHRONIZE_STREAM_SYNCHRONIZED`.
    StreamSynchronized,
    /// `CUPTI_CBID_SYNCHRONIZE_CONTEXT_SYNCHRONIZED`.
    ContextSynchronized,
    /// `CUPTI_CBID_SYNCHRONIZE_SIZE`.
    Size,
    /// `CUPTI_CBID_SYNCHRONIZE_FORCE_INT`.
    ForceInt,
}

impl CallbackIdSync {
    /// Numeric value of the variant in the C enum.
    pub open spec fn raw_value(self) -> u32 {
        match self {
            CallbackIdSync::Invalid => 0,
            CallbackIdSync::StreamSynchronized => 1,
            CallbackIdSync::ContextSynchronized => 2,
            CallbackIdSync::Size => 3,
            CallbackIdSync::ForceInt => 0x7fffffff,
        }
    }

    /// Returns the numeric value of the variant in the C enum.
    pub fn raw(self) -> (r: u32)
        ensures
            r == self.raw_value(),
    {
        match self {
            CallbackIdSync::Invalid => 0,
            CallbackIdSync::StreamSynchronized => 1,
            CallbackIdSync::ContextSynchronized => 2,
            CallbackIdSync::Size => 3,
            CallbackIdSync::ForceInt => 0x7fffffff,
        }
    }

    /// Decodes a numeric value of the C enum, or `None` for a value it does not define.
    pub fn try_from_raw(value: u32) -> (r: Option<Self>)
        ensures
            match r {
                Some(v) => v.raw_value() == value,
                None => forall|v: Self| v.raw_value() != value,
            },
    {
        match value {
            0 => Some(CallbackIdSync::Invalid),
            1 => Some(CallbackIdSync::StreamSynchronized),
            2 => Some(CallbackIdSync::ContextSynchronized),
            3 => Some(CallbackIdSync::Size),
            0x7fffffff => Some(CallbackIdSync::ForceInt),
            _ => None,
        }
    }
}

/// Callback identifiers of the state callback domain.
#[derive(Debug, Clone, Copy, PartialEq, Eq, Hash, Structural)]
#[non_exhaustive]
pub enum CallbackIdState {
    /// `CUPTI_CBID_STATE_INVALID`.
    Invalid,
    /// `CUPTI_CBID_STATE_FATAL_ERROR`.
    FatalError,
    /// `CUPTI_CBID_STATE_ERROR`.
    Error,
    /// `CUPTI_CBID_STATE_WARNING`.
    Warning,
    /// `CUPTI_CBID_STATE_SIZE`.
    Size,
    /// `CUPTI_CBID_STATE_FORCE_INT`.
    ForceInt,
}

impl CallbackIdState {
    /// Numeric value of the variant in the C enum.
    pub open spec fn raw_value(self) -> u32 {
        match self {
            CallbackIdState::Invalid => 0,
            CallbackIdState::FatalError => 1,
            CallbackIdState::Error => 2,
            CallbackIdState::Warning => 3,
            CallbackIdState::Size => 4,
            CallbackIdState::ForceInt => 0x7fffffff,
        }
    }

    /// Returns the numeric value of the variant in the C enum.
    pub fn raw(self) -> (r: u32)
        ensures
            r == self.raw_value(),
    {
        match self {
            CallbackIdState::Invalid => 0,
            CallbackIdState::FatalError => 1,
            CallbackIdState::Error => 2,
            CallbackIdState::Warning => 3,
            CallbackIdState::Size => 4,
            CallbackIdState::ForceInt => 0x7fffffff,
        }
    }

    /// Decodes a numeric value of the C enum, or `None` for a value it does not define.
    pub fn try_from_raw(value: u32) -> (r: Option<Self>)
        ensures
            match r {
                Some(v) => v.raw_value() == value,
                None => forall|v: Self| v.raw_value() != value,
            },
    {
        match value {
            0 => Some(CallbackIdState::Invalid),
            1 => Some(CallbackIdState::FatalError),
            2 => Some(CallbackIdState::Error),
            3 => Some(CallbackIdState::Warning),
            4 => Some(CallbackIdState::Size),
            0x7fffffff => Some(CallbackIdState::ForceInt),
            _ => None,
        }
    }
}

/// How a device is virtualized.
#[derive(Debug, Clone, Copy, PartialEq, Eq, Hash, Structural)]
#[non_exhaustive]
pub enum DeviceVirtualizationMode {
    /// `CUPTI_DEVICE_VIRTUALIZATION_MODE_NONE`.
    NoVirtualization,
    /// `CUPTI_DEVICE_VIRTUALIZATION_MODE_PASS_THROUGH`.
    PassThrough,
    /// `CUPTI_DEVICE_VIRTUALIZATION_MODE_VIRTUAL_GPU`.
    VirtualGpu,
    /// `CUPTI_DEVICE_VIRTUALIZATION_MODE_FORCE_INT`.
    ForceInt,
}

impl DeviceVirtualizationMode {
    /// Numeric value of the variant in the C enum.
    pub open spec fn raw_value(self) -> u32 {
        match self {
            DeviceVirtualizationMode::NoVirtualization => 0,
            DeviceVirtualizationMode::PassThrough => 1,
            DeviceVirtualizationMode::VirtualGpu => 2,
            DeviceVirtualizationMode::ForceInt => 0x7fffffff,
        }
    }

    /// Returns the numeric value of the variant in the C enum.
    pub fn raw(self) -> (r: u32)
        ensures
            r == self.raw_value(),
    {
        match self {
            DeviceVirtualizationMode::NoVirtualization => 0,
            DeviceVirtualizationMode::PassThrough => 1,
            DeviceVirtualizationMode::VirtualGpu => 2,
            DeviceVirtualizationMode::ForceInt => 0x7fffffff,
        }
    }

    /// Decodes a numeric value of the C enum, or `None` for a value it does not define.
    pub fn try_from_raw(value: u32) -> (r: Option<Self>)
        ensures
            match r {
                Some(v) => v.raw_value() == value,
                None => forall|v: Self| v.raw_value() != value,
            },
    {
        match value {
            0 => Some(DeviceVirtualizationMode::NoVirtualization),
            1 => Some(DeviceVirtualizationMode::PassThrough),
            2 => Some(DeviceVirtualizationMode::VirtualGpu),
            0x7fffffff => Some(DeviceVirtualizationMode::ForceInt),
            _ => None,
        }
    }
}

/// Sampling period of PC sampling.
#[derive(Debug, Clone, Copy, PartialEq, Eq, Hash, Structural)]
#[non_exhaustive]
pub enum ActivityPcSamplingPeriod {
    /// `CUPTI_ACTIVITY_PC_SAMPLING_PERIOD_INVALID`.
    Invalid,
    /// `CUPTI_ACTIVITY_PC_SAMPLING_PERIOD_MIN`.
    Min,
    /// `CUPTI_ACTIVITY_PC_SAMPLING_PERIOD_LOW`.
    Low,
    /// `CUPTI_ACTIVITY_PC_SAMPLING_PERIOD_MID`.
    Mid,
    /// `CUPTI_ACTIVITY_PC_SAMPLING_PERIOD_HIGH`.
    High,
    /// `CUPTI_ACTIVITY_PC_SAMPLING_PERIOD_MAX`.
    Max,
    /// `CUPTI_ACTIVITY_PC_SAMPLING_PERIOD_FORCE_INT`.
    ForceInt,
}

impl ActivityPcSamplingPeriod {
    /// Numeric value of the variant in the C enum.
    pub open spec fn raw_value(self) -> u32 {
        match self {
            ActivityPcSamplingPeriod::Invalid => 0,
            ActivityPcSamplingPeriod::Min => 1,
            ActivityPcSamplingPeriod::Low => 2,
            ActivityPcSamplingPeriod::Mid => 3,
            ActivityPcSamplingPeriod::High => 4,
            ActivityPcSamplingPeriod::Max => 5,
            ActivityPcSamplingPeriod::ForceInt => 0x7fffffff,
        }
    }

    /// Returns the numeric value of the variant in the C enum.
    pub fn raw(self) -> (r: u32)
        ensures
            r == self.raw_value(),
    {
        match self {
            ActivityPcSamplingPeriod::Invalid => 0,
            ActivityPcSamplingPeriod::Min => 1,
            ActivityPcSamplingPeriod::Low => 2,
            ActivityPcSamplingPeriod::Mid => 3,
            ActivityPcSamplingPeriod::High => 4,
            ActivityPcSamplingPeriod::Max => 5,
            ActivityPcSamplingPeriod::ForceInt => 0x7fffffff,
        }
    }

    /// Decodes a numeric value of the C enum, or `None` for a value it does not define.
    pub fn try_from_raw(value: u32) -> (r: Option<Self>)
        ensures
            match r {
                Some(v) => v.raw_value() == value,
                None => forall|v: Self| v.raw_value() != value,
            },
    {
        match value {
            0 => Some(ActivityPcSamplingPeriod::Invalid),
            1 => Some(ActivityPcSamplingPeriod::Min),
            2 => Some(ActivityPcSamplingPeriod::Low),
            3 => Some(ActivityPcSamplingPeriod::Mid),
            4 => Some(ActivityPcSamplingPeriod::High),
            5 => Some(ActivityPcSamplingPeriod::Max),
            0x7fffffff => Some(ActivityPcSamplingPeriod::ForceInt),
            _ => None,
        }
    }
}

/// Scope of a Unified Memory counter.
#[derive(Debug, Clone, Copy, PartialEq, Eq, Hash, Structural)]
#[non_exhaustive]
pub enum ActivityUnifiedMemoryCounterScope {
    /// `CUPTI_ACTIVITY_UNIFIED_MEMORY_COUNTER_SCOPE_UNKNOWN`.
    Unknown,
    /// `CUPTI_ACTIVITY_UNIFIED_MEMORY_COUNTER_SCOPE_PROCESS_SINGLE_DEVICE`.
    ProcessSingleDevice,
    /// `CUPTI_ACTIVITY_UNIFIED_MEMORY_COUNTER_SCOPE_PROCESS_ALL_DEVICES`.
    ProcessAllDevices,
    /// `CUPTI_ACTIVITY_UNIFIED_MEMORY_COUNTER_SCOPE_COUNT`.
    Count,
    /// `CUPTI_ACTIVITY_UNIFIED_MEMORY_COUNTER_SCOPE_FORCE_INT`.
    ForceInt,
}

impl ActivityUnifiedMemoryCounterScope {
    /// Numeric value of the variant in the C enum.
    pub open spec fn raw_value(self) -> u32 {
        match self {
            ActivityUnifiedMemoryCounterScope::Unknown => 0,
            ActivityUnifiedMemoryCounterScope::ProcessSingleDevice => 1,
            ActivityUnifiedMemoryCounterScope::ProcessAllDevices => 2,
            ActivityUnifiedMemoryCounterScope::Count => 3,
            ActivityUnifiedMemoryCounterScope::ForceInt => 0x7fffffff,
        }
    }

    /// Returns the numeric value of the variant in the C enum.
    pub fn raw(self) -> (r: u32)
        ensures
            r == self.raw_value(),
    {
        match self {
            ActivityUnifiedMemoryCounterScope::Unknown => 0,
            ActivityUnifiedMemoryCounterScope::ProcessSingleDevice => 1,
            ActivityUnifiedMemoryCounterScope::ProcessAllDevices => 2,
            ActivityUnifiedMemoryCounterScope::Count => 3,
            ActivityUnifiedMemoryCounterScope::ForceInt => 0x7fffffff,
        }
    }

    /// Decodes a numeric value of the C enum, or `None` for a value it does not define.
    pub fn try_from_raw(value: u32) -> (r: Option<Self>)
        ensures
            match r {
                Some(v) => v.raw_value() == value,
                None => forall|v: Self| v.raw_value() != value,
            },
    {
        match value {
            0 => Some(ActivityUnifiedMemoryCounterScope::Unknown),
            1 => Some(ActivityUnifiedMemoryCounterScope::ProcessSingleDevice),
            2 => Some(ActivityUnifiedMemoryCounterScope::ProcessAllDevices),
            3 => Some(ActivityUnifiedMemoryCounterScope::Count),
            0x7fffffff => Some(ActivityUnifiedMemoryCounterScope::ForceInt),
            _ => None,
        }
    }
}

/// Class of an executed instruction.
#[derive(Debug, Clone, Copy, PartialEq, Eq, Hash, Structural)]
#[non_exhaustive]
pub enum ActivityInstructionClass {
    /// `CUPTI_ACTIVITY_INSTRUCTION_CLASS_UNKNOWN`.
    Unknown,
    /// `CUPTI_ACTIVITY_INSTRUCTION_CLASS_FP_32`.
    Float32,
    /// `CUPTI_ACTIVITY_INSTRUCTION_CLASS_FP_64`.
    Float64,
    /// `CUPTI_ACTIVITY_INSTRUCTION_CLASS_INTEGER`.
    Integer,
    /// `CUPTI_ACTIVITY_INSTRUCTION_CLASS_BIT_CONVERSION`.
    BitConversion,
    /// `CUPTI_ACTIVITY_INSTRUCTION_CLASS_CONTROL_FLOW`.
    ControlFlow,
    /// `CUPTI_ACTIVITY_INSTRUCTION_CLASS_GLOBAL`.
    Global,
    /// `CUPTI_ACTIVITY_INSTRUCTION_CLASS_SHARED`.
    Shared,
    /// `CUPTI_ACTIVITY_INSTRUCTION_CLASS_LOCAL`.
    Local,
    /// `CUPTI_ACTIVITY_INSTRUCTION_CLASS_GENERIC`.
    Generic,
    /// `CUPTI_ACTIVITY_INSTRUCTION_CLASS_SURFACE`.
    Surface,
    /// `CUPTI_ACTIVITY_INSTRUCTION_CLASS_CONSTANT`.
    Constant,
    /// `CUPTI_ACTIVITY_INSTRUCTION_CLASS_TEXTURE`.
    Texture,
    /// `CUPTI_ACTIVITY_INSTRUCTION_CLASS_GLOBAL_ATOMIC`.
    GlobalAtomic,
    /// `CUPTI_ACTIVITY_INSTRUCTION_CLASS_SHARED_ATOMIC`.
    SharedAtomic,
    /// `CUPTI_ACTIVITY_INSTRUCTION_CLASS_SURFACE_ATOMIC`.
    SurfaceAtomic,
    /// `CUPTI_ACTIVITY_INSTRUCTION_CLASS_INTER_THREAD_COMMUNICATION`.
    InterThreadCommunication,
    /// `CUPTI_ACTIVITY_INSTRUCTION_CLASS_BARRIER`.
    Barrier,
    /// `CUPTI_ACTIVITY_INSTRUCTION_CLASS_MISCELLANEOUS`.
    Miscellaneous,
    /// `CUPTI_ACTIVITY_INSTRUCTION_CLASS_FP_16`.
    Float16,
    /// `CUPTI_ACTIVITY_INSTRUCTION_CLASS_UNIFORM`.
    Uniform,
    /// `CUPTI_ACTIVITY_INSTRUCTION_CLASS_KIND_FORCE_INT`.
    ForceInt,
}

impl ActivityInstructionClass {
    /// Numeric value of the variant in the C enum.
    pub open spec fn raw_value(self) -> u32 {
        match self {
            ActivityInstructionClass::Unknown => 0,
            ActivityInstructionClass::Float32 => 1,
            ActivityInstructionClass::Float64 => 2,
            ActivityInstructionClass::Integer => 3,
            ActivityInstructionClass::BitConversion => 4,
            ActivityInstructionClass::ControlFlow => 5,
            ActivityInstructionClass::Global => 6,
            ActivityInstructionClass::Shared => 7,
            ActivityInstructionClass::Local => 8,
            ActivityInstructionClass::Generic => 9,
            ActivityInstructionClass::Surface => 10,
            ActivityInstructionClass::Constant => 11,
            ActivityInstructionClass::Texture => 12,
            ActivityInstructionClass::GlobalAtomic => 13,
            ActivityInstructionClass::SharedAtomic => 14,
            ActivityInstructionClass::SurfaceAtomic => 15,
            ActivityInstructionClass::InterThreadCommunication => 16,
            ActivityInstructionClass::Barrier => 17,
            ActivityInstructionClass::Miscellaneous => 18,
            ActivityInstructionClass::Float16 => 19,
            ActivityInstructionClass::Uniform => 20,
            ActivityInstructionClass::ForceInt => 0x7fffffff,
        }
    }

    /// Returns the numeric value of the variant in the C enum.
    pub fn raw(self) -> (r: u32)
        ensures
            r == self.raw_value(),
    {
        match self {
            ActivityInstructionClass::Unknown => 0,
            ActivityInstructionClass::Float32 => 1,
            ActivityInstructionClass::Float64 => 2,
            ActivityInstructionClass::Integer => 3,
            ActivityInstructionClass::BitConversion => 4,
            ActivityInstructionClass::ControlFlow => 5,
            ActivityInstructionClass::Global => 6,
            ActivityInstructionClass::Shared => 7,
            ActivityInstructionClass::Local => 8,
            ActivityInstructionClass::Generic => 9,
            ActivityInstructionClass::Surface => 10,
            ActivityInstructionClass::Constant => 11,
            ActivityInstructionClass::Texture => 12,
            ActivityInstructionClass::GlobalAtomic => 13,
            ActivityInstructionClass::SharedAtomic => 14,
            ActivityInstructionClass::SurfaceAtomic => 15,
            ActivityInstructionClass::InterThreadCommunication => 16,
            ActivityInstructionClass::Barrier => 17,
            ActivityInstructionClass::Miscellaneous => 18,
            ActivityInstructionClass::Float16 => 19,
            ActivityInstructionClass::Uniform => 20,
            ActivityInstructionClass::ForceInt => 0x7fffffff,
        }
    }

    /// Decodes a numeric value of the C enum, or `None` for a value it does not define.
    pub fn try_from_raw(value: u32) -> (r: Option<Self>)
        ensures
            match r {
                Some(v) => v.raw_value() == value,
                None => forall|v: Self| v.raw_value() != value,
            },
    {
        match value {
            0 => Some(ActivityInstructionClass::Unknown),
            1 => Some(ActivityInstructionClass::Float32),
            2 => Some(ActivityInstructionClass::Float64),
            3 => Some(ActivityInstructionClass::Integer),
            4 => Some(ActivityInstructionClass::BitConversion),
            5 => Some(ActivityInstructionClass::ControlFlow),
            6 => Some(ActivityInstructionClass::Global),
            7 => Some(ActivityInstructionClass::Shared),
            8 => Some(ActivityInstructionClass::Local),
            9 => Some(ActivityInstructionClass::Generic),
            10 => Some(ActivityInstructionClass::Surface),
            11 => Some(ActivityInstructionClass::Constant),
            12 => Some(ActivityInstructionClass::Texture),
            13 => Some(ActivityInstructionClass::GlobalAtomic),
            14 => Some(ActivityInstructionClass::SharedAtomic),
            15 => Some(ActivityInstructionClass::SurfaceAtomic),
            16 => Some(ActivityInstructionClass::InterThreadCommunication),
            17 => Some(ActivityInstructionClass::Barrier),
            18 => Some(ActivityInstructionClass::Miscellaneous),
            19 => Some(ActivityInstructionClass::Float16),
            20 => Some(ActivityInstructionClass::Uniform),
            0x7fffffff => Some(ActivityInstructionClass::ForceInt),
            _ => None,
        }
    }
}

/// Utilization level reported by a utilization metric.
#[derive(Debug, Clone, Copy, PartialEq, Eq, Hash, Structural)]
#[non_exhaustive]
pub enum MetricValueUtilizationLevel {
    /// `CUPTI_METRIC_VALUE_UTILIZATION_IDLE`.
    Idle,
    /// `CUPTI_METRIC_VALUE_UTILIZATION_LOW`.
    Low,
    /// `CUPTI_METRIC_VALUE_UTILIZATION_MID`.
    Mid,
    /// `CUPTI_METRIC_VALUE_UTILIZATION_HIGH`.
    High,
    /// `CUPTI_METRIC_VALUE_UTILIZATION_MAX`.
    Max,
    /// `CUPTI_METRIC_VALUE_UTILIZATION_FORCE_INT`.
    ForceInt,
}

impl MetricValueUtilizationLevel {
    /// Numeric value of the variant in the C enum.
    pub open spec fn raw_value(self) -> u32 {
        match self {
            MetricValueUtilizationLevel::Idle => 0,
            MetricValueUtilizationLevel::Low => 2,
            MetricValueUtilizationLevel::Mid => 5,
            MetricValueUtilizationLevel::High => 8,
            MetricValueUtilizationLevel::Max => 10,
            MetricValueUtilizationLevel::ForceInt => 0x7fffffff,
        }
    }

    /// Returns the numeric value of the variant in the C enum.
    pub fn raw(self) -> (r: u32)
        ensures
            r == self.raw_value(),
    {
        match self {
            MetricValueUtilizationLevel::Idle => 0,
            MetricValueUtilizationLevel::Low => 2,
            MetricValueUtilizationLevel::Mid => 5,
            MetricValueUtilizationLevel::High => 8,
            MetricValueUtilizationLevel::Max => 10,
            MetricValueUtilizationLevel::ForceInt => 0x7fffffff,
        }
    }

    /// Decodes a numeric value of the C enum, or `None` for a value it does not define.
    pub fn try_from_raw(value: u32) -> (r: Option<Self>)
        ensures
            match r {
                Some(v) => v.raw_value() == value,
                None => forall|v: Self| v.raw_value() != value,
            },
    {
        match value {
            0 => Some(MetricValueUtilizationLevel::Idle),
            2 => Some(MetricValueUtilizationLevel::Low),
            5 => Some(MetricValueUtilizationLevel::Mid),
            8 => Some(MetricValueUtilizationLevel::High),
            10 => Some(MetricValueUtilizationLevel::Max),
            0x7fffffff => Some(MetricValueUtilizationLevel::ForceInt),
            _ => None,
        }
    }
}

/// No two callback domains share a C value.
pub proof fn lemma_callback_domain_raw_injective(a: CallbackDomain, b: CallbackDomain)
    requires
        a.raw_value() == b.raw_value(),
    ensures
        a == b,
{
}

/// No two utilization levels share a C value.
pub proof fn lemma_utilization_level_raw_injective(a: MetricValueUtilizationLevel, b: MetricValueUtilizationLevel)
    requires
        a.raw_value() == b.raw_value(),
    ensures
        a == b,
{
}

/// Device class reported as a metric property.
#[derive(Debug, Clone, Copy, PartialEq, Eq, Hash, Structural)]
#[non_exhaustive]
pub enum MetricPropertyDeviceClass {
    /// `CUPTI_METRIC_PROPERTY_DEVICE_CLASS_TESLA`.
    Tesla,
    /// `CUPTI_METRIC_PROPERTY_DEVICE_CLASS_QUADRO`.
    Quadro,
    /// `CUPTI_METRIC_PROPERTY_DEVICE_CLASS_GEFORCE`.
    Geforce,
    /// `CUPTI_METRIC_PROPERTY_DEVICE_CLASS_TEGRA`.
    Tegra,
}

impl MetricPropertyDeviceClass {
    /// Numeric value of the variant in the C enum.
    pub open spec fn raw_value(self) -> u32 {
        match self {
            MetricPropertyDeviceClass::Tesla => 0,
            MetricPropertyDeviceClass::Quadro => 1,
            MetricPropertyDeviceClass::Geforce => 2,
            MetricPropertyDeviceClass::Tegra => 3,
        }
    }

    /// Returns the numeric value of the variant in the C enum.
    pub fn raw(self) -> (r: u32)
        ensures
            r == self.raw_value(),
    {
        match self {
            MetricPropertyDeviceClass::Tesla => 0,
            MetricPropertyDeviceClass::Quadro => 1,
            MetricPropertyDeviceClass::Geforce => 2,
            MetricPropertyDeviceClass::Tegra => 3,
        }
    }

    /// Decodes a numeric value of the C enum, or `None` for a value it does not define.
    pub fn try_from_raw(value: u32) -> (r: Option<Self>)
        ensures
            match r {
                Some(v) => v.raw_value() == value,
                None => forall|v: Self| v.raw_value() != value,
            },
    {
        match value {
            0 => Some(MetricPropertyDeviceClass::Tesla),
            1 => Some(MetricPropertyDeviceClass::Quadro),
            2 => Some(MetricPropertyDeviceClass::Geforce),
            3 => Some(MetricPropertyDeviceClass::Tegra),
            _ => None,
        }
    }
}

/// Device property that a metric's value can depend on.
#[derive(Debug, Clone, Copy, PartialEq, Eq, Hash, Structural)]
#[non_exhaustive]
pub enum MetricPropertyId {
    /// `CUPTI_METRIC_PROPERTY_MULTIPROCESSOR_COUNT`.
    MultiprocessorCount,
    /// `CUPTI_METRIC_PROPERTY_WARPS_PER_MULTIPROCESSOR`.
    WarpsPerMultiprocessor,
    /// `CUPTI_METRIC_PROPERTY_KERNEL_GPU_TIME`.
    KernelGpuTime,
    /// `CUPTI_METRIC_PROPERTY_CLOCK_RATE`.
    ClockRate,
    /// `CUPTI_METRIC_PROPERTY_FRAME_BUFFER_COUNT`.
    FrameBufferCount,
    /// `CUPTI_METRIC_PROPERTY_GLOBAL_MEMORY_BANDWIDTH`.
    GlobalMemoryBandwidth,
    /// `CUPTI_METRIC_PROPERTY_PCIE_LINK_RATE`.
    PcieLinkRate,
    /// `CUPTI_METRIC_PROPERTY_PCIE_LINK_WIDTH`.
    PcieLinkWidth,
    /// `CUPTI_METRIC_PROPERTY_PCIE_GEN`.
    PcieGeneration,
    /// `CUPTI_METRIC_PROPERTY_DEVICE_CLASS`.
    DeviceClass,
    /// `CUPTI_METRIC_PROPERTY_FLOP_SP_PER_CYCLE`.
    FlopSpPerCycle,
    /// `CUPTI_METRIC_PROPERTY_FLOP_DP_PER_CYCLE`.
    FlopDpPerCycle,
    /// `CUPTI_METRIC_PROPERTY_L2_UNITS`.
    L2Units,
    /// `CUPTI_METRIC_PROPERTY_ECC_ENABLED`.
    EccEnabled,
    /// `CUPTI_METRIC_PROPERTY_FLOP_HP_PER_CYCLE`.
    FlopHpPerCycle,
    /// `CUPTI_METRIC_PROPERTY_GPU_CPU_NVLINK_BANDWIDTH`.
    GpuCentralProcessingUnitNvLinkBandwidth,
}

impl MetricPropertyId {
    /// Numeric value of the variant in the C enum.
    pub open spec fn raw_value(self) -> u32 {
        match self {
            MetricPropertyId::MultiprocessorCount => 0,
            MetricPropertyId::WarpsPerMultiprocessor => 1,
            MetricPropertyId::KernelGpuTime => 2,
            MetricPropertyId::ClockRate => 3,
            MetricPropertyId::FrameBufferCount => 4,
            MetricPropertyId::GlobalMemoryBandwidth => 5,
            MetricPropertyId::PcieLinkRate => 6,
            MetricPropertyId::PcieLinkWidth => 7,
            MetricPropertyId::PcieGeneration => 8,
            MetricPropertyId::DeviceClass => 9,
            MetricPropertyId::FlopSpPerCycle => 10,
            MetricPropertyId::FlopDpPerCycle => 11,
            MetricPropertyId::L2Units => 12,
            MetricPropertyId::EccEnabled => 13,
            MetricPropertyId::FlopHpPerCycle => 14,
            MetricPropertyId::GpuCentralProcessingUnitNvLinkBandwidth => 15,
        }
    }

    /// Returns the numeric value of the variant in the C enum.
    pub fn raw(self) -> (r: u32)
        ensures
            r == self.raw_value(),
    {
        match self {
            MetricPropertyId::MultiprocessorCount => 0,
            MetricPropertyId::WarpsPerMultiprocessor => 1,
            MetricPropertyId::KernelGpuTime => 2,
            MetricPropertyId::ClockRate => 3,
            MetricPropertyId::FrameBufferCount => 4,
            MetricPropertyId::GlobalMemoryBandwidth => 5,
            MetricPropertyId::PcieLinkRate => 6,
            MetricPropertyId::PcieLinkWidth => 7,
            MetricPropertyId::PcieGeneration => 8,
            MetricPropertyId::DeviceClass => 9,
            MetricPropertyId::FlopSpPerCycle => 10,
            MetricPropertyId::FlopDpPerCycle => 11,
            MetricPropertyId::L2Units => 12,
            MetricPropertyId::EccEnabled => 13,
            MetricPropertyId::FlopHpPerCycle => 14,
            MetricPropertyId::GpuCentralProcessingUnitNvLinkBandwidth => 15,
        }
    }

    /// Decodes a numeric value of the C enum, or `None` for a value it does not define.
    pub fn try_from_raw(value: u32) -> (r: Option<Self>)
        ensures
            match r {
                Some(v) => v.raw_value() == value,
                None => forall|v: Self| v.raw_value() != value,
            },
    {
        match value {
            0 => Some(MetricPropertyId::MultiprocessorCount),
            1 => Some(MetricPropertyId::WarpsPerMultiprocessor),
            2 => Some(MetricPropertyId::KernelGpuTime),
            3 => Some(MetricPropertyId::ClockRate),
            4 => Some(MetricPropertyId::FrameBufferCount),
            5 => Some(MetricPropertyId::GlobalMemoryBandwidth),
            6 => Some(MetricPropertyId::PcieLinkRate),
            7 => Some(MetricPropertyId::PcieLinkWidth),
            8 => Some(MetricPropertyId::PcieGeneration),
            9 => Some(MetricPropertyId::DeviceClass),
            10 => Some(MetricPropertyId::FlopSpPerCycle),
            11 => Some(MetricPropertyId::FlopDpPerCycle),
            12 => Some(MetricPropertyId::L2Units),
            13 => Some(MetricPropertyId::EccEnabled),
            14 => Some(MetricPropertyId::FlopHpPerCycle),
            15 => Some(MetricPropertyId::GpuCentralProcessingUnitNvLinkBandwidth),
            _ => None,
        }
    }
}

impl ActivityUnifiedMemoryCounterKind {
    /// Numeric value of the variant in the C enum.
    pub open spec fn raw_value(self) -> u32 {
        match self {
            ActivityUnifiedMemoryCounterKind::Unknown => 0,
            ActivityUnifiedMemoryCounterKind::BytesTransferHostToDevice => 1,
            ActivityUnifiedMemoryCounterKind::BytesTransferDeviceToHost => 2,
            ActivityUnifiedMemoryCounterKind::CentralProcessingUnitPageFaultCount => 3,
            ActivityUnifiedMemoryCounterKind::GpuPageFault => 4,
            ActivityUnifiedMemoryCounterKind::Thrashing => 5,
            ActivityUnifiedMemoryCounterKind::Throttling => 6,
            ActivityUnifiedMemoryCounterKind::RemoteMap => 7,
            ActivityUnifiedMemoryCounterKind::BytesTransferDeviceToDevice => 8,
            ActivityUnifiedMemoryCounterKind::Count => 9,
            ActivityUnifiedMemoryCounterKind::ForceInt => 0x7fffffff,
        }
    }

    /// Returns the numeric value of the variant in the C enum.
    pub fn raw(self) -> (r: u32)
        ensures
            r == self.raw_value(),
    {
        match self {
            ActivityUnifiedMemoryCounterKind::Unknown => 0,
            ActivityUnifiedMemoryCounterKind::BytesTransferHostToDevice => 1,
            ActivityUnifiedMemoryCounterKind::BytesTransferDeviceToHost => 2,
            ActivityUnifiedMemoryCounterKind::CentralProcessingUnitPageFaultCount => 3,
            ActivityUnifiedMemoryCounterKind::GpuPageFault => 4,
            ActivityUnifiedMemoryCounterKind::Thrashing => 5,
            ActivityUnifiedMemoryCounterKind::Throttling => 6,
            ActivityUnifiedMemoryCounterKind::RemoteMap => 7,
            ActivityUnifiedMemoryCounterKind::BytesTransferDeviceToDevice => 8,
            ActivityUnifiedMemoryCounterKind::Count => 9,
            ActivityUnifiedMemoryCounterKind::ForceInt => 0x7fffffff,
        }
    }

    /// Decodes a numeric value of the C enum, or `None` for a value it does not define.
    pub fn try_from_raw(value: u32) -> (r: Option<Self>)
        ensures
            match r {
                Some(v) => v.raw_value() == value,
                None => forall|v: Self| v.raw_value() != value,
            },
    {
        match value {
            0 => Some(ActivityUnifiedMemoryCounterKind::Unknown),
            1 => Some(ActivityUnifiedMemoryCounterKind::BytesTransferHostToDevice),
            2 => Some(ActivityUnifiedMemoryCounterKind::BytesTransferDeviceToHost),
            3 => Some(ActivityUnifiedMemoryCounterKind::CentralProcessingUnitPageFaultCount),
            4 => Some(ActivityUnifiedMemoryCounterKind::GpuPageFault),
            5 => Some(ActivityUnifiedMemoryCounterKind::Thrashing),
            6 => Some(ActivityUnifiedMemoryCounterKind::Throttling),
            7 => Some(ActivityUnifiedMemoryCounterKind::RemoteMap),
            8 => Some(ActivityUnifiedMemoryCounterKind::BytesTransferDeviceToDevice),
            9 => Some(ActivityUnifiedMemoryCounterKind::Count),
            0x7fffffff => Some(ActivityUnifiedMemoryCounterKind::ForceInt),
            _ => None,
        }
    }
}


/// Size in bytes of CUPTI's PC sampling configuration structure: three 32-bit words.
pub const PC_SAMPLING_CONFIG_SIZE: u32 = 12;

/// The PC sampling configuration structure as CUPTI reads it.
#[derive(Debug, Clone, Copy, PartialEq, Eq, Hash, Structural)]
pub struct RawActivityPcSamplingConfig {
    pub size: u32,
    pub sampling_period: u32,
    pub sampling_period2: u32,
}

/// PC sampling configuration for a context.
#[derive(Debug, Clone, Copy, PartialEq, Eq, Hash, Structural)]
pub struct ActivityPcSamplingConfig {
    pub sampling_period: ActivityPcSamplingPeriod,
    pub sampling_period2: u32,
}

impl ActivityPcSamplingConfig {
    /// A configuration with the given sampling period and no second period.
    pub fn new(sampling_period: ActivityPcSamplingPeriod) -> (r: Self)
        ensures
            r == (ActivityPcSamplingConfig { sampling_period, sampling_period2: 0 }),
    {
        ActivityPcSamplingConfig { sampling_period, sampling_period2: 0 }
    }

    /// The structure handed to CUPTI for this configuration.
    pub fn to_raw(self) -> (r: RawActivityPcSamplingConfig)
        ensures
            r == (RawActivityPcSamplingConfig {
                size: PC_SAMPLING_CONFIG_SIZE,
                sampling_period: self.sampling_period.raw_value(),
                sampling_period2: self.sampling_period2,
            }),
    {
        RawActivityPcSamplingConfig {
            size: PC_SAMPLING_CONFIG_SIZE,
            sampling_period: self.sampling_period.raw(),
            sampling_period2: self.sampling_period2,
        }
    }
}

/// The Unified Memory counter configuration structure as CUPTI reads it.
#[derive(Debug, Clone, Copy, PartialEq, Eq, Hash, Structural)]
pub struct RawActivityUnifiedMemoryCounterConfig {
    pub scope: u32,
    pub kind: u32,
    pub device_id: u32,
    pub enable: u32,
}

/// Configuration of one Unified Memory counter.
#[derive(Debug, Clone, Copy, PartialEq, Eq, Hash, Structural)]
pub struct ActivityUnifiedMemoryCounterConfig {
    pub scope: ActivityUnifiedMemoryCounterScope,
    pub kind: ActivityUnifiedMemoryCounterKind,
    pub device_id: DeviceId,
    pub enable: bool,
}

impl ActivityUnifiedMemoryCounterConfig {
    /// A configuration of counter `kind` over all devices of the process.
    pub fn new(kind: ActivityUnifiedMemoryCounterKind, enable: bool) -> (r: Self)
        ensures
            r == (ActivityUnifiedMemoryCounterConfig {
                scope: ActivityUnifiedMemoryCounterScope::ProcessAllDevices,
                kind,
                device_id: DeviceId::of(0),
                enable,
            }),
    {
        ActivityUnifiedMemoryCounterConfig {
            scope: ActivityUnifiedMemoryCounterScope::ProcessAllDevices,
            kind,
            device_id: DeviceId::from(0u32),
            enable,
        }
    }

    /// The structure CUPTI reads for this configuration: each enum by its C value, the
    /// device by its ordinal, and `enable` as 1 or 0.
    pub open spec fn to_raw_spec(self) -> RawActivityUnifiedMemoryCounterConfig {
        RawActivityUnifiedMemoryCounterConfig {
            scope: self.scope.raw_value(),
            kind: self.kind.raw_value(),
            device_id: self.device_id@,
            enable: if self.enable { 1u32 } else { 0u32 },
        }
    }

    /// The structure handed to CUPTI for this configuration.
    pub fn to_raw(self) -> (r: RawActivityUnifiedMemoryCounterConfig)
        ensures
            r == self.to_raw_spec(),
    {
        RawActivityUnifiedMemoryCounterConfig {
            scope: self.scope.raw(),
            kind: self.kind.raw(),
            device_id: self.device_id.get(),
            enable: if self.enable { 1 } else { 0 },
        }
    }
}


/// The C values and names of [`ActivityKind`], as the C header assigns them.
pub proof fn lemma_activity_kind_c_values()
    ensures
        ActivityKind::Invalid.raw_value() == 0,
        ActivityKind::MemoryCopy.raw_value() == 1,
        ActivityKind::MemorySet.raw_value() == 2,
        ActivityKind::Kernel.raw_value() == 3,
        ActivityKind::Driver.raw_value() == 4,
        ActivityKind::Runtime.raw_value() == 5,
        ActivityKind::Event.raw_value() == 6,
        ActivityKind::Metric.raw_value() == 7,
        ActivityKind::Device.raw_value() == 8,
        ActivityKind::Context.raw_value() == 9,
        ActivityKind::ConcurrentKernel.raw_value() == 10,
        ActivityKind::Name.raw_value() == 11,
        ActivityKind::Marker.raw_value() == 12,
        ActivityKind::MarkerData.raw_value() == 13,
        ActivityKind::SourceLocator.raw_value() == 14,
        ActivityKind::GlobalAccess.raw_value() == 15,
        ActivityKind::Branch.raw_value() == 16,
        ActivityKind::Overhead.raw_value() == 17,
        ActivityKind::CudaDynamicParallelismKernel.raw_value() == 18,
        ActivityKind::Preemption.raw_value() == 19,
        ActivityKind::Environment.raw_value() == 20,
        ActivityKind::EventInstance.raw_value() == 21,
        ActivityKind::PeerMemoryCopy.raw_value() == 22,
        ActivityKind::MetricInstance.raw_value() == 23,
        ActivityKind::InstructionExecution.raw_value() == 24,
        ActivityKind::UnifiedMemoryCounter.raw_value() == 25,
        ActivityKind::Function.raw_value() == 26,
        ActivityKind::Module.raw_value() == 27,
        ActivityKind::DeviceAttribute.raw_value() == 28,
        ActivityKind::SharedAccess.raw_value() == 29,
        ActivityKind::PcSampling.raw_value() == 30,
        ActivityKind::PcSamplingRecordInfo.raw_value() == 31,
        ActivityKind::InstructionCorrelation.raw_value() == 32,
        ActivityKind::OpenAccData.raw_value() == 33,
        ActivityKind::OpenAccLaunch.raw_value() == 34,
        ActivityKind::OpenAccOther.raw_value() == 35,
        ActivityKind::CudaEvent.raw_value() == 36,
        ActivityKind::Stream.raw_value() == 37,
        ActivityKind::Synchronization.raw_value() == 38,
        ActivityKind::ExternalCorrelation.raw_value() == 39,
        ActivityKind::NvLink.raw_value() == 40,
        ActivityKind::InstantaneousEvent.raw_value() == 41,
        ActivityKind::InstantaneousEventInstance.raw_value() == 42,
        ActivityKind::InstantaneousMetric.raw_value() == 43,
        ActivityKind::InstantaneousMetricInstance.raw_value() == 44,
        ActivityKind::Memory.raw_value() == 45,
        ActivityKind::Pcie.raw_value() == 46,
        ActivityKind::OpenMultiProcessing.raw_value() == 47,
        ActivityKind::InternalLaunchApi.raw_value() == 48,
        ActivityKind::Memory2.raw_value() == 49,
        ActivityKind::MemoryPool.raw_value() == 50,
        ActivityKind::GraphTrace.raw_value() == 51,
        ActivityKind::Jit.raw_value() == 52,
        ActivityKind::DeviceGraphTrace.raw_value() == 53,
        ActivityKind::MemoryDecompress.raw_value() == 54,
        ActivityKind::ConfidentialComputeRotation.raw_value() == 55,
        ActivityKind::GraphHostNode.raw_value() == 56,
        ActivityKind::ComputeEngineCtxSwitch.raw_value() == 57,
        ActivityKind::HostLaunch.raw_value() == 58,
        ActivityKind::GreenContext.raw_value() == 59,
        ActivityKind::Count.raw_value() == 60,
        ActivityKind::ForceInt.raw_value() == 0x7fffffff,
        ActivityKind::Invalid.c_name() == "CUPTI_ACTIVITY_KIND_INVALID",
        ActivityKind::MemoryCopy.c_name() == "CUPTI_ACTIVITY_KIND_MEMCPY",
        ActivityKind::MemorySet.c_name() == "CUPTI_ACTIVITY_KIND_MEMSET",
        ActivityKind::Kernel.c_name() == "CUPTI_ACTIVITY_KIND_KERNEL",
        ActivityKind::Driver.c_name() == "CUPTI_ACTIVITY_KIND_DRIVER",
        ActivityKind::Runtime.c_name() == "CUPTI_ACTIVITY_KIND_RUNTIME",
        ActivityKind::Event.c_name() == "CUPTI_ACTIVITY_KIND_EVENT",
        ActivityKind::Metric.c_name() == "CUPTI_ACTIVITY_KIND_METRIC",
        ActivityKind::Device.c_name() == "CUPTI_ACTIVITY_KIND_DEVICE",
        ActivityKind::Context.c_name() == "CUPTI_ACTIVITY_KIND_CONTEXT",
        ActivityKind::ConcurrentKernel.c_name() == "CUPTI_ACTIVITY_KIND_CONCURRENT_KERNEL",
        ActivityKind::Name.c_name() == "CUPTI_ACTIVITY_KIND_NAME",
        ActivityKind::Marker.c_name() == "CUPTI_ACTIVITY_KIND_MARKER",
        ActivityKind::MarkerData.c_name() == "CUPTI_ACTIVITY_KIND_MARKER_DATA",
        ActivityKind::SourceLocator.c_name() == "CUPTI_ACTIVITY_KIND_SOURCE_LOCATOR",
        ActivityKind::GlobalAccess.c_name() == "CUPTI_ACTIVITY_KIND_GLOBAL_ACCESS",
        ActivityKind::Branch.c_name() == "CUPTI_ACTIVITY_KIND_BRANCH",
        ActivityKind::Overhead.c_name() == "CUPTI_ACTIVITY_KIND_OVERHEAD",
        ActivityKind::CudaDynamicParallelismKernel.c_name() == "CUPTI_ACTIVITY_KIND_CDP_KERNEL",
        ActivityKind::Preemption.c_name() == "CUPTI_ACTIVITY_KIND_PREEMPTION",
        ActivityKind::Environment.c_name() == "CUPTI_ACTIVITY_KIND_ENVIRONMENT",
        ActivityKind::EventInstance.c_name() == "CUPTI_ACTIVITY_KIND_EVENT_INSTANCE",
        ActivityKind::PeerMemoryCopy.c_name() == "CUPTI_ACTIVITY_KIND_MEMCPY2",
        ActivityKind::MetricInstance.c_name() == "CUPTI_ACTIVITY_KIND_METRIC_INSTANCE",
        ActivityKind::InstructionExecution.c_name() == "CUPTI_ACTIVITY_KIND_INSTRUCTION_EXECUTION",
        ActivityKind::UnifiedMemoryCounter.c_name() == "CUPTI_ACTIVITY_KIND_UNIFIED_MEMORY_COUNTER",
        ActivityKind::Function.c_name() == "CUPTI_ACTIVITY_KIND_FUNCTION",
        ActivityKind::Module.c_name() == "CUPTI_ACTIVITY_KIND_MODULE",
        ActivityKind::DeviceAttribute.c_name() == "CUPTI_ACTIVITY_KIND_DEVICE_ATTRIBUTE",
        ActivityKind::SharedAccess.c_name() == "CUPTI_ACTIVITY_KIND_SHARED_ACCESS",
        ActivityKind::PcSampling.c_name() == "CUPTI_ACTIVITY_KIND_PC_SAMPLING",
        ActivityKind::PcSamplingRecordInfo.c_name() == "CUPTI_ACTIVITY_KIND_PC_SAMPLING_RECORD_INFO",
        ActivityKind::InstructionCorrelation.c_name() == "CUPTI_ACTIVITY_KIND_INSTRUCTION_CORRELATION",
        ActivityKind::OpenAccData.c_name() == "CUPTI_ACTIVITY_KIND_OPENACC_DATA",
        ActivityKind::OpenAccLaunch.c_name() == "CUPTI_ACTIVITY_KIND_OPENACC_LAUNCH",
        ActivityKind::OpenAccOther.c_name() == "CUPTI_ACTIVITY_KIND_OPENACC_OTHER",
        ActivityKind::CudaEvent.c_name() == "CUPTI_ACTIVITY_KIND_CUDA_EVENT",
        ActivityKind::Stream.c_name() == "CUPTI_ACTIVITY_KIND_STREAM",
        ActivityKind::Synchronization.c_name() == "CUPTI_ACTIVITY_KIND_SYNCHRONIZATION",
        ActivityKind::ExternalCorrelation.c_name() == "CUPTI_ACTIVITY_KIND_EXTERNAL_CORRELATION",
        ActivityKind::NvLink.c_name() == "CUPTI_ACTIVITY_KIND_NVLINK",
        ActivityKind::InstantaneousEvent.c_name() == "CUPTI_ACTIVITY_KIND_INSTANTANEOUS_EVENT",
        ActivityKind::InstantaneousEventInstance.c_name() == "CUPTI_ACTIVITY_KIND_INSTANTANEOUS_EVENT_INSTANCE",
        ActivityKind::InstantaneousMetric.c_name() == "CUPTI_ACTIVITY_KIND_INSTANTANEOUS_METRIC",
        ActivityKind::InstantaneousMetricInstance.c_name() == "CUPTI_ACTIVITY_KIND_INSTANTANEOUS_METRIC_INSTANCE",
        ActivityKind::Memory.c_name() == "CUPTI_ACTIVITY_KIND_MEMORY",
        ActivityKind::Pcie.c_name() == "CUPTI_ACTIVITY_KIND_PCIE",
        ActivityKind::OpenMultiProcessing.c_name() == "CUPTI_ACTIVITY_KIND_OPENMP",
        ActivityKind::InternalLaunchApi.c_name() == "CUPTI_ACTIVITY_KIND_INTERNAL_LAUNCH_API",
        ActivityKind::Memory2.c_name() == "CUPTI_ACTIVITY_KIND_MEMORY2",
        ActivityKind::MemoryPool.c_name() == "CUPTI_ACTIVITY_KIND_MEMORY_POOL",
        ActivityKind::GraphTrace.c_name() == "CUPTI_ACTIVITY_KIND_GRAPH_TRACE",
        ActivityKind::Jit.c_name() == "CUPTI_ACTIVITY_KIND_JIT",
        ActivityKind::DeviceGraphTrace.c_name() == "CUPTI_ACTIVITY_KIND_DEVICE_GRAPH_TRACE",
        ActivityKind::MemoryDecompress.c_name() == "CUPTI_ACTIVITY_KIND_MEM_DECOMPRESS",
        ActivityKind::ConfidentialComputeRotation.c_name() == "CUPTI_ACTIVITY_KIND_CONFIDENTIAL_COMPUTE_ROTATION",
        ActivityKind::GraphHostNode.c_name() == "CUPTI_ACTIVITY_KIND_GRAPH_HOST_NODE",
        ActivityKind::ComputeEngineCtxSwitch.c_name() == "CUPTI_ACTIVITY_KIND_COMPUTE_ENGINE_CTX_SWITCH",
        ActivityKind::HostLaunch.c_name() == "CUPTI_ACTIVITY_KIND_HOST_LAUNCH",
        ActivityKind::GreenContext.c_name() == "CUPTI_ACTIVITY_KIND_GREEN_CONTEXT",
        ActivityKind::Count.c_name() == "CUPTI_ACTIVITY_KIND_COUNT",
        ActivityKind::ForceInt.c_name() == "CUPTI_ACTIVITY_KIND_FORCE_INT",
{
}

/// The C values of [`ActivityObjectKind`], as the C header assigns them.
pub proof fn lemma_activity_object_kind_c_values()
    ensures
        ActivityObjectKind::Unknown.raw_value() == 0,
        ActivityObjectKind::Process.raw_value() == 1,
        ActivityObjectKind::Thread.raw_value() == 2,
        ActivityObjectKind::Device.raw_value() == 3,
        ActivityObjectKind::Context.raw_value() == 4,
        ActivityObjectKind::Stream.raw_value() == 5,
        ActivityObjectKind::ForceInt.raw_value() == 0x7fffffff,
{
}

/// The C values of [`ActivityEnvironmentKind`], as the C header assigns them.
pub proof fn lemma_activity_environment_kind_c_values()
    ensures
        ActivityEnvironmentKind::Unknown.raw_value() == 0,
        ActivityEnvironmentKind::Speed.raw_value() == 1,
        ActivityEnvironmentKind::Temperature.raw_value() == 2,
        ActivityEnvironmentKind::Power.raw_value() == 3,
        ActivityEnvironmentKind::Cooling.raw_value() == 4,
        ActivityEnvironmentKind::Count.raw_value() == 5,
        ActivityEnvironmentKind::ForceInt.raw_value() == 0x7fffffff,
{
}

/// The C values of [`PcieDeviceType`], as the C header assigns them.
pub proof fn lemma_pcie_device_type_c_values()
    ensures
        PcieDeviceType::Gpu.raw_value() == 0,
        PcieDeviceType::Bridge.raw_value() == 1,
        PcieDeviceType::ForceInt.raw_value() == 0x7fffffff,
{
}

/// The C values of [`DeviceType`], as the C header assigns them.
pub proof fn lemma_device_type_c_values()
    ensures
        DeviceType::Invalid.raw_value() == 0,
        DeviceType::Gpu.raw_value() == 1,
        DeviceType::Npu.raw_value() == 2,
        DeviceType::ForceInt.raw_value() == 0x7fffffff,
{
}

/// The C values of [`DeviceGraphLaunchMode`], as the C header assigns them.
pub proof fn lemma_device_graph_launch_mode_c_values()
    ensures
        DeviceGraphLaunchMode::Invalid.raw_value() == 0,
        DeviceGraphLaunchMode::FireAndForget.raw_value() == 1,
        DeviceGraphLaunchMode::Tail.raw_value() == 2,
        DeviceGraphLaunchMode::FireAndForgetAsSibling.raw_value() == 3,
{
}

/// The C values of [`ActivityPartitionedGlobalCacheConfig`], as the C header assigns them.
pub proof fn lemma_activity_partitioned_global_cache_config_c_values()
    ensures
        ActivityPartitionedGlobalCacheConfig::Unknown.raw_value() == 0,
        ActivityPartitionedGlobalCacheConfig::NotSupported.raw_value() == 1,
        ActivityPartitionedGlobalCacheConfig::Off.raw_value() == 2,
        ActivityPartitionedGlobalCacheConfig::On.raw_value() == 3,
        ActivityPartitionedGlobalCacheConfig::ForceInt.raw_value() == 0x7fffffff,
{
}

/// The C values of [`FunctionSharedMemoryLimitConfig`], as the C header assigns them.
pub proof fn lemma_function_shared_memory_limit_config_c_values()
    ensures
        FunctionSharedMemoryLimitConfig::Default.raw_value() == 0,
        FunctionSharedMemoryLimitConfig::OptIn.raw_value() == 1,
        FunctionSharedMemoryLimitConfig::ForceInt.raw_value() == 0x7fffffff,
{
}

/// The C values of [`ActivityMemoryCopyKind`], as the C header assigns them.
pub proof fn lemma_activity_memory_copy_kind_c_values()
    ensures
        ActivityMemoryCopyKind::Unknown.raw_value() == 0,
        ActivityMemoryCopyKind::HostToDevice.raw_value() == 1,
        ActivityMemoryCopyKind::DeviceToHost.raw_value() == 2,
        ActivityMemoryCopyKind::HostToArray.raw_value() == 3,
        ActivityMemoryCopyKind::ArrayToHost.raw_value() == 4,
        ActivityMemoryCopyKind::ArrayToArray.raw_value() == 5,
        ActivityMemoryCopyKind::ArrayToDevice.raw_value() == 6,
        ActivityMemoryCopyKind::DeviceToArray.raw_value() == 7,
        ActivityMemoryCopyKind::DeviceToDevice.raw_value() == 8,
        ActivityMemoryCopyKind::HostToHost.raw_value() == 9,
        ActivityMemoryCopyKind::PeerToPeer.raw_value() == 10,
        ActivityMemoryCopyKind::ForceInt.raw_value() == 0x7fffffff,
{
}

/// The C values of [`ActivityMemoryKind`], as the C header assigns them.
pub proof fn lemma_activity_memory_kind_c_values()
    ensures
        ActivityMemoryKind::Unknown.raw_value() == 0,
        ActivityMemoryKind::Pageable.raw_value() == 1,
        ActivityMemoryKind::Pinned.raw_value() == 2,
        ActivityMemoryKind::Device.raw_value() == 3,
        ActivityMemoryKind::Array.raw_value() == 4,
        ActivityMemoryKind::Managed.raw_value() == 5,
        ActivityMemoryKind::DeviceStatic.raw_value() == 6,
        ActivityMemoryKind::ManagedStatic.raw_value() == 7,
        ActivityMemoryKind::ForceInt.raw_value() == 0x7fffffff,
{
}

/// The C values of [`ActivityLaunchType`], as the C header assigns them.
pub proof fn lemma_activity_launch_type_c_values()
    ensures
        ActivityLaunchType::Regular.raw_value() == 0,
        ActivityLaunchType::CooperativeSingleDevice.raw_value() == 1,
        ActivityLaunchType::CooperativeMultiDevice.raw_value() == 2,
        ActivityLaunchType::CblCommandlist.raw_value() == 3,
{
}

/// The C values of [`ActivityComputeApiKind`], as the C header assigns them.
pub proof fn lemma_activity_compute_api_kind_c_values()
    ensures
        ActivityComputeApiKind::Unknown.raw_value() == 0,
        ActivityComputeApiKind::Cuda.raw_value() == 1,
        ActivityComputeApiKind::CudaMultiProcessService.raw_value() == 2,
        ActivityComputeApiKind::ForceInt.raw_value() == 0x7fffffff,
{
}

/// The C values of [`ActivityUnifiedMemoryAccessType`], as the C header assigns them.
pub proof fn lemma_activity_unified_memory_access_type_c_values()
    ensures
        ActivityUnifiedMemoryAccessType::Unknown.raw_value() == 0,
        ActivityUnifiedMemoryAccessType::Read.raw_value() == 1,
        ActivityUnifiedMemoryAccessType::Write.raw_value() == 2,
        ActivityUnifiedMemoryAccessType::Atomic.raw_value() == 3,
        ActivityUnifiedMemoryAccessType::Prefetch.raw_value() == 4,
{
}

/// The C values of [`ActivityUnifiedMemoryMigrationCause`], as the C header assigns them.
pub proof fn lemma_activity_unified_memory_migration_cause_c_values()
    ensures
        ActivityUnifiedMemoryMigrationCause::Unknown.raw_value() == 0,
        ActivityUnifiedMemoryMigrationCause::User.raw_value() == 1,
        ActivityUnifiedMemoryMigrationCause::Coherence.raw_value() == 2,
        ActivityUnifiedMemoryMigrationCause::Prefetch.raw_value() == 3,
        ActivityUnifiedMemoryMigrationCause::Eviction.raw_value() == 4,
        ActivityUnifiedMemoryMigrationCause::AccessCounters.raw_value() == 5,
{
}

/// The C values of [`ActivityUnifiedMemoryRemoteMapCause`], as the C header assigns them.
pub proof fn lemma_activity_unified_memory_remote_map_cause_c_values()
    ensures
        ActivityUnifiedMemoryRemoteMapCause::Unknown.raw_value() == 0,
        ActivityUnifiedMemoryRemoteMapCause::Coherence.raw_value() == 1,
        ActivityUnifiedMemoryRemoteMapCause::Thrashing.raw_value() == 2,
        ActivityUnifiedMemoryRemoteMapCause::Policy.raw_value() == 3,
        ActivityUnifiedMemoryRemoteMapCause::OutOfMemory.raw_value() == 4,
        ActivityUnifiedMemoryRemoteMapCause::Eviction.raw_value() == 5,
{
}

/// The C values of [`CallbackDomain`], as the C header assigns them.
pub proof fn lemma_callback_domain_c_values()
    ensures
        CallbackDomain::Invalid.raw_value() == 0,
        CallbackDomain::DriverApi.raw_value() == 1,
        CallbackDomain::RuntimeApi.raw_value() == 2,
        CallbackDomain::Resource.raw_value() == 3,
        CallbackDomain::Synchronize.raw_value() == 4,
        CallbackDomain::Nvtx.raw_value() == 5,
        CallbackDomain::State.raw_value() == 6,
        CallbackDomain::Size.raw_value() == 7,
        CallbackDomain::ForceInt.raw_value() == 0x7fffffff,
{
}

/// The C values of [`ApiCallbackSite`], as the C header assigns them.
pub proof fn lemma_api_callback_site_c_values()
    ensures
        ApiCallbackSite::Enter.raw_value() == 0,
        ApiCallbackSite::Exit.raw_value() == 1,
        ApiCallbackSite::ForceInt.raw_value() == 0x7fffffff,
{
}

/// The C values of [`EventCollectionMode`], as the C header assigns them.
pub proof fn lemma_event_collection_mode_c_values()
    ensures
        EventCollectionMode::Continuous.raw_value() == 0,
        EventCollectionMode::Kernel.raw_value() == 1,
        EventCollectionMode::ForceInt.raw_value() == 0x7fffffff,
{
}

/// The C values of [`ReadEventFlags`], as the C header assigns them.
pub proof fn lemma_read_event_flags_c_values()
    ensures
        ReadEventFlags::NoFlags.raw_value() == 0,
        ReadEventFlags::ForceInt.raw_value() == 0x7fffffff,
{
}

/// The C values and names of [`CallbackIdResource`], as the C header assigns them.
pub proof fn lemma_callback_id_resource_c_values()
    ensures
        CallbackIdResource::Invalid.raw_value() == 0,
        CallbackIdResource::ContextCreated.raw_value() == 1,
        CallbackIdResource::ContextDestroyStarting.raw_value() == 2,
        CallbackIdResource::StreamCreated.raw_value() == 3,
        CallbackIdResource::StreamDestroyStarting.raw_value() == 4,
        CallbackIdResource::CuInitFinished.raw_value() == 5,
        CallbackIdResource::ModuleLoaded.raw_value() == 6,
        CallbackIdResource::ModuleUnloadStarting.raw_value() == 7,
        CallbackIdResource::ModuleProfiled.raw_value() == 8,
        CallbackIdResource::GraphCreated.raw_value() == 9,
        CallbackIdResource::GraphDestroyStarting.raw_value() == 10,
        CallbackIdResource::GraphCloned.raw_value() == 11,
        CallbackIdResource::GraphNodeCreateStarting.raw_value() == 12,
        CallbackIdResource::GraphNodeCreated.raw_value() == 13,
        CallbackIdResource::GraphNodeDestroyStarting.raw_value() == 14,
        CallbackIdResource::GraphNodeDependencyCreated.raw_value() == 15,
        CallbackIdResource::GraphNodeDependencyDestroyStarting.raw_value() == 16,
        CallbackIdResource::ExecutableGraphCreateStarting.raw_value() == 17,
        CallbackIdResource::ExecutableGraphCreated.raw_value() == 18,
        CallbackIdResource::ExecutableGraphDestroyStarting.raw_value() == 19,
        CallbackIdResource::GraphNodeCloned.raw_value() == 20,
        CallbackIdResource::StreamAttributeChanged.raw_value() == 21,
        CallbackIdResource::GraphNodeUpdated.raw_value() == 22,
        CallbackIdResource::GraphNodeSetParams.raw_value() == 23,
        CallbackIdResource::Size.raw_value() == 24,
        CallbackIdResource::ForceInt.raw_value() == 0x7fffffff,
        CallbackIdResource::Invalid.c_name() == "CUPTI_CBID_RESOURCE_INVALID",
        CallbackIdResource::ContextCreated.c_name() == "CUPTI_CBID_RESOURCE_CONTEXT_CREATED",
        CallbackIdResource::ContextDestroyStarting.c_name() == "CUPTI_CBID_RESOURCE_CONTEXT_DESTROY_STARTING",
        CallbackIdResource::StreamCreated.c_name() == "CUPTI_CBID_RESOURCE_STREAM_CREATED",
        CallbackIdResource::StreamDestroyStarting.c_name() == "CUPTI_CBID_RESOURCE_STREAM_DESTROY_STARTING",
        CallbackIdResource::CuInitFinished.c_name() == "CUPTI_CBID_RESOURCE_CU_INIT_FINISHED",
        CallbackIdResource::ModuleLoaded.c_name() == "CUPTI_CBID_RESOURCE_MODULE_LOADED",
        CallbackIdResource::ModuleUnloadStarting.c_name() == "CUPTI_CBID_RESOURCE_MODULE_UNLOAD_STARTING",
        CallbackIdResource::ModuleProfiled.c_name() == "CUPTI_CBID_RESOURCE_MODULE_PROFILED",
        CallbackIdResource::GraphCreated.c_name() == "CUPTI_CBID_RESOURCE_GRAPH_CREATED",
        CallbackIdResource::GraphDestroyStarting.c_name() == "CUPTI_CBID_RESOURCE_GRAPH_DESTROY_STARTING",
        CallbackIdResource::GraphCloned.c_name() == "CUPTI_CBID_RESOURCE_GRAPH_CLONED",
        CallbackIdResource::GraphNodeCreateStarting.c_name() == "CUPTI_CBID_RESOURCE_GRAPHNODE_CREATE_STARTING",
        CallbackIdResource::GraphNodeCreated.c_name() == "CUPTI_CBID_RESOURCE_GRAPHNODE_CREATED",
        CallbackIdResource::GraphNodeDestroyStarting.c_name() == "CUPTI_CBID_RESOURCE_GRAPHNODE_DESTROY_STARTING",
        CallbackIdResource::GraphNodeDependencyCreated.c_name() == "CUPTI_CBID_RESOURCE_GRAPHNODE_DEPENDENCY_CREATED",
        CallbackIdResource::GraphNodeDependencyDestroyStarting.c_name() == "CUPTI_CBID_RESOURCE_GRAPHNODE_DEPENDENCY_DESTROY_STARTING",
        CallbackIdResource::ExecutableGraphCreateStarting.c_name() == "CUPTI_CBID_RESOURCE_GRAPHEXEC_CREATE_STARTING",
        CallbackIdResource::ExecutableGraphCreated.c_name() == "CUPTI_CBID_RESOURCE_GRAPHEXEC_CREATED",
        CallbackIdResource::ExecutableGraphDestroyStarting.c_name() == "CUPTI_CBID_RESOURCE_GRAPHEXEC_DESTROY_STARTING",
        CallbackIdResource::GraphNodeCloned.c_name() == "CUPTI_CBID_RESOURCE_GRAPHNODE_CLONED",
        CallbackIdResource::StreamAttributeChanged.c_name() == "CUPTI_CBID_RESOURCE_STREAM_ATTRIBUTE_CHANGED",
        CallbackIdResource::GraphNodeUpdated.c_name() == "CUPTI_CBID_RESOURCE_GRAPH_NODE_UPDATED",
        CallbackIdResource::GraphNodeSetParams.c_name() == "CUPTI_CBID_RESOURCE_GRAPH_NODE_SET_PARAMS",
        CallbackIdResource::Size.c_name() == "CUPTI_CBID_RESOURCE_SIZE",
        CallbackIdResource::ForceInt.c_name() == "CUPTI_CBID_RESOURCE_FORCE_INT",
{
}

/// The C values of [`CallbackIdSync`], as the C header assigns them.
pub proof fn lemma_callback_id_sync_c_values()
    ensures
        CallbackIdSync::Invalid.raw_value() == 0,
        CallbackIdSync::StreamSynchronized.raw_value() == 1,
        CallbackIdSync::ContextSynchronized.raw_value() == 2,
        CallbackIdSync::Size.raw_value() == 3,
        CallbackIdSync::ForceInt.raw_value() == 0x7fffffff,
{
}

/// The C values of [`CallbackIdState`], as the C header assigns them.
pub proof fn lemma_callback_id_state_c_values()
    ensures
        CallbackIdState::Invalid.raw_value() == 0,
        CallbackIdState::FatalError.raw_value() == 1,
        CallbackIdState::Error.raw_value() == 2,
        CallbackIdState::Warning.raw_value() == 3,
        CallbackIdState::Size.raw_value() == 4,
        CallbackIdState::ForceInt.raw_value() == 0x7fffffff,
{
}

/// The C values of [`DeviceVirtualizationMode`], as the C header assigns them.
pub proof fn lemma_device_virtualization_mode_c_values()
    ensures
        DeviceVirtualizationMode::NoVirtualization.raw_value() == 0,
        DeviceVirtualizationMode::PassThrough.raw_value() == 1,
        DeviceVirtualizationMode::VirtualGpu.raw_value() == 2,
        DeviceVirtualizationMode::ForceInt.raw_value() == 0x7fffffff,
{
}

/// The C values of [`ActivityPcSamplingPeriod`], as the C header assigns them.
pub proof fn lemma_activity_pc_sampling_period_c_values()
    ensures
        ActivityPcSamplingPeriod::Invalid.raw_value() == 0,
        ActivityPcSamplingPeriod::Min.raw_value() == 1,
        ActivityPcSamplingPeriod::Low.raw_value() == 2,
        ActivityPcSamplingPeriod::Mid.raw_value() == 3,
        ActivityPcSamplingPeriod::High.raw_value() == 4,
        ActivityPcSamplingPeriod::Max.raw_value() == 5,
        ActivityPcSamplingPeriod::ForceInt.raw_value() == 0x7fffffff,
{
}

/// The C values of [`ActivityUnifiedMemoryCounterScope`], as the C header assigns them.
pub proof fn lemma_activity_unified_memory_counter_scope_c_values()
    ensures
        ActivityUnifiedMemoryCounterScope::Unknown.raw_value() == 0,
        ActivityUnifiedMemoryCounterScope::ProcessSingleDevice.raw_value() == 1,
        ActivityUnifiedMemoryCounterScope::ProcessAllDevices.raw_value() == 2,
        ActivityUnifiedMemoryCounterScope::Count.raw_value() == 3,
        ActivityUnifiedMemoryCounterScope::ForceInt.raw_value() == 0x7fffffff,
{
}

/// The C values of [`ActivityInstructionClass`], as the C header assigns them.
pub proof fn lemma_activity_instruction_class_c_values()
    ensures
        ActivityInstructionClass::Unknown.raw_value() == 0,
        ActivityInstructionClass::Float32.raw_value() == 1,
        ActivityInstructionClass::Float64.raw_value() == 2,
        ActivityInstructionClass::Integer.raw_value() == 3,
        ActivityInstructionClass::BitConversion.raw_value() == 4,
        ActivityInstructionClass::ControlFlow.raw_value() == 5,
        ActivityInstructionClass::Global.raw_value() == 6,
        ActivityInstructionClass::Shared.raw_value() == 7,
        ActivityInstructionClass::Local.raw_value() == 8,
        ActivityInstructionClass::Generic.raw_value() == 9,
        ActivityInstructionClass::Surface.raw_value() == 10,
        ActivityInstructionClass::Constant.raw_value() == 11,
        ActivityInstructionClass::Texture.raw_value() == 12,
        ActivityInstructionClass::GlobalAtomic.raw_value() == 13,
        ActivityInstructionClass::SharedAtomic.raw_value() == 14,
        ActivityInstructionClass::SurfaceAtomic.raw_value() == 15,
        ActivityInstructionClass::InterThreadCommunication.raw_value() == 16,
        ActivityInstructionClass::Barrier.raw_value() == 17,
        ActivityInstructionClass::Miscellaneous.raw_value() == 18,
        ActivityInstructionClass::Float16.raw_value() == 19,
        ActivityInstructionClass::Uniform.raw_value() == 20,
        ActivityInstructionClass::ForceInt.raw_value() == 0x7fffffff,
{
}

/// The C values of [`MetricValueUtilizationLevel`], as the C header assigns them.
pub proof fn lemma_metric_value_utilization_level_c_values()
    ensures
        MetricValueUtilizationLevel::Idle.raw_value() == 0,
        MetricValueUtilizationLevel::Low.raw_value() == 2,
        MetricValueUtilizationLevel::Mid.raw_value() == 5,
        MetricValueUtilizationLevel::High.raw_value() == 8,
        MetricValueUtilizationLevel::Max.raw_value() == 10,
        MetricValueUtilizationLevel::ForceInt.raw_value() == 0x7fffffff,
{
}

/// The C values of [`MetricPropertyDeviceClass`], as the C header assigns them.
pub proof fn lemma_metric_property_device_class_c_values()
    ensures
        MetricPropertyDeviceClass::Tesla.raw_value() == 0,
        MetricPropertyDeviceClass::Quadro.raw_value() == 1,
        MetricPropertyDeviceClass::Geforce.raw_value() == 2,
        MetricPropertyDeviceClass::Tegra.raw_value() == 3,
{
}

/// The C values of [`MetricPropertyId`], as the C header assigns them.
pub proof fn lemma_metric_property_id_c_values()
    ensures
        MetricPropertyId::MultiprocessorCount.raw_value() == 0,
        MetricPropertyId::WarpsPerMultiprocessor.raw_value() == 1,
        MetricPropertyId::KernelGpuTime.raw_value() == 2,
        MetricPropertyId::ClockRate.raw_value() == 3,
        MetricPropertyId::FrameBufferCount.raw_value() == 4,
        MetricPropertyId::GlobalMemoryBandwidth.raw_value() == 5,
        MetricPropertyId::PcieLinkRate.raw_value() == 6,
        MetricPropertyId::PcieLinkWidth.raw_value() == 7,
        MetricPropertyId::PcieGeneration.raw_value() == 8,
        MetricPropertyId::DeviceClass.raw_value() == 9,
        MetricPropertyId::FlopSpPerCycle.raw_value() == 10,
        MetricPropertyId::FlopDpPerCycle.raw_value() == 11,
        MetricPropertyId::L2Units.raw_value() == 12,
        MetricPropertyId::EccEnabled.raw_value() == 13,
        MetricPropertyId::FlopHpPerCycle.raw_value() == 14,
        MetricPropertyId::GpuCentralProcessingUnitNvLinkBandwidth.raw_value() == 15,
{
}

/// The C values of [`ActivityUnifiedMemoryCounterKind`], as the C header assigns them.
pub proof fn lemma_activity_unified_memory_counter_kind_c_values()
    ensures
        ActivityUnifiedMemoryCounterKind::Unknown.raw_value() == 0,
        ActivityUnifiedMemoryCounterKind::BytesTransferHostToDevice.raw_value() == 1,
        ActivityUnifiedMemoryCounterKind::BytesTransferDeviceToHost.raw_value() == 2,
        ActivityUnifiedMemoryCounterKind::CentralProcessingUnitPageFaultCount.raw_value() == 3,
        ActivityUnifiedMemoryCounterKind::GpuPageFault.raw_value() == 4,
        ActivityUnifiedMemoryCounterKind::Thrashing.raw_value() == 5,
        ActivityUnifiedMemoryCounterKind::Throttling.raw_value() == 6,
        ActivityUnifiedMemoryCounterKind::RemoteMap.raw_value() == 7,
        ActivityUnifiedMemoryCounterKind::BytesTransferDeviceToDevice.raw_value() == 8,
        ActivityUnifiedMemoryCounterKind::Count.raw_value() == 9,
        ActivityUnifiedMemoryCounterKind::ForceInt.raw_value() == 0x7fffffff,
{
}

/// Every [`DeviceAttribute`] is named by its own variant.
pub proof fn lemma_device_attribute_names_are_variants()
    ensures
        DeviceAttribute::MaxEventId.variant_name() == "MaxEventId",
        DeviceAttribute::MaxEventDomainId.variant_name() == "MaxEventDomainId",
        DeviceAttribute::GlobalMemoryBandwidth.variant_name() == "GlobalMemoryBandwidth",
        DeviceAttribute::InstructionPerCycle.variant_name() == "InstructionPerCycle",
        DeviceAttribute::InstructionThroughputSp.variant_name() == "InstructionThroughputSp",
        DeviceAttribute::MaxFrameBuffers.variant_name() == "MaxFrameBuffers",
        DeviceAttribute::PcieLinkRate.variant_name() == "PcieLinkRate",
        DeviceAttribute::PcieLinkWidth.variant_name() == "PcieLinkWidth",
        DeviceAttribute::PcieGeneration.variant_name() == "PcieGeneration",
        DeviceAttribute::DeviceClass.variant_name() == "DeviceClass",
        DeviceAttribute::FlopSpPerCycle.variant_name() == "FlopSpPerCycle",
        DeviceAttribute::FlopDpPerCycle.variant_name() == "FlopDpPerCycle",
        DeviceAttribute::MaxL2Units.variant_name() == "MaxL2Units",
        DeviceAttribute::MaxSharedMemoryCacheConfigPreferShared.variant_name() == "MaxSharedMemoryCacheConfigPreferShared",
        DeviceAttribute::MaxSharedMemoryCacheConfigPreferL1.variant_name() == "MaxSharedMemoryCacheConfigPreferL1",
        DeviceAttribute::MaxSharedMemoryCacheConfigPreferEqual.variant_name() == "MaxSharedMemoryCacheConfigPreferEqual",
        DeviceAttribute::FlopHpPerCycle.variant_name() == "FlopHpPerCycle",
        DeviceAttribute::NvLinkPresent.variant_name() == "NvLinkPresent",
        DeviceAttribute::GpuCentralProcessingUnitNvLinkBandwidth.variant_name() == "GpuCentralProcessingUnitNvLinkBandwidth",
        DeviceAttribute::NvSwitchPresent.variant_name() == "NvSwitchPresent",
        DeviceAttribute::ForceInt.variant_name() == "ForceInt",
{
}

/// Every [`ActivityAttribute`] is named by its own variant.
pub proof fn lemma_activity_attribute_names_are_variants()
    ensures
        ActivityAttribute::DeviceBufferSize.variant_name() == "DeviceBufferSize",
        ActivityAttribute::DeviceBufferSizeCudaDynamicParallelism.variant_name() == "DeviceBufferSizeCudaDynamicParallelism",
        ActivityAttribute::DeviceBufferPoolLimit.variant_name() == "DeviceBufferPoolLimit",
        ActivityAttribute::ProfilingSemaphorePoolSize.variant_name() == "ProfilingSemaphorePoolSize",
        ActivityAttribute::ProfilingSemaphorePoolLimit.variant_name() == "ProfilingSemaphorePoolLimit",
        ActivityAttribute::ZeroedOutActivityBuffer.variant_name() == "ZeroedOutActivityBuffer",
        ActivityAttribute::DeviceBufferPreAllocateValue.variant_name() == "DeviceBufferPreAllocateValue",
        ActivityAttribute::ProfilingSemaphorePreAllocateValue.variant_name() == "ProfilingSemaphorePreAllocateValue",
        ActivityAttribute::MemAllocationTypeHostPinned.variant_name() == "MemAllocationTypeHostPinned",
        ActivityAttribute::PerThreadActivityBuffer.variant_name() == "PerThreadActivityBuffer",
        ActivityAttribute::DeviceBufferSizeDeviceGraphs.variant_name() == "DeviceBufferSizeDeviceGraphs",
        ActivityAttribute::UserDefinedRecords.variant_name() == "UserDefinedRecords",
        ActivityAttribute::MultipleSubscriberState.variant_name() == "MultipleSubscriberState",
        ActivityAttribute::EnableHes.variant_name() == "EnableHes",
        ActivityAttribute::EnableAllocationSourceTracking.variant_name() == "EnableAllocationSourceTracking",
        ActivityAttribute::EnableKernelLatencyTimestamps.variant_name() == "EnableKernelLatencyTimestamps",
        ActivityAttribute::EnableAllSyncRecords.variant_name() == "EnableAllSyncRecords",
        ActivityAttribute::EnableCudaEventDeviceTimestamps.variant_name() == "EnableCudaEventDeviceTimestamps",
        ActivityAttribute::EnableKernelLaunchAttributes.variant_name() == "EnableKernelLaunchAttributes",
        ActivityAttribute::EnableDeviceGraphTrace.variant_name() == "EnableDeviceGraphTrace",
        ActivityAttribute::EnableMultiSubscriberGraphLevelTrace.variant_name() == "EnableMultiSubscriberGraphLevelTrace",
        ActivityAttribute::ThreadIdType.variant_name() == "ThreadIdType",
        ActivityAttribute::TimestampCallback.variant_name() == "TimestampCallback",
        ActivityAttribute::CigMode.variant_name() == "CigMode",
        ActivityAttribute::DeviceBufferForceInt.variant_name() == "DeviceBufferForceInt",
{
}

/// Every [`EventGroupAttribute`] is named by its own variant.
pub proof fn lemma_event_group_attribute_names_are_variants()
    ensures
        EventGroupAttribute::EventDomainId.variant_name() == "EventDomainId",
        EventGroupAttribute::ProfileAllDomainInstances.variant_name() == "ProfileAllDomainInstances",
        EventGroupAttribute::UserData.variant_name() == "UserData",
        EventGroupAttribute::NumEvents.variant_name() == "NumEvents",
        EventGroupAttribute::Events.variant_name() == "Events",
        EventGroupAttribute::InstanceCount.variant_name() == "InstanceCount",
        EventGroupAttribute::ProfilingScope.variant_name() == "ProfilingScope",
        EventGroupAttribute::ForceInt.variant_name() == "ForceInt",
{
}

/// Every [`EventAttribute`] is named by its own variant.
pub proof fn lemma_event_attribute_names_are_variants()
    ensures
        EventAttribute::Name.variant_name() == "Name",
        EventAttribute::ShortDescription.variant_name() == "ShortDescription",
        EventAttribute::LongDescription.variant_name() == "LongDescription",
        EventAttribute::Category.variant_name() == "Category",
        EventAttribute::ProfilingScope.variant_name() == "ProfilingScope",
        EventAttribute::ForceInt.variant_name() == "ForceInt",
{
}

/// Every [`EventDomainAttribute`] is named by its own variant.
pub proof fn lemma_event_domain_attribute_names_are_variants()
    ensures
        EventDomainAttribute::Name.variant_name() == "Name",
        EventDomainAttribute::InstanceCount.variant_name() == "InstanceCount",
        EventDomainAttribute::TotalInstanceCount.variant_name() == "TotalInstanceCount",
        EventDomainAttribute::CollectionMethod.variant_name() == "CollectionMethod",
        EventDomainAttribute::ForceInt.variant_name() == "ForceInt",
{
}

/// Every [`MetricAttribute`] is named by its own variant.
pub proof fn lemma_metric_attribute_names_are_variants()
    ensures
        MetricAttribute::Name.variant_name() == "Name",
        MetricAttribute::ShortDescription.variant_name() == "ShortDescription",
        MetricAttribute::LongDescription.variant_name() == "LongDescription",
        MetricAttribute::Category.variant_name() == "Category",
        MetricAttribute::ValueKind.variant_name() == "ValueKind",
        MetricAttribute::EvaluationMode.variant_name() == "EvaluationMode",
        MetricAttribute::ForceInt.variant_name() == "ForceInt",
{
}

} // verus!
