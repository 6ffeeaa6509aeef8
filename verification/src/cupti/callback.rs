//! Callback subscriptions: the payload pointer CUPTI hands to a callback, the view of
//! that payload that each callback domain selects, and subscriber parameters.
use vstd::prelude::*;
use vstd::string::StringSliceAdditionalSpecFns;
use crate::cupti::error::{status_code, Error, Result, Status};
use crate::cupti::event::{is_ascii_bytes, utf8_lossy, utf8_lossy_bytes_string};
use crate::cupti::types::{ApiCallbackSite, CallbackDomain, CallbackId, ContextId, CorrelationId};
use crate::cupti::utility::c_string_bytes;
use crate::cupti::types::group_id_views;

verus! {

broadcast use group_id_views;

/// Address of the payload CUPTI passed to a callback; 0 for a null pointer.
#[derive(Debug, Clone, Copy, PartialEq, Eq, Structural)]
pub struct CallbackDataPointer {
    address: usize,
}

/// Which payload layout a callback's data has, as its domain selects.
#[derive(Debug, Clone, Copy, PartialEq, Eq, Hash, Structural)]
#[non_exhaustive]
pub enum CallbackDataKind {
    /// Driver or runtime API callback data.
    Api,
    /// NVTX callback data.
    Nvtx,
    /// Resource callback data.
    Resource,
    /// Synchronization callback data.
    Synchronize,
    /// State notification data.
    State,
    /// A domain without a payload layout.
    Unknown,
}

/// The payload layout of callbacks in `domain`.
pub open spec fn callback_data_kind_of(domain: CallbackDomain) -> CallbackDataKind {
    match domain {
        CallbackDomain::DriverApi | CallbackDomain::RuntimeApi => CallbackDataKind::Api,
        CallbackDomain::Resource => CallbackDataKind::Resource,
        CallbackDomain::Synchronize => CallbackDataKind::Synchronize,
        CallbackDomain::State => CallbackDataKind::State,
        CallbackDomain::Nvtx => CallbackDataKind::Nvtx,
        _ => CallbackDataKind::Unknown,
    }
}

/// Returns the payload layout of callbacks in `domain`: API data for the driver and
/// runtime API domains, the resource, synchronization, state or NVTX layout for those
/// domains, and `Unknown` for any other.
pub fn callback_data_kind(domain: CallbackDomain) -> (r: CallbackDataKind)
    ensures
        r == callback_data_kind_of(domain),
{
    match domain {
        CallbackDomain::DriverApi | CallbackDomain::RuntimeApi => CallbackDataKind::Api,
        CallbackDomain::Resource => CallbackDataKind::Resource,
        CallbackDomain::Synchronize => CallbackDataKind::Synchronize,
        CallbackDomain::State => CallbackDataKind::State,
        CallbackDomain::Nvtx => CallbackDataKind::Nvtx,
        _ => CallbackDataKind::Unknown,
    }
}

impl CallbackDataPointer {
    /// The payload address.
    pub closed spec fn spec_address(self) -> usize {
        self.address
    }

    /// The pointer with address `address`.
    pub fn new(address: usize) -> (r: Self)
        ensures
            r.spec_address() == address,
    {
        CallbackDataPointer { address }
    }

    /// Returns the payload address.
    pub fn address(self) -> (r: usize)
        ensures
            r == self.spec_address(),
    {
        self.address
    }

    /// Returns `true` if CUPTI passed no payload.
    pub fn is_null(self) -> (r: bool)
        ensures
            r == (self.spec_address() == 0),
    {
        self.address == 0
    }

    /// The payload layout under which the payload of a callback in `domain` is
    /// decoded, or `None` when there is no payload to decode.
    pub fn decoded_kind(self, domain: CallbackDomain) -> (r: Option<CallbackDataKind>)
        ensures
            r == (if self.spec_address() == 0 {
                None
            } else {
                Some(callback_data_kind_of(domain))
            }),
    {
        if self.is_null() {
            return None;
        }
        Some(callback_data_kind(domain))
    }
}

/// API callback data as CUPTI fills it: the callback site's C value, the function and
/// symbol names (the bytes before the terminating nul, `None` for a null pointer), and
/// the context and correlation identifiers.
#[derive(Debug, Clone, PartialEq, Eq)]
pub struct RawApiCallbackData {
    pub callback_site: u32,
    pub function_name: Option<Vec<u8>>,
    pub symbol_name: Option<Vec<u8>>,
    pub context_uid: u32,
    pub correlation_id: u32,
}

/// NVTX callback data as CUPTI fills it.
#[derive(Debug, Clone, PartialEq, Eq)]
pub struct RawNvtxData {
    pub function_name: Option<Vec<u8>>,
}

/// Resource callback data as CUPTI fills it: the addresses of the context and of the
/// resource descriptor, 0 for null.
#[derive(Debug, Clone, Copy, PartialEq, Eq, Structural)]
pub struct RawResourceData {
    pub context: usize,
    pub resource_descriptor: usize,
}

/// Synchronization callback data as CUPTI fills it: the addresses of the context and
/// of the stream, 0 for null.
#[derive(Debug, Clone, Copy, PartialEq, Eq, Structural)]
pub struct RawSynchronizeData {
    pub context: usize,
    pub stream: usize,
}

/// State notification data as CUPTI fills it: the result code and the message.
#[derive(Debug, Clone, PartialEq, Eq)]
pub struct RawStateData {
    pub result: u32,
    pub message: Option<Vec<u8>>,
}

/// The payload of a callback, copied in the layout that its domain selects
/// ([`callback_data_kind`]).
#[derive(Debug, Clone, PartialEq, Eq)]
pub enum RawCallbackData {
    Api(RawApiCallbackData),
    Nvtx(RawNvtxData),
    Resource(RawResourceData),
    Synchronize(RawSynchronizeData),
    State(RawStateData),
}

/// API callback data.
#[derive(Debug, Clone, PartialEq, Eq)]
pub struct ApiCallbackData {
    pub raw: RawApiCallbackData,
}

/// The callback site of the C value `value`, or `ForceInt`, CUPTI's reserved value,
/// for a value the enum does not define.
pub open spec fn api_callback_site_of(value: u32) -> ApiCallbackSite {
    if exists|s: ApiCallbackSite| s.raw_value() == value {
        choose|s: ApiCallbackSite| s.raw_value() == value
    } else {
        ApiCallbackSite::ForceInt
    }
}

/// The status of the CUPTI result code `code`, or `Unknown` for a code CUPTI does not
/// define.
pub open spec fn result_status_of(code: u32) -> Status {
    if exists|s: Status| status_code(s) == code {
        choose|s: Status| status_code(s) == code
    } else {
        Status::Unknown
    }
}

impl ApiCallbackData {
    /// The fields as CUPTI filled them.
    pub open spec fn spec_raw(&self) -> RawApiCallbackData {
        self.raw
    }

    /// Whether the callback is made on entry to or exit from the API function.
    pub fn site(&self) -> (r: ApiCallbackSite)
        ensures
            r == api_callback_site_of(self.spec_raw().callback_site),
    {
        match ApiCallbackSite::try_from_raw(self.raw.callback_site) {
            Some(site) => site,
            None => ApiCallbackSite::ForceInt,
        }
    }

    /// The name of the API function, `None` for a null name.
    pub fn function_name(&self) -> (r: Option<&[u8]>)
        ensures
            match r {
                Some(b) => self.spec_raw().function_name matches Some(n) && b@ == n@,
                None => self.spec_raw().function_name is None,
            },
    {
        match &self.raw.function_name {
            Some(name) => Some(name.as_slice()),
            None => None,
        }
    }

    /// The name of the symbol the call concerns (such as a kernel), `None` for a null
    /// name.
    pub fn symbol_name(&self) -> (r: Option<&[u8]>)
        ensures
            match r {
                Some(b) => self.spec_raw().symbol_name matches Some(n) && b@ == n@,
                None => self.spec_raw().symbol_name is None,
            },
    {
        match &self.raw.symbol_name {
            Some(name) => Some(name.as_slice()),
            None => None,
        }
    }

    /// The unique identifier of the context of the call.
    pub fn context_id(&self) -> (r: ContextId)
        ensures
            r == ContextId::of(self.spec_raw().context_uid),
    {
        ContextId::from(self.raw.context_uid)
    }

    /// The correlation identifier of the call.
    pub fn correlation_id(&self) -> (r: CorrelationId)
        ensures
            r == CorrelationId::of(self.spec_raw().correlation_id),
    {
        CorrelationId::from(self.raw.correlation_id)
    }
}

/// NVTX callback data.
#[derive(Debug, Clone, PartialEq, Eq)]
pub struct NvtxData {
    pub raw: RawNvtxData,
}

impl NvtxData {
    /// The fields as CUPTI filled them.
    pub open spec fn spec_raw(&self) -> RawNvtxData {
        self.raw
    }

    /// The name of the NVTX function, `None` for a null name.
    pub fn function_name(&self) -> (r: Option<&[u8]>)
        ensures
            match r {
                Some(b) => self.spec_raw().function_name matches Some(n) && b@ == n@,
                None => self.spec_raw().function_name is None,
            },
    {
        match &self.raw.function_name {
            Some(name) => Some(name.as_slice()),
            None => None,
        }
    }
}

/// Resource callback data.
#[derive(Debug, Clone, Copy, PartialEq, Eq, Structural)]
pub struct ResourceData {
    pub raw: RawResourceData,
}

impl ResourceData {
    /// The fields as CUPTI filled them.
    pub open spec fn spec_raw(&self) -> RawResourceData {
        self.raw
    }

    /// Whether the data names a context.
    pub fn has_context(&self) -> (r: bool)
        ensures
            r == (self.spec_raw().context != 0),
    {
        self.raw.context != 0
    }

    /// Whether the data carries a resource descriptor.
    pub fn has_resource_descriptor(&self) -> (r: bool)
        ensures
            r == (self.spec_raw().resource_descriptor != 0),
    {
        self.raw.resource_descriptor != 0
    }
}

/// Synchronization callback data.
#[derive(Debug, Clone, Copy, PartialEq, Eq, Structural)]
pub struct SynchronizeData {
    pub raw: RawSynchronizeData,
}

impl SynchronizeData {
    /// The fields as CUPTI filled them.
    pub open spec fn spec_raw(&self) -> RawSynchronizeData {
        self.raw
    }

    /// Whether the data names a context.
    pub fn has_context(&self) -> (r: bool)
        ensures
            r == (self.spec_raw().context != 0),
    {
        self.raw.context != 0
    }

    /// Whether the data names a stream.
    pub fn has_stream(&self) -> (r: bool)
        ensures
            r == (self.spec_raw().stream != 0),
    {
        self.raw.stream != 0
    }
}

/// State notification data.
#[derive(Debug, Clone, PartialEq, Eq)]
pub struct StateData {
    pub raw: RawStateData,
}

impl StateData {
    /// The fields as CUPTI filled them.
    pub open spec fn spec_raw(&self) -> RawStateData {
        self.raw
    }

    /// The status the notification reports.
    pub fn notification_result(&self) -> (r: Status)
        ensures
            r == result_status_of(self.spec_raw().result),
    {
        match Status::try_from_raw(self.raw.result) {
            Some(status) => status,
            None => Status::Unknown,
        }
    }

    /// The notification's message, `None` for a null message.
    pub fn notification_message(&self) -> (r: Option<&[u8]>)
        ensures
            match r {
                Some(b) => self.spec_raw().message matches Some(n) && b@ == n@,
                None => self.spec_raw().message is None,
            },
    {
        match &self.raw.message {
            Some(message) => Some(message.as_slice()),
            None => None,
        }
    }
}

/// The payload of a callback, read in the layout its domain selects.
#[derive(Debug, Clone, PartialEq, Eq)]
#[non_exhaustive]
pub enum CallbackData {
    Api(ApiCallbackData),
    Nvtx(NvtxData),
    Resource(ResourceData),
    Synchronize(SynchronizeData),
    State(StateData),
    Unknown,
}

/// The payload `raw` of a callback in `domain`, read in the layout the domain selects;
/// `Unknown` for a domain without a payload layout, or for a payload not copied in
/// the domain's layout.
pub open spec fn callback_data_of(domain: CallbackDomain, raw: RawCallbackData) -> CallbackData {
    match (callback_data_kind_of(domain), raw) {
        (CallbackDataKind::Api, RawCallbackData::Api(v)) => CallbackData::Api(ApiCallbackData { raw: v }),
        (CallbackDataKind::Nvtx, RawCallbackData::Nvtx(v)) => CallbackData::Nvtx(NvtxData { raw: v }),
        (CallbackDataKind::Resource, RawCallbackData::Resource(v)) => CallbackData::Resource(ResourceData { raw: v }),
        (CallbackDataKind::Synchronize, RawCallbackData::Synchronize(v)) => CallbackData::Synchronize(
            SynchronizeData { raw: v },
        ),
        (CallbackDataKind::State, RawCallbackData::State(v)) => CallbackData::State(StateData { raw: v }),
        _ => CallbackData::Unknown,
    }
}

/// Reads the payload `raw` of a callback in `domain` in the layout the domain selects.
pub fn callback_data_from_raw(domain: CallbackDomain, raw: RawCallbackData) -> (r: CallbackData)
    ensures
        r == callback_data_of(domain, raw),
{
    match (callback_data_kind(domain), raw) {
        (CallbackDataKind::Api, RawCallbackData::Api(v)) => CallbackData::Api(ApiCallbackData { raw: v }),
        (CallbackDataKind::Nvtx, RawCallbackData::Nvtx(v)) => CallbackData::Nvtx(NvtxData { raw: v }),
        (CallbackDataKind::Resource, RawCallbackData::Resource(v)) => CallbackData::Resource(ResourceData { raw: v }),
        (CallbackDataKind::Synchronize, RawCallbackData::Synchronize(v)) => CallbackData::Synchronize(
            SynchronizeData { raw: v },
        ),
        (CallbackDataKind::State, RawCallbackData::State(v)) => CallbackData::State(StateData { raw: v }),
        _ => CallbackData::Unknown,
    }
}

impl CallbackDataPointer {
    /// Hands the payload of a callback in `domain` to `f`, read in the layout the
    /// domain selects from `raw` (the payload at this address, as copied), and returns
    /// what `f` returns; `None`, without calling `f`, for a null pointer.
    pub fn with_decoded<R, F: FnOnce(CallbackData) -> R>(self, domain: CallbackDomain, raw: RawCallbackData, f: F) -> (r:
        Option<R>)
        requires
            self.spec_address() != 0 ==> f.requires((callback_data_of(domain, raw),)),
        ensures
            self.spec_address() == 0 ==> r is None,
            self.spec_address() != 0 ==> (r matches Some(v) && f.ensures((callback_data_of(domain, raw),), v)),
    {
        if self.is_null() {
            return None;
        }
        Some(f(callback_data_from_raw(domain, raw)))
    }
}

/// Minimum length in bytes of the buffer into which CUPTI writes the name of a
/// subscriber already present (`CUPTI_OLD_SUBSCRIBER_NAME_MIN_LEN`).
pub const OLD_SUBSCRIBER_NAME_MIN_LEN: usize = 64;

/// Size in bytes of CUPTI's subscriber parameter structure: a size word, two
/// pointers, a length word, and a flag byte padded to eight bytes.
pub const SUBSCRIBER_PARAMS_STRUCT_SIZE: u64 = 40;

/// The subscriber parameter structure as CUPTI reads it, with each pointer told by
/// whether it is null.
#[derive(Debug, Clone, Copy, PartialEq, Eq, Structural)]
pub struct RawSubscriberParams {
    pub struct_size: u64,
    pub has_subscriber_name: bool,
    pub has_old_subscriber_name: bool,
    pub old_subscriber_size: u64,
    pub allow_multiple_subscribers: u8,
}

/// Parameters for creating a subscriber.
#[derive(Debug, Clone)]
pub struct SubscriberParams {
    subscriber_name: Option<Vec<u8>>,
    old_subscriber_name: Vec<u8>,
    allow_multiple_subscribers: bool,
}

impl SubscriberParams {
    /// The subscriber name's bytes, without the terminating nul, if one is set.
    pub closed spec fn spec_subscriber_name(&self) -> Option<Seq<u8>> {
        match self.subscriber_name {
            Some(name) => Some(name@),
            None => None,
        }
    }

    /// The buffer into which CUPTI writes the name of a subscriber already present.
    pub closed spec fn spec_old_subscriber_name(&self) -> Seq<u8> {
        self.old_subscriber_name@
    }

    /// Whether the subscriber may coexist with other subscribers.
    pub closed spec fn spec_allow_multiple_subscribers(&self) -> bool {
        self.allow_multiple_subscribers
    }

    /// Parameters with no subscriber name, an old-subscriber-name buffer of
    /// [`OLD_SUBSCRIBER_NAME_MIN_LEN`] zero bytes, and multiple subscribers not allowed.
    pub fn new() -> (r: Self)
        ensures
            r.spec_subscriber_name() is None,
            r.spec_old_subscriber_name() == Seq::new(OLD_SUBSCRIBER_NAME_MIN_LEN as nat, |i: int| 0u8),
            !r.spec_allow_multiple_subscribers(),
    {
        let mut buffer: Vec<u8> = Vec::new();
        let mut i: usize = 0;
        while i < OLD_SUBSCRIBER_NAME_MIN_LEN
            invariant
                i <= OLD_SUBSCRIBER_NAME_MIN_LEN,
                buffer@ == Seq::new(i as nat, |j: int| 0u8),
            decreases OLD_SUBSCRIBER_NAME_MIN_LEN - i,
        {
            buffer.push(0u8);
            i += 1;
            assert(buffer@ =~= Seq::new(i as nat, |j: int| 0u8));
        }
        SubscriberParams { subscriber_name: None, old_subscriber_name: buffer, allow_multiple_subscribers: false }
    }

    /// The fields of the parameter structure handed to `cuptiSubscribe_v2`, with each
    /// pointer told by whether it is null.
    pub fn as_raw_fields(&self) -> (r: RawSubscriberParams)
        ensures
            r == (RawSubscriberParams {
                struct_size: SUBSCRIBER_PARAMS_STRUCT_SIZE,
                has_subscriber_name: self.spec_subscriber_name() is Some,
                has_old_subscriber_name: self.spec_old_subscriber_name().len() != 0,
                old_subscriber_size: self.spec_old_subscriber_name().len() as u64,
                allow_multiple_subscribers: if self.spec_allow_multiple_subscribers() { 1u8 } else { 0u8 },
            }),
    {
        RawSubscriberParams {
            struct_size: SUBSCRIBER_PARAMS_STRUCT_SIZE,
            has_subscriber_name: self.subscriber_name.is_some(),
            has_old_subscriber_name: self.old_subscriber_name.len() != 0,
            old_subscriber_size: self.old_subscriber_name.len() as u64,
            allow_multiple_subscribers: if self.allow_multiple_subscribers { 1 } else { 0 },
        }
    }

    /// The same parameters with subscriber name `name`; a name holding a nul byte is
    /// refused with `Error::InteriorNul`.
    pub fn with_subscriber_name(self, name: &str) -> (r: Result<Self>)
        ensures
            name.spec_bytes().contains(0u8) ==> (r matches Err(Error::InteriorNul)),
            !name.spec_bytes().contains(0u8) ==> (r matches Ok(p) && p.spec_subscriber_name() == Some(
                name.spec_bytes(),
            ) && p.spec_old_subscriber_name() == self.spec_old_subscriber_name()
                && p.spec_allow_multiple_subscribers() == self.spec_allow_multiple_subscribers()),
    {
        let copy = match c_string_bytes(name) {
            Ok(copy) => copy,
            Err(e) => return Err(e),
        };
        let mut params = self;
        params.subscriber_name = Some(copy);
        Ok(params)
    }

    /// The same parameters, allowing or refusing other subscribers alongside.
    pub fn with_multiple_subscribers(self, allow: bool) -> (r: Self)
        ensures
            r.spec_subscriber_name() == self.spec_subscriber_name(),
            r.spec_old_subscriber_name() == self.spec_old_subscriber_name(),
            r.spec_allow_multiple_subscribers() == allow,
    {
        let mut params = self;
        params.allow_multiple_subscribers = allow;
        params
    }

    /// Returns the subscriber name's bytes, if set.
    pub fn subscriber_name(&self) -> (r: Option<&[u8]>)
        ensures
            match r {
                Some(b) => self.spec_subscriber_name() == Some(b@),
                None => self.spec_subscriber_name() is None,
            },
    {
        match &self.subscriber_name {
            Some(name) => Some(name.as_slice()),
            None => None,
        }
    }

    /// Returns whether the subscriber may coexist with other subscribers.
    pub fn allow_multiple_subscribers(&self) -> (r: bool)
        ensures
            r == self.spec_allow_multiple_subscribers(),
    {
        self.allow_multiple_subscribers
    }

    /// Replaces the old-subscriber-name buffer, as CUPTI filled it.
    pub fn set_old_subscriber_name_buffer(&mut self, buffer: Vec<u8>)
        ensures
            final(self).spec_old_subscriber_name() == buffer@,
            final(self).spec_subscriber_name() == old(self).spec_subscriber_name(),
            final(self).spec_allow_multiple_subscribers() == old(self).spec_allow_multiple_subscribers(),
    {
        self.old_subscriber_name = buffer;
    }

    /// Returns the name of the subscriber that was already present, as CUPTI wrote it
    /// into the old-subscriber-name buffer: `None` for an empty buffer or one starting
    /// with a nul byte, else the bytes before the first nul, with invalid UTF-8
    /// replaced.
    pub fn old_subscriber_name(&self) -> (r: Option<String>)
        ensures
            self.spec_old_subscriber_name().len() == 0 || self.spec_old_subscriber_name()[0] == 0 ==> r is None,
            self.spec_old_subscriber_name().len() != 0 && self.spec_old_subscriber_name()[0] != 0 ==> (r matches Some(
                s,
            ) && s@ == utf8_lossy(
                self.spec_old_subscriber_name().subrange(0, nul_terminated_len(self.spec_old_subscriber_name())),
            )),
            is_ascii_bytes(self.spec_old_subscriber_name().subrange(0, nul_terminated_len(self.spec_old_subscriber_name())))
                && self.spec_old_subscriber_name().len() != 0 && self.spec_old_subscriber_name()[0] != 0 ==> (r matches Some(
                s,
            ) && s@ == self.spec_old_subscriber_name().subrange(
                0,
                nul_terminated_len(self.spec_old_subscriber_name()),
            ).map_values(|b: u8| b as char)),
    {
        if self.old_subscriber_name.len() == 0 || self.old_subscriber_name[0] == 0 {
            return None;
        }
        let mut i: usize = 0;
        while i < self.old_subscriber_name.len() && self.old_subscriber_name[i] != 0
            invariant
                i <= self.old_subscriber_name@.len(),
                forall|j: int| 0 <= j < i ==> self.old_subscriber_name@[j] != 0,
            decreases self.old_subscriber_name.len() - i,
        {
            i += 1;
        }
        proof {
            lemma_nul_terminated_len(self.old_subscriber_name@, i as int);
        }
        Some(utf8_lossy_bytes_string(&self.old_subscriber_name, i))
    }
}

/// Length of the string at the start of `bytes`: up to the first nul byte, or all of
/// `bytes` when none is nul.
pub open spec fn nul_terminated_len(bytes: Seq<u8>) -> int {
    if exists|i: int| 0 <= i < bytes.len() && bytes[i] == 0 && forall|j: int| 0 <= j < i ==> bytes[j] != 0 {
        choose|i: int| 0 <= i < bytes.len() && bytes[i] == 0 && forall|j: int| 0 <= j < i ==> bytes[j] != 0
    } else {
        bytes.len() as int
    }
}

proof fn lemma_nul_terminated_len(bytes: Seq<u8>, i: int)
    requires
        0 <= i <= bytes.len(),
        forall|j: int| 0 <= j < i ==> bytes[j] != 0,
        i == bytes.len() || bytes[i] == 0,
    ensures
        nul_terminated_len(bytes) == i,
{
    if i < bytes.len() {
        assert(0 <= i < bytes.len() && bytes[i] == 0 && forall|j: int| 0 <= j < i ==> bytes[j] != 0);
        let k = nul_terminated_len(bytes);
        assert(0 <= k < bytes.len() && bytes[k] == 0 && forall|j: int| 0 <= j < k ==> bytes[j] != 0);
        if k < i {
            assert(bytes[k] != 0);
        } else if k > i {
            assert(bytes[i] != 0);
        }
    } else {
        assert(!exists|k: int| 0 <= k < bytes.len() && bytes[k] == 0 && forall|j: int| 0 <= j < k ==> bytes[j] != 0);
    }
}

/// The callbacks enabled in a domain, from CUPTI's answer to the second
/// `cuptiGetEnabledCallbacks` call: the identifiers it filled, cut to the count it
/// reported.
pub fn enabled_callbacks_from_query(callbacks: Vec<u32>, enabled_count: u32) -> (r: Vec<CallbackId>)
    ensures
        r@.len() == (if enabled_count < callbacks@.len() { enabled_count as int } else { callbacks@.len() as int }),
        forall|i: int| 0 <= i < r@.len() ==> #[trigger] r@[i] == CallbackId::of(callbacks@[i]),
{
    let mut callbacks = callbacks;
    callbacks.truncate(enabled_count as usize);
    let mut out: Vec<CallbackId> = Vec::new();
    let mut i: usize = 0;
    while i < callbacks.len()
        invariant
            i <= callbacks@.len(),
            out@.len() == i,
            forall|j: int| 0 <= j < i ==> #[trigger] out@[j] == CallbackId::of(callbacks@[j]),
        decreases callbacks.len() - i,
    {
        out.push(CallbackId::from(callbacks[i]));
        i += 1;
    }
    out
}

/// The callback domains CUPTI supports, from the count and table that
/// `cuptiSupportedDomains` reported: none when the count is 0 or the table is null,
/// else the table's first `count` entries, a value the enum does not define reading
/// as `Invalid`.
pub fn supported_domains_from_table(count: u32, table_is_null: bool, table: &[u32]) -> (r: Vec<CallbackDomain>)
    requires
        count == 0 || table_is_null || count <= table@.len(),
    ensures
        (count == 0 || table_is_null) ==> r@.len() == 0,
        !(count == 0 || table_is_null) ==> r@.len() == count,
        forall|i: int| 0 <= i < r@.len() ==> #[trigger] r@[i] == callback_domain_of(table@[i]),
{
    let mut out: Vec<CallbackDomain> = Vec::new();
    if count == 0 || table_is_null {
        return out;
    }
    let n = count as usize;
    let mut i: usize = 0;
    while i < n
        invariant
            n <= table@.len(),
            i <= n,
            out@.len() == i,
            forall|j: int| 0 <= j < i ==> #[trigger] out@[j] == callback_domain_of(table@[j]),
        decreases n - i,
    {
        let domain = match CallbackDomain::try_from_raw(table[i]) {
            Some(d) => d,
            None => CallbackDomain::Invalid,
        };
        proof {
            let w = table@[i as int];
            if exists|v: CallbackDomain| v.raw_value() == w {
                let c = choose|v: CallbackDomain| v.raw_value() == w;
                crate::cupti::types::lemma_callback_domain_raw_injective(c, domain);
            }
        }
        out.push(domain);
        i += 1;
    }
    out
}

/// The callback domain of the C value `value`, or `Invalid` for a value the enum does
/// not define.
pub open spec fn callback_domain_of(value: u32) -> CallbackDomain {
    if exists|v: CallbackDomain| v.raw_value() == value {
        choose|v: CallbackDomain| v.raw_value() == value
    } else {
        CallbackDomain::Invalid
    }
}

} // verus!
