//! Event and metric queries: reading attribute strings, sizing the arrays CUPTI
//! fills, and decoding what event, event domain, event group, metric and device
//! attribute queries return.
//!
//! CUPTI answers each query by filling caller-provided memory; the functions here
//! decide how much memory to provide, which C object an attribute is read as, and
//! what the bytes read back mean.
use vstd::prelude::*;
use crate::cupti::error::{Error, Result};
use crate::cupti::types::{
    DeviceAttribute,
    DeviceAttributeDeviceClass,
    DeviceAttributeValue,
    EventAttribute,
    EventAttributeValue,
    EventCategory,
    EventCollectionMethod,
    EventDomainAttribute,
    EventDomainAttributeValue,
    EventDomainId,
    EventGroupAttribute,
    EventGroupAttributeSetting,
    EventGroupAttributeValue,
    EventId,
    EventProfilingScope,
    MetricAttribute,
    MetricAttributeValue,
    MetricCategory,
    MetricEvaluationMode,
    MetricPropertyId,
    MetricValueKind,
};
use crate::cupti::types::group_id_views;

verus! {

broadcast use group_id_views;

/// Size in bytes of the buffer into which a string attribute is read.
pub const ATTRIBUTE_STRING_CAPACITY: usize = 4096;

/// The characters `String::from_utf8_lossy` makes of `bytes`.
pub uninterp spec fn utf8_lossy(bytes: Seq<u8>) -> Seq<char>;

/// Whether every byte is an ASCII character.
pub open spec fn is_ascii_bytes(bytes: Seq<u8>) -> bool {
    forall|i: int| 0 <= i < bytes.len() ==> #[trigger] bytes[i] < 0x80
}

/// `String::from_utf8_lossy(bytes).into_owned()`. Claimed: the result is the named
/// decoding of `bytes`, and ASCII bytes (valid UTF-8, one character each) come out
/// unchanged, as the std documentation states for valid UTF-8. What it makes of
/// other bytes (replacement characters for invalid sequences) is left unsaid.
#[verifier::external_body]
fn utf8_lossy_string(bytes: &[u8]) -> (s: String)
    ensures
        s@ == utf8_lossy(bytes@),
        is_ascii_bytes(bytes@) ==> s@ == bytes@.map_values(|b: u8| b as char),
{
    String::from_utf8_lossy(bytes).into_owned()
}

/// Whether `i` is the position of the first nul byte of `bytes`.
pub open spec fn is_first_nul(bytes: Seq<u8>, i: int) -> bool {
    &&& 0 <= i < bytes.len()
    &&& bytes[i] == 0
    &&& forall|j: int| 0 <= j < i ==> bytes[j] != 0
}

/// Length of the string CUPTI wrote into `bytes`, reporting `value_size` bytes: up to
/// the first nul byte, or, with no nul byte, the reported size capped at the buffer.
pub open spec fn attribute_string_len(bytes: Seq<u8>, value_size: u64) -> int {
    if exists|i: int| is_first_nul(bytes, i) {
        choose|i: int| is_first_nul(bytes, i)
    } else if value_size < bytes.len() {
        value_size as int
    } else {
        bytes.len() as int
    }
}

fn string_len(buffer: &[u8], value_size: u64) -> (len: usize)
    ensures
        len == attribute_string_len(buffer@, value_size),
        len <= buffer@.len(),
{
    let mut i: usize = 0;
    while i < buffer.len()
        invariant
            i <= buffer@.len(),
            forall|j: int| 0 <= j < i ==> buffer@[j] != 0,
        decreases buffer.len() - i,
    {
        if buffer[i] == 0 {
            assert(is_first_nul(buffer@, i as int));
            assert forall|k: int| is_first_nul(buffer@, k) implies k == i by {
                if k < i {
                    assert(buffer@[k] != 0);
                } else if k > i {
                    assert(buffer@[i as int] != 0);
                }
            }
            return i;
        }
        i += 1;
    }
    assert(!exists|k: int| is_first_nul(buffer@, k));
    if value_size < buffer.len() as u64 {
        value_size as usize
    } else {
        buffer.len()
    }
}

/// Decodes a string attribute that CUPTI wrote into `buffer`, reporting `value_size`
/// bytes: the bytes up to the first nul byte (or, with none, up to the reported size
/// capped at the buffer), with invalid UTF-8 replaced; ASCII text comes out as it is.
pub fn read_attribute_string(buffer: &[u8], value_size: u64) -> (r: String)
    ensures
        r@ == utf8_lossy(buffer@.subrange(0, attribute_string_len(buffer@, value_size))),
        is_ascii_bytes(buffer@.subrange(0, attribute_string_len(buffer@, value_size))) ==> r@ == buffer@.subrange(
            0,
            attribute_string_len(buffer@, value_size),
        ).map_values(|b: u8| b as char),
{
    let len = string_len(buffer, value_size);
    utf8_lossy_bytes_string(buffer, len)
}

/// Decodes the first `len` bytes of `buffer` as UTF-8, with invalid sequences replaced.
pub fn utf8_lossy_bytes_string(buffer: &[u8], len: usize) -> (r: String)
    requires
        len <= buffer@.len(),
    ensures
        r@ == utf8_lossy(buffer@.subrange(0, len as int)),
        is_ascii_bytes(buffer@.subrange(0, len as int)) ==> r@ == buffer@.subrange(0, len as int).map_values(
            |b: u8| b as char,
        ),
{
    let mut prefix: Vec<u8> = Vec::new();
    let mut i: usize = 0;
    while i < len
        invariant
            i <= len,
            len <= buffer@.len(),
            prefix@ == buffer@.subrange(0, i as int),
        decreases len - i,
    {
        prefix.push(buffer[i]);
        i += 1;
        assert(prefix@ =~= buffer@.subrange(0, i as int));
    }
    utf8_lossy_string(prefix.as_slice())
}

/// Whether `e` is `Error::OutOfRange` naming `name`.
pub open spec fn is_out_of_range(e: Error, name: &str) -> bool {
    e matches Error::OutOfRange { name: n } && n@ == name@
}

/// Whether `e` is `Error::InvalidAttribute` naming `name`.
pub open spec fn is_invalid_attribute(e: Error, name: &str) -> bool {
    e matches Error::InvalidAttribute { name: n } && n@ == name@
}

/// Converts a byte count CUPTI reported to `usize`, or `Error::OutOfRange` naming `name`.
pub fn to_usize(value: u64, name: &str) -> (r: Result<usize>)
    ensures
        value <= usize::MAX ==> r == Ok::<usize, Error>(value as usize),
        value > usize::MAX ==> (r matches Err(e) && is_out_of_range(e, name)),
{
    if value > usize::MAX as u64 {
        Err(Error::OutOfRange { name: name.to_owned() })
    } else {
        Ok(value as usize)
    }
}

/// Number of elements of `element_size` bytes to allocate for an array CUPTI reports
/// as `size_bytes` long: none for an empty array, `Error::OutOfRange` when the size
/// does not fit in `usize`, and `Error::LengthMismatch` when it is not a whole number
/// of elements.
pub fn array_len_for_size(size_bytes: u64, element_size: usize) -> (r: Result<usize>)
    requires
        element_size > 0,
    ensures
        size_bytes == 0 ==> r == Ok::<usize, Error>(0),
        size_bytes != 0 && size_bytes > usize::MAX ==> (r matches Err(e) && is_out_of_range(e, "array_size_bytes")),
        size_bytes != 0 && size_bytes <= usize::MAX && (size_bytes as int) % (element_size as int) != 0 ==> (r matches Err(
            Error::LengthMismatch { name, expected, actual },
        ) && name@ == "array_size_bytes"@ && expected == element_size && actual == size_bytes),
        size_bytes != 0 && size_bytes <= usize::MAX && (size_bytes as int) % (element_size as int) == 0 ==> r == Ok::<
            usize,
            Error,
        >(((size_bytes as int) / (element_size as int)) as usize),
{
    if size_bytes == 0 {
        return Ok(0);
    }
    let size = match to_usize(size_bytes, "array_size_bytes") {
        Ok(size) => size,
        Err(e) => return Err(e),
    };
    if size % element_size != 0 {
        return Err(
            Error::LengthMismatch { name: "array_size_bytes".to_owned(), expected: element_size, actual: size },
        );
    }
    Ok(size / element_size)
}

/// The array CUPTI filled, cut to the `size_bytes` it reported on the second call.
pub fn array_from_retry<T>(values: Vec<T>, size_bytes: u64, element_size: usize) -> (r: Result<Vec<T>>)
    requires
        element_size > 0,
    ensures
        size_bytes > usize::MAX ==> (r matches Err(e) && is_out_of_range(e, "array_size_bytes")),
        size_bytes <= usize::MAX ==> (r matches Ok(v) && v@ == values@.take(
            min_len(values@.len() as int, (size_bytes as int) / (element_size as int)),
        )),
{
    let size = match to_usize(size_bytes, "array_size_bytes") {
        Ok(size) => size,
        Err(e) => return Err(e),
    };
    let mut values = values;
    values.truncate(size / element_size);
    Ok(values)
}

/// The smaller of two lengths.
pub open spec fn min_len(a: int, b: int) -> int {
    if a <= b { a } else { b }
}

/// Number of event values CUPTI reports as `size_bytes` long, or `Error::OutOfRange`
/// when the size does not fit in `usize`; a partial value at the end is not counted.
pub fn event_value_len(size_bytes: u64) -> (r: Result<usize>)
    ensures
        size_bytes > usize::MAX ==> (r matches Err(e) && is_out_of_range(e, "event_value_buffer_size_bytes")),
        size_bytes <= usize::MAX ==> r == Ok::<usize, Error>((size_bytes / 8) as usize),
{
    match to_usize(size_bytes, "event_value_buffer_size_bytes") {
        Ok(size) => Ok(size / 8),
        Err(e) => Err(e),
    }
}

/// The values of one event CUPTI read into `values`, cut to the `size_bytes` it
/// reported.
pub fn event_values_from_read(values: Vec<u64>, size_bytes: u64) -> (r: Result<Vec<u64>>)
    ensures
        size_bytes > usize::MAX ==> (r matches Err(e) && is_out_of_range(e, "event_value_buffer_size_bytes")),
        size_bytes <= usize::MAX ==> (r matches Ok(v) && v@ == values@.take(
            min_len(values@.len() as int, (size_bytes as int) / 8),
        )),
{
    let len = match event_value_len(size_bytes) {
        Ok(len) => len,
        Err(e) => return Err(e),
    };
    let mut values = values;
    values.truncate(len);
    Ok(values)
}

/// The event identifiers and values read from all events of a group.
#[derive(Debug, Clone)]
pub struct EventGroupReadAll {
    pub event_ids: Vec<EventId>,
    pub values: Vec<u64>,
}

/// Number of values and of event identifiers to allocate for reading all events of a
/// group, given the byte sizes CUPTI reports for both arrays.
pub fn read_all_capacity(value_size_bytes: u64, event_id_size_bytes: u64) -> (r: Result<(usize, usize)>)
    ensures
        value_size_bytes > usize::MAX ==> (r matches Err(e) && is_out_of_range(e, "event_value_buffer_size_bytes")),
        value_size_bytes <= usize::MAX && event_id_size_bytes > usize::MAX ==> (r matches Err(e) && is_out_of_range(
            e,
            "event_id_array_size_bytes",
        )),
        value_size_bytes <= usize::MAX && event_id_size_bytes <= usize::MAX ==> r == Ok::<(usize, usize), Error>(
            ((value_size_bytes / 8) as usize, (event_id_size_bytes / 4) as usize),
        ),
{
    let values = match event_value_len(value_size_bytes) {
        Ok(len) => len,
        Err(e) => return Err(e),
    };
    let ids = match to_usize(event_id_size_bytes, "event_id_array_size_bytes") {
        Ok(size) => size / 4,
        Err(e) => return Err(e),
    };
    Ok((values, ids))
}

impl EventGroupReadAll {
    /// Assembles what CUPTI read from all events of a group: the values cut to the
    /// `value_size_bytes` it reported, and the event identifiers cut to the
    /// `num_event_ids_read` it reported.
    pub fn from_read(
        values: Vec<u64>,
        value_size_bytes: u64,
        event_ids: Vec<u32>,
        num_event_ids_read: u64,
    ) -> (r: Result<EventGroupReadAll>)
        ensures
            value_size_bytes > usize::MAX ==> (r matches Err(e) && is_out_of_range(e, "event_value_buffer_size_bytes")),
            value_size_bytes <= usize::MAX && num_event_ids_read > usize::MAX ==> (r matches Err(e)
                && is_out_of_range(e, "num_event_ids_read")),
            value_size_bytes <= usize::MAX && num_event_ids_read <= usize::MAX ==> (r matches Ok(all) && {
                let ids = event_ids@.take(min_len(event_ids@.len() as int, num_event_ids_read as int));
                &&& all.values@ == values@.take(min_len(values@.len() as int, (value_size_bytes as int) / 8))
                &&& all.event_ids@.len() == ids.len()
                &&& forall|i: int| 0 <= i < ids.len() ==> #[trigger] all.event_ids@[i] == EventId::of(ids[i])
            }),
    {
        let value_len = match event_value_len(value_size_bytes) {
            Ok(len) => len,
            Err(e) => return Err(e),
        };
        let id_len = match to_usize(num_event_ids_read, "num_event_ids_read") {
            Ok(len) => len,
            Err(e) => return Err(e),
        };
        let mut values = values;
        values.truncate(value_len);
        let mut event_ids = event_ids;
        event_ids.truncate(id_len);
        let ids = event_ids_from_raw(&event_ids);
        Ok(EventGroupReadAll { event_ids: ids, values })
    }
}

/// The event identifiers of the raw identifiers `raw`.
pub fn event_ids_from_raw(raw: &[u32]) -> (r: Vec<EventId>)
    ensures
        r@.len() == raw@.len(),
        forall|i: int| 0 <= i < raw@.len() ==> #[trigger] r@[i] == EventId::of(raw@[i]),
{
    let mut out: Vec<EventId> = Vec::new();
    let mut i: usize = 0;
    while i < raw.len()
        invariant
            i <= raw@.len(),
            out@.len() == i,
            forall|j: int| 0 <= j < i ==> #[trigger] out@[j] == EventId::of(raw@[j]),
        decreases raw.len() - i,
    {
        out.push(EventId::from(raw[i]));
        i += 1;
    }
    out
}

/// The raw identifiers of the event identifiers `ids`, in order.
pub fn event_ids_to_raw(ids: &[EventId]) -> (r: Vec<u32>)
    ensures
        r@.len() == ids@.len(),
        forall|i: int| 0 <= i < ids@.len() ==> #[trigger] r@[i] == ids@[i]@,
{
    let mut out: Vec<u32> = Vec::new();
    let mut i: usize = 0;
    while i < ids.len()
        invariant
            i <= ids@.len(),
            out@.len() == i,
            forall|j: int| 0 <= j < i ==> #[trigger] out@[j] == ids@[j]@,
        decreases ids.len() - i,
    {
        out.push(ids[i].get());
        i += 1;
    }
    out
}

/// The C values of the metric property identifiers `ids`, in order.
pub fn metric_property_ids_to_raw(ids: &[MetricPropertyId]) -> (r: Vec<u32>)
    ensures
        r@.len() == ids@.len(),
        forall|i: int| 0 <= i < ids@.len() ==> #[trigger] r@[i] == ids@[i].raw_value(),
{
    let mut out: Vec<u32> = Vec::new();
    let mut i: usize = 0;
    while i < ids.len()
        invariant
            i <= ids@.len(),
            out@.len() == i,
            forall|j: int| 0 <= j < i ==> #[trigger] out@[j] == ids@[j].raw_value(),
        decreases ids.len() - i,
    {
        out.push(ids[i].raw());
        i += 1;
    }
    out
}

/// Whether the byte sizes of `id_count` 32-bit identifiers and of `value_count`
/// 64-bit values both fit in `usize`.
pub open spec fn metric_input_sizes_ok(id_count: int, value_count: int) -> bool {
    id_count * 4 <= usize::MAX && value_count * 8 <= usize::MAX
}

/// The byte sizes that a metric value query passes with its identifier and value
/// arrays: four bytes per identifier and eight per value. Fails with
/// `Error::OutOfRange` naming `ids_name` when the identifier array's size does not
/// fit in `usize`, else naming `values_name` when the value array's does not.
pub fn metric_input_sizes(id_count: usize, value_count: usize, ids_name: &str, values_name: &str) -> (r:
    Result<(u64, u64)>)
    ensures
        match r {
            Ok((ids_size, values_size)) => {
                &&& metric_input_sizes_ok(id_count as int, value_count as int)
                &&& ids_size == id_count * 4
                &&& values_size == value_count * 8
            },
            Err(e) => {
                &&& !metric_input_sizes_ok(id_count as int, value_count as int)
                &&& if id_count * 4 > usize::MAX {
                    is_out_of_range(e, ids_name)
                } else {
                    is_out_of_range(e, values_name)
                }
            },
        },
{
    let ids_size = match id_count.checked_mul(4) {
        Some(n) => n,
        None => return Err(Error::OutOfRange { name: ids_name.to_owned() }),
    };
    let values_size = match value_count.checked_mul(8) {
        Some(n) => n,
        None => return Err(Error::OutOfRange { name: values_name.to_owned() }),
    };
    Ok((ids_size as u64, values_size as u64))
}

/// What an attribute query read back, in the form its C type gives.
#[derive(Debug, Clone, PartialEq, Eq)]
pub enum AttributeReading {
    /// A string, decoded by [`read_attribute_string`].
    Text(String),
    /// A 32-bit unsigned value.
    Word(u32),
    /// An array of 32-bit identifiers.
    Ids(Vec<u32>),
    /// An event category.
    EventCategory(EventCategory),
    /// An event profiling scope.
    ProfilingScope(EventProfilingScope),
    /// An event collection method.
    CollectionMethod(EventCollectionMethod),
    /// A metric category.
    MetricCategory(MetricCategory),
    /// A metric value kind.
    MetricValueKind(MetricValueKind),
    /// A metric evaluation mode.
    EvaluationMode(MetricEvaluationMode),
    /// A device class.
    DeviceClass(DeviceAttributeDeviceClass),
}

/// The C type in which an attribute query reads its value.
#[derive(Debug, Clone, Copy, PartialEq, Eq, Hash, Structural)]
pub enum AttributeReadingKind {
    Text,
    Word,
    Ids,
    EventCategory,
    ProfilingScope,
    CollectionMethod,
    MetricCategory,
    MetricValueKind,
    EvaluationMode,
    DeviceClass,
}

impl AttributeReading {
    /// The C type of the reading.
    pub open spec fn kind(self) -> AttributeReadingKind {
        match self {
            AttributeReading::Text(_) => AttributeReadingKind::Text,
            AttributeReading::Word(_) => AttributeReadingKind::Word,
            AttributeReading::Ids(_) => AttributeReadingKind::Ids,
            AttributeReading::EventCategory(_) => AttributeReadingKind::EventCategory,
            AttributeReading::ProfilingScope(_) => AttributeReadingKind::ProfilingScope,
            AttributeReading::CollectionMethod(_) => AttributeReadingKind::CollectionMethod,
            AttributeReading::MetricCategory(_) => AttributeReadingKind::MetricCategory,
            AttributeReading::MetricValueKind(_) => AttributeReadingKind::MetricValueKind,
            AttributeReading::EvaluationMode(_) => AttributeReadingKind::EvaluationMode,
            AttributeReading::DeviceClass(_) => AttributeReadingKind::DeviceClass,
        }
    }
}

/// The C type an event group attribute is read as; `None` for `UserData` and
/// `ForceInt`, which cannot be read as a value.
pub open spec fn event_group_reading_kind(attr: EventGroupAttribute) -> Option<AttributeReadingKind> {
    match attr {
        EventGroupAttribute::EventDomainId => Some(AttributeReadingKind::Word),
        EventGroupAttribute::ProfileAllDomainInstances => Some(AttributeReadingKind::Word),
        EventGroupAttribute::NumEvents => Some(AttributeReadingKind::Word),
        EventGroupAttribute::Events => Some(AttributeReadingKind::Ids),
        EventGroupAttribute::InstanceCount => Some(AttributeReadingKind::Word),
        EventGroupAttribute::ProfilingScope => Some(AttributeReadingKind::ProfilingScope),
        _ => None,
    }
}

/// Whether `value` is what reading `attr` of an event group as `reading` gives.
pub open spec fn event_group_value_decodes(
    attr: EventGroupAttribute,
    reading: AttributeReading,
    value: EventGroupAttributeValue,
) -> bool {
    match (attr, reading) {
        (EventGroupAttribute::EventDomainId, AttributeReading::Word(w)) => value
            == EventGroupAttributeValue::EventDomainId(EventDomainId::of(w)),
        (EventGroupAttribute::ProfileAllDomainInstances, AttributeReading::Word(w)) => value
            == EventGroupAttributeValue::ProfileAllDomainInstances(w != 0),
        (EventGroupAttribute::NumEvents, AttributeReading::Word(w)) => value == EventGroupAttributeValue::NumEvents(w),
        (EventGroupAttribute::Events, AttributeReading::Ids(ids)) => value matches EventGroupAttributeValue::Events(
            events,
        ) && events@.len() == ids@.len() && forall|i: int|
            0 <= i < ids@.len() ==> #[trigger] events@[i] == EventId::of(ids@[i]),
        (EventGroupAttribute::InstanceCount, AttributeReading::Word(w)) => value
            == EventGroupAttributeValue::InstanceCount(w),
        (EventGroupAttribute::ProfilingScope, AttributeReading::ProfilingScope(s)) => value
            == EventGroupAttributeValue::ProfilingScope(s),
        _ => false,
    }
}

/// Returns the C type in which an event group attribute is read, or
/// `Error::InvalidAttribute` naming it for `UserData` and `ForceInt`.
pub fn event_group_attribute_reading(attr: EventGroupAttribute) -> (r: Result<AttributeReadingKind>)
    ensures
        match event_group_reading_kind(attr) {
            Some(k) => r matches Ok(k2) && k2 == k,
            None => r matches Err(e) && is_invalid_attribute(e, attr.variant_name()),
        },
{
    match attr {
        EventGroupAttribute::EventDomainId => Ok(AttributeReadingKind::Word),
        EventGroupAttribute::ProfileAllDomainInstances => Ok(AttributeReadingKind::Word),
        EventGroupAttribute::NumEvents => Ok(AttributeReadingKind::Word),
        EventGroupAttribute::Events => Ok(AttributeReadingKind::Ids),
        EventGroupAttribute::InstanceCount => Ok(AttributeReadingKind::Word),
        EventGroupAttribute::ProfilingScope => Ok(AttributeReadingKind::ProfilingScope),
        _ => Err(Error::InvalidAttribute { name: attr.name().to_owned() }),
    }
}

/// Decodes what reading an event group attribute gave: the event domain, whether all
/// domain instances are profiled (a nonzero word), the event count, the events, the
/// instance count, or the profiling scope. A reading of another C type than the
/// attribute's, or an attribute that cannot be read, gives `Error::InvalidAttribute`.
pub fn event_group_attribute_value(
    attr: EventGroupAttribute,
    reading: AttributeReading,
) -> (r: Result<EventGroupAttributeValue>)
    ensures
        event_group_reading_kind(attr) == Some(reading.kind()) ==> (r matches Ok(v) && event_group_value_decodes(
            attr,
            reading,
            v,
        )),
        event_group_reading_kind(attr) != Some(reading.kind()) ==> (r matches Err(e) && is_invalid_attribute(
            e,
            attr.variant_name(),
        )),
{
    match (attr, reading) {
        (EventGroupAttribute::EventDomainId, AttributeReading::Word(w)) => Ok(
            EventGroupAttributeValue::EventDomainId(EventDomainId::from(w)),
        ),
        (EventGroupAttribute::ProfileAllDomainInstances, AttributeReading::Word(w)) => Ok(
            EventGroupAttributeValue::ProfileAllDomainInstances(w != 0),
        ),
        (EventGroupAttribute::NumEvents, AttributeReading::Word(w)) => Ok(EventGroupAttributeValue::NumEvents(w)),
        (EventGroupAttribute::Events, AttributeReading::Ids(ids)) => Ok(
            EventGroupAttributeValue::Events(event_ids_from_raw(&ids)),
        ),
        (EventGroupAttribute::InstanceCount, AttributeReading::Word(w)) => Ok(
            EventGroupAttributeValue::InstanceCount(w),
        ),
        (EventGroupAttribute::ProfilingScope, AttributeReading::ProfilingScope(s)) => Ok(
            EventGroupAttributeValue::ProfilingScope(s),
        ),
        _ => Err(Error::InvalidAttribute { name: attr.name().to_owned() }),
    }
}

/// The 32-bit word written to set an event group attribute, or `None` when the
/// setting does not apply to the attribute.
pub open spec fn event_group_setting_word_of(attr: EventGroupAttribute, value: EventGroupAttributeSetting) -> Option<
    u32,
> {
    match (attr, value) {
        (
            EventGroupAttribute::ProfileAllDomainInstances,
            EventGroupAttributeSetting::ProfileAllDomainInstances(b),
        ) => Some(if b { 1u32 } else { 0u32 }),
        _ => None,
    }
}

/// Returns the 32-bit word that setting `value` on `attr` writes: 1 or 0 for
/// `ProfileAllDomainInstances`. Any other attribute is refused with
/// `Error::InvalidAttribute` naming it, before anything is written.
pub fn event_group_setting_word(attr: EventGroupAttribute, value: EventGroupAttributeSetting) -> (r: Result<u32>)
    ensures
        match event_group_setting_word_of(attr, value) {
            Some(w) => r == Ok::<u32, Error>(w),
            None => r matches Err(e) && is_invalid_attribute(e, attr.variant_name()),
        },
{
    match (attr, value) {
        (
            EventGroupAttribute::ProfileAllDomainInstances,
            EventGroupAttributeSetting::ProfileAllDomainInstances(b),
        ) => Ok(if b { 1u32 } else { 0u32 }),
        _ => Err(Error::InvalidAttribute { name: attr.name().to_owned() }),
    }
}

/// The C type an event attribute is read as; `None` for `ForceInt`.
pub open spec fn event_reading_kind(attr: EventAttribute) -> Option<AttributeReadingKind> {
    match attr {
        EventAttribute::Name => Some(AttributeReadingKind::Text),
        EventAttribute::ShortDescription => Some(AttributeReadingKind::Text),
        EventAttribute::LongDescription => Some(AttributeReadingKind::Text),
        EventAttribute::Category => Some(AttributeReadingKind::EventCategory),
        EventAttribute::ProfilingScope => Some(AttributeReadingKind::ProfilingScope),
        _ => None,
    }
}

/// The value that reading `attr` of an event as `reading` gives, or `None` when the
/// reading is not of the attribute's C type.
pub open spec fn event_value_of(attr: EventAttribute, reading: AttributeReading) -> Option<EventAttributeValue> {
    match (attr, reading) {
        (EventAttribute::Name, AttributeReading::Text(s)) => Some(EventAttributeValue::Name(s)),
        (EventAttribute::ShortDescription, AttributeReading::Text(s)) => Some(
            EventAttributeValue::ShortDescription(s),
        ),
        (EventAttribute::LongDescription, AttributeReading::Text(s)) => Some(EventAttributeValue::LongDescription(s)),
        (EventAttribute::Category, AttributeReading::EventCategory(c)) => Some(EventAttributeValue::Category(c)),
        (EventAttribute::ProfilingScope, AttributeReading::ProfilingScope(s)) => Some(
            EventAttributeValue::ProfilingScope(s),
        ),
        _ => None,
    }
}

/// Returns the C type in which an event attribute is read, or
/// `Error::InvalidAttribute` naming it for `ForceInt`.
pub fn event_attribute_reading(attr: EventAttribute) -> (r: Result<AttributeReadingKind>)
    ensures
        match event_reading_kind(attr) {
            Some(k) => r matches Ok(k2) && k2 == k,
            None => r matches Err(e) && is_invalid_attribute(e, attr.variant_name()),
        },
{
    match attr {
        EventAttribute::Name | EventAttribute::ShortDescription | EventAttribute::LongDescription => Ok(
            AttributeReadingKind::Text,
        ),
        EventAttribute::Category => Ok(AttributeReadingKind::EventCategory),
        EventAttribute::ProfilingScope => Ok(AttributeReadingKind::ProfilingScope),
        _ => Err(Error::InvalidAttribute { name: attr.name().to_owned() }),
    }
}

/// Decodes what reading an event attribute gave: its name or descriptions, its
/// category, or its profiling scope. A reading of another C type than the
/// attribute's, or `ForceInt`, gives `Error::InvalidAttribute`.
pub fn event_attribute_value(attr: EventAttribute, reading: AttributeReading) -> (r: Result<EventAttributeValue>)
    ensures
        match event_value_of(attr, reading) {
            Some(v) => r == Ok::<EventAttributeValue, Error>(v),
            None => r matches Err(e) && is_invalid_attribute(e, attr.variant_name()),
        },
{
    match (attr, reading) {
        (EventAttribute::Name, AttributeReading::Text(s)) => Ok(EventAttributeValue::Name(s)),
        (EventAttribute::ShortDescription, AttributeReading::Text(s)) => Ok(EventAttributeValue::ShortDescription(s)),
        (EventAttribute::LongDescription, AttributeReading::Text(s)) => Ok(EventAttributeValue::LongDescription(s)),
        (EventAttribute::Category, AttributeReading::EventCategory(c)) => Ok(EventAttributeValue::Category(c)),
        (EventAttribute::ProfilingScope, AttributeReading::ProfilingScope(s)) => Ok(
            EventAttributeValue::ProfilingScope(s),
        ),
        _ => Err(Error::InvalidAttribute { name: attr.name().to_owned() }),
    }
}

/// The C type an event domain attribute is read as; `None` for `ForceInt`.
pub open spec fn event_domain_reading_kind(attr: EventDomainAttribute) -> Option<AttributeReadingKind> {
    match attr {
        EventDomainAttribute::Name => Some(AttributeReadingKind::Text),
        EventDomainAttribute::InstanceCount => Some(AttributeReadingKind::Word),
        EventDomainAttribute::TotalInstanceCount => Some(AttributeReadingKind::Word),
        EventDomainAttribute::CollectionMethod => Some(AttributeReadingKind::CollectionMethod),
        _ => None,
    }
}

/// The value that reading `attr` of an event domain as `reading` gives, or `None`
/// when the reading is not of the attribute's C type.
pub open spec fn event_domain_value_of(attr: EventDomainAttribute, reading: AttributeReading) -> Option<
    EventDomainAttributeValue,
> {
    match (attr, reading) {
        (EventDomainAttribute::Name, AttributeReading::Text(s)) => Some(EventDomainAttributeValue::Name(s)),
        (EventDomainAttribute::InstanceCount, AttributeReading::Word(w)) => Some(EventDomainAttributeValue::U32(w)),
        (EventDomainAttribute::TotalInstanceCount, AttributeReading::Word(w)) => Some(
            EventDomainAttributeValue::U32(w),
        ),
        (EventDomainAttribute::CollectionMethod, AttributeReading::CollectionMethod(m)) => Some(
            EventDomainAttributeValue::CollectionMethod(m),
        ),
        _ => None,
    }
}

/// Returns the C type in which an event domain attribute is read, or
/// `Error::InvalidAttribute` naming it for `ForceInt`.
pub fn event_domain_attribute_reading(attr: EventDomainAttribute) -> (r: Result<AttributeReadingKind>)
    ensures
        match event_domain_reading_kind(attr) {
            Some(k) => r matches Ok(k2) && k2 == k,
            None => r matches Err(e) && is_invalid_attribute(e, attr.variant_name()),
        },
{
    match attr {
        EventDomainAttribute::Name => Ok(AttributeReadingKind::Text),
        EventDomainAttribute::InstanceCount | EventDomainAttribute::TotalInstanceCount => Ok(
            AttributeReadingKind::Word,
        ),
        EventDomainAttribute::CollectionMethod => Ok(AttributeReadingKind::CollectionMethod),
        _ => Err(Error::InvalidAttribute { name: attr.name().to_owned() }),
    }
}

/// Decodes what reading an event domain attribute gave: its name, an instance count,
/// or its collection method. A reading of another C type than the attribute's, or
/// `ForceInt`, gives `Error::InvalidAttribute`.
pub fn event_domain_attribute_value(
    attr: EventDomainAttribute,
    reading: AttributeReading,
) -> (r: Result<EventDomainAttributeValue>)
    ensures
        match event_domain_value_of(attr, reading) {
            Some(v) => r == Ok::<EventDomainAttributeValue, Error>(v),
            None => r matches Err(e) && is_invalid_attribute(e, attr.variant_name()),
        },
{
    match (attr, reading) {
        (EventDomainAttribute::Name, AttributeReading::Text(s)) => Ok(EventDomainAttributeValue::Name(s)),
        (EventDomainAttribute::InstanceCount, AttributeReading::Word(w)) => Ok(EventDomainAttributeValue::U32(w)),
        (EventDomainAttribute::TotalInstanceCount, AttributeReading::Word(w)) => Ok(
            EventDomainAttributeValue::U32(w),
        ),
        (EventDomainAttribute::CollectionMethod, AttributeReading::CollectionMethod(m)) => Ok(
            EventDomainAttributeValue::CollectionMethod(m),
        ),
        _ => Err(Error::InvalidAttribute { name: attr.name().to_owned() }),
    }
}

/// The C type a metric attribute is read as; `None` for `ForceInt`.
pub open spec fn metric_reading_kind(attr: MetricAttribute) -> Option<AttributeReadingKind> {
    match attr {
        MetricAttribute::Name => Some(AttributeReadingKind::Text),
        MetricAttribute::ShortDescription => Some(AttributeReadingKind::Text),
        MetricAttribute::LongDescription => Some(AttributeReadingKind::Text),
        MetricAttribute::Category => Some(AttributeReadingKind::MetricCategory),
        MetricAttribute::ValueKind => Some(AttributeReadingKind::MetricValueKind),
        MetricAttribute::EvaluationMode => Some(AttributeReadingKind::EvaluationMode),
        _ => None,
    }
}

/// The value that reading `attr` of a metric as `reading` gives, or `None` when the
/// reading is not of the attribute's C type.
pub open spec fn metric_value_of(attr: MetricAttribute, reading: AttributeReading) -> Option<MetricAttributeValue> {
    match (attr, reading) {
        (MetricAttribute::Name, AttributeReading::Text(s)) => Some(MetricAttributeValue::Name(s)),
        (MetricAttribute::ShortDescription, AttributeReading::Text(s)) => Some(
            MetricAttributeValue::ShortDescription(s),
        ),
        (MetricAttribute::LongDescription, AttributeReading::Text(s)) => Some(
            MetricAttributeValue::LongDescription(s),
        ),
        (MetricAttribute::Category, AttributeReading::MetricCategory(c)) => Some(MetricAttributeValue::Category(c)),
        (MetricAttribute::ValueKind, AttributeReading::MetricValueKind(k)) => Some(
            MetricAttributeValue::ValueKind(k),
        ),
        (MetricAttribute::EvaluationMode, AttributeReading::EvaluationMode(m)) => Some(
            MetricAttributeValue::EvaluationMode(m),
        ),
        _ => None,
    }
}

/// Returns the C type in which a metric attribute is read, or
/// `Error::InvalidAttribute` naming it for `ForceInt`.
pub fn metric_attribute_reading(attr: MetricAttribute) -> (r: Result<AttributeReadingKind>)
    ensures
        match metric_reading_kind(attr) {
            Some(k) => r matches Ok(k2) && k2 == k,
            None => r matches Err(e) && is_invalid_attribute(e, attr.variant_name()),
        },
{
    match attr {
        MetricAttribute::Name | MetricAttribute::ShortDescription | MetricAttribute::LongDescription => Ok(
            AttributeReadingKind::Text,
        ),
        MetricAttribute::Category => Ok(AttributeReadingKind::MetricCategory),
        MetricAttribute::ValueKind => Ok(AttributeReadingKind::MetricValueKind),
        MetricAttribute::EvaluationMode => Ok(AttributeReadingKind::EvaluationMode),
        _ => Err(Error::InvalidAttribute { name: attr.name().to_owned() }),
    }
}

/// Decodes what reading a metric attribute gave: its name or descriptions, its
/// category, the kind of its values, or its evaluation mode. A reading of another C
/// type than the attribute's, or `ForceInt`, gives `Error::InvalidAttribute`.
pub fn metric_attribute_value(attr: MetricAttribute, reading: AttributeReading) -> (r: Result<MetricAttributeValue>)
    ensures
        match metric_value_of(attr, reading) {
            Some(v) => r == Ok::<MetricAttributeValue, Error>(v),
            None => r matches Err(e) && is_invalid_attribute(e, attr.variant_name()),
        },
{
    match (attr, reading) {
        (MetricAttribute::Name, AttributeReading::Text(s)) => Ok(MetricAttributeValue::Name(s)),
        (MetricAttribute::ShortDescription, AttributeReading::Text(s)) => Ok(MetricAttributeValue::ShortDescription(s)),
        (MetricAttribute::LongDescription, AttributeReading::Text(s)) => Ok(MetricAttributeValue::LongDescription(s)),
        (MetricAttribute::Category, AttributeReading::MetricCategory(c)) => Ok(MetricAttributeValue::Category(c)),
        (MetricAttribute::ValueKind, AttributeReading::MetricValueKind(k)) => Ok(MetricAttributeValue::ValueKind(k)),
        (MetricAttribute::EvaluationMode, AttributeReading::EvaluationMode(m)) => Ok(
            MetricAttributeValue::EvaluationMode(m),
        ),
        _ => Err(Error::InvalidAttribute { name: attr.name().to_owned() }),
    }
}

/// The C type a device attribute is read as: the device class for `DeviceClass`, a
/// 32-bit word for every other attribute; `None` for `ForceInt`.
pub open spec fn device_reading_kind(attr: DeviceAttribute) -> Option<AttributeReadingKind> {
    if attr == DeviceAttribute::ForceInt {
        None
    } else if attr == DeviceAttribute::DeviceClass {
        Some(AttributeReadingKind::DeviceClass)
    } else {
        Some(AttributeReadingKind::Word)
    }
}

/// The value that reading `attr` of a device as `reading` gives, or `None` when the
/// reading is not of the attribute's C type.
pub open spec fn device_value_of(attr: DeviceAttribute, reading: AttributeReading) -> Option<DeviceAttributeValue> {
    if attr == DeviceAttribute::ForceInt {
        None
    } else if attr == DeviceAttribute::DeviceClass {
        match reading {
            AttributeReading::DeviceClass(c) => Some(DeviceAttributeValue::DeviceClass(c)),
            _ => None,
        }
    } else {
        match reading {
            AttributeReading::Word(w) => Some(DeviceAttributeValue::U32(w)),
            _ => None,
        }
    }
}

/// Returns the C type in which a device attribute is read, or
/// `Error::InvalidAttribute` naming it for `ForceInt`.
pub fn device_attribute_reading(attr: DeviceAttribute) -> (r: Result<AttributeReadingKind>)
    ensures
        match device_reading_kind(attr) {
            Some(k) => r matches Ok(k2) && k2 == k,
            None => r matches Err(e) && is_invalid_attribute(e, attr.variant_name()),
        },
{
    match attr {
        DeviceAttribute::DeviceClass => Ok(AttributeReadingKind::DeviceClass),
        DeviceAttribute::ForceInt => Err(Error::InvalidAttribute { name: attr.name().to_owned() }),
        _ => Ok(AttributeReadingKind::Word),
    }
}

/// Decodes what reading a device attribute gave: the device class, or the 32-bit
/// value of any other attribute. A reading of another C type than the attribute's, or
/// `ForceInt`, gives `Error::InvalidAttribute`.
pub fn device_attribute_value(attr: DeviceAttribute, reading: AttributeReading) -> (r: Result<DeviceAttributeValue>)
    ensures
        match device_value_of(attr, reading) {
            Some(v) => r == Ok::<DeviceAttributeValue, Error>(v),
            None => r matches Err(e) && is_invalid_attribute(e, attr.variant_name()),
        },
{
    match attr {
        DeviceAttribute::ForceInt => Err(Error::InvalidAttribute { name: attr.name().to_owned() }),
        DeviceAttribute::DeviceClass => match reading {
            AttributeReading::DeviceClass(c) => Ok(DeviceAttributeValue::DeviceClass(c)),
            _ => Err(Error::InvalidAttribute { name: attr.name().to_owned() }),
        },
        _ => match reading {
            AttributeReading::Word(w) => Ok(DeviceAttributeValue::U32(w)),
            _ => Err(Error::InvalidAttribute { name: attr.name().to_owned() }),
        },
    }
}

/// An attribute query decodes exactly the readings of the C type its attribute is
/// read as, for every attribute family.
pub proof fn lemma_attribute_values_follow_reading_kind(
    group_attr: EventGroupAttribute,
    event_attr: EventAttribute,
    domain_attr: EventDomainAttribute,
    metric_attr: MetricAttribute,
    device_attr: DeviceAttribute,
    reading: AttributeReading,
)
    ensures
        event_value_of(event_attr, reading) is Some <==> event_reading_kind(event_attr) == Some(reading.kind()),
        event_domain_value_of(domain_attr, reading) is Some <==> event_domain_reading_kind(domain_attr) == Some(
            reading.kind(),
        ),
        metric_value_of(metric_attr, reading) is Some <==> metric_reading_kind(metric_attr) == Some(reading.kind()),
        device_value_of(device_attr, reading) is Some <==> device_reading_kind(device_attr) == Some(reading.kind()),
        event_group_reading_kind(group_attr) != Some(reading.kind()) ==> forall|v: EventGroupAttributeValue|
            !event_group_value_decodes(group_attr, reading, v),
{
}

/// Whether `value` is what reading `attr` as `reading` gives: a value of the attribute
/// read, made from the reading.
pub open spec fn metric_value_read_from(value: MetricAttributeValue, attr: MetricAttribute, reading: AttributeReading) -> bool {
    match value {
        MetricAttributeValue::Name(s) => attr == MetricAttribute::Name && reading == AttributeReading::Text(s),
        MetricAttributeValue::ShortDescription(s) => attr == MetricAttribute::ShortDescription && reading
            == AttributeReading::Text(s),
        MetricAttributeValue::LongDescription(s) => attr == MetricAttribute::LongDescription && reading
            == AttributeReading::Text(s),
        MetricAttributeValue::Category(c) => attr == MetricAttribute::Category && reading
            == AttributeReading::MetricCategory(c),
        MetricAttributeValue::ValueKind(k) => attr == MetricAttribute::ValueKind && reading
            == AttributeReading::MetricValueKind(k),
        MetricAttributeValue::EvaluationMode(m) => attr == MetricAttribute::EvaluationMode && reading
            == AttributeReading::EvaluationMode(m),
    }
}

/// A metric attribute value is always a value of the attribute that was read, carrying
/// what was read: a text reading of `ShortDescription` gives `ShortDescription` of that
/// text, never another attribute's value.
pub proof fn lemma_metric_value_is_of_attribute_read(attr: MetricAttribute, reading: AttributeReading)
    ensures
        metric_value_of(attr, reading) matches Some(v) ==> metric_value_read_from(v, attr, reading),
{
}

/// Whether `value` is what reading `attr` as `reading` gives.
pub open spec fn event_value_read_from(value: EventAttributeValue, attr: EventAttribute, reading: AttributeReading) -> bool {
    match value {
        EventAttributeValue::Name(s) => attr == EventAttribute::Name && reading == AttributeReading::Text(s),
        EventAttributeValue::ShortDescription(s) => attr == EventAttribute::ShortDescription && reading
            == AttributeReading::Text(s),
        EventAttributeValue::LongDescription(s) => attr == EventAttribute::LongDescription && reading
            == AttributeReading::Text(s),
        EventAttributeValue::Category(c) => attr == EventAttribute::Category && reading
            == AttributeReading::EventCategory(c),
        EventAttributeValue::ProfilingScope(p) => attr == EventAttribute::ProfilingScope && reading
            == AttributeReading::ProfilingScope(p),
    }
}

/// An event attribute value is always a value of the attribute that was read, carrying
/// what was read.
pub proof fn lemma_event_value_is_of_attribute_read(attr: EventAttribute, reading: AttributeReading)
    ensures
        event_value_of(attr, reading) matches Some(v) ==> event_value_read_from(v, attr, reading),
{
}

/// Whether `value` is what reading `attr` as `reading` gives; both instance counts are
/// plain words.
pub open spec fn event_domain_value_read_from(
    value: EventDomainAttributeValue,
    attr: EventDomainAttribute,
    reading: AttributeReading,
) -> bool {
    match value {
        EventDomainAttributeValue::Name(s) => attr == EventDomainAttribute::Name && reading == AttributeReading::Text(s),
        EventDomainAttributeValue::U32(w) => (attr == EventDomainAttribute::InstanceCount || attr
            == EventDomainAttribute::TotalInstanceCount) && reading == AttributeReading::Word(w),
        EventDomainAttributeValue::CollectionMethod(m) => attr == EventDomainAttribute::CollectionMethod && reading
            == AttributeReading::CollectionMethod(m),
    }
}

/// An event domain attribute value is always a value of the attribute that was read,
/// carrying what was read.
pub proof fn lemma_event_domain_value_is_of_attribute_read(attr: EventDomainAttribute, reading: AttributeReading)
    ensures
        event_domain_value_of(attr, reading) matches Some(v) ==> event_domain_value_read_from(v, attr, reading),
{
}

/// Whether `value` is what reading `attr` as `reading` gives: the device class for the
/// device-class attribute, a word for any other.
pub open spec fn device_value_read_from(value: DeviceAttributeValue, attr: DeviceAttribute, reading: AttributeReading) -> bool {
    match value {
        DeviceAttributeValue::DeviceClass(c) => attr == DeviceAttribute::DeviceClass && reading
            == AttributeReading::DeviceClass(c),
        DeviceAttributeValue::U32(w) => attr != DeviceAttribute::DeviceClass && attr != DeviceAttribute::ForceInt
            && reading == AttributeReading::Word(w),
    }
}

/// A device attribute value is always a value of the attribute that was read, carrying
/// what was read.
pub proof fn lemma_device_value_is_of_attribute_read(attr: DeviceAttribute, reading: AttributeReading)
    ensures
        device_value_of(attr, reading) matches Some(v) ==> device_value_read_from(v, attr, reading),
{
}

/// Whether `value` is what reading `attr` as `reading` gives: the domain identifier,
/// flag, counts, event identifiers or scope read.
pub open spec fn event_group_value_read_from(
    value: EventGroupAttributeValue,
    attr: EventGroupAttribute,
    reading: AttributeReading,
) -> bool {
    match value {
        EventGroupAttributeValue::EventDomainId(d) => attr == EventGroupAttribute::EventDomainId && (reading matches AttributeReading::Word(
            w,
        ) && d@ == w),
        EventGroupAttributeValue::ProfileAllDomainInstances(b) => attr == EventGroupAttribute::ProfileAllDomainInstances
            && (reading matches AttributeReading::Word(w) && b == (w != 0)),
        EventGroupAttributeValue::NumEvents(n) => attr == EventGroupAttribute::NumEvents && reading == AttributeReading::Word(
            n,
        ),
        EventGroupAttributeValue::Events(events) => attr == EventGroupAttribute::Events && (reading matches AttributeReading::Ids(
            ids,
        ) && events@.len() == ids@.len() && forall|i: int| 0 <= i < ids@.len() ==> #[trigger] events@[i]@ == ids@[i]),
        EventGroupAttributeValue::InstanceCount(n) => attr == EventGroupAttribute::InstanceCount && reading
            == AttributeReading::Word(n),
        EventGroupAttributeValue::ProfilingScope(p) => attr == EventGroupAttribute::ProfilingScope && reading
            == AttributeReading::ProfilingScope(p),
    }
}

/// An event group attribute value is always a value of the attribute that was read,
/// carrying what was read.
pub proof fn lemma_event_group_value_is_of_attribute_read(
    attr: EventGroupAttribute,
    reading: AttributeReading,
    value: EventGroupAttributeValue,
)
    requires
        event_group_value_decodes(attr, reading, value),
    ensures
        event_group_value_read_from(value, attr, reading),
{
}

} // verus!
