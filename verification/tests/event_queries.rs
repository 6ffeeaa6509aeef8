use singe::cupti::error::Error;
use singe::cupti::event::{
    array_from_retry, array_len_for_size, device_attribute_reading, device_attribute_value, event_attribute_reading,
    event_attribute_value, event_domain_attribute_reading, event_domain_attribute_value, event_group_attribute_reading,
    event_group_attribute_value, event_group_setting_word, event_ids_from_raw, event_value_len,
    event_values_from_read, metric_attribute_reading, metric_attribute_value, read_all_capacity,
    read_attribute_string, to_usize, AttributeReading, AttributeReadingKind, EventGroupReadAll,
};
use singe::cupti::types::{
    DeviceAttribute, DeviceAttributeDeviceClass, DeviceAttributeValue, EventAttribute, EventAttributeValue,
    EventCategory, EventCollectionMethod, EventDomainAttribute, EventDomainAttributeValue, EventDomainId,
    EventGroupAttribute, EventGroupAttributeSetting, EventGroupAttributeValue, EventId, EventProfilingScope,
    MetricAttribute, MetricAttributeValue, MetricCategory, MetricEvaluationMode, MetricValueKind,
};

#[test]
fn event_domain_attribute_reader_maps_collection_method() {
    assert_eq!(
        event_domain_attribute_reading(EventDomainAttribute::CollectionMethod).unwrap(),
        AttributeReadingKind::CollectionMethod
    );
    let value = event_domain_attribute_value(
        EventDomainAttribute::CollectionMethod,
        AttributeReading::CollectionMethod(EventCollectionMethod::Sm),
    )
    .unwrap();

    assert_eq!(value, EventDomainAttributeValue::CollectionMethod(EventCollectionMethod::Sm));
}

#[test]
fn event_group_setter_rejects_unsupported_attributes_before_ffi() {
    let error = event_group_setting_word(
        EventGroupAttribute::UserData,
        EventGroupAttributeSetting::ProfileAllDomainInstances(true),
    )
    .unwrap_err();

    assert!(matches!(error, Error::InvalidAttribute { .. }));
}

#[test]
fn event_group_setter_writes_profile_all_instances_word() {
    let set = EventGroupAttributeSetting::ProfileAllDomainInstances(true);
    assert_eq!(event_group_setting_word(EventGroupAttribute::ProfileAllDomainInstances, set).unwrap(), 1);
    let clear = EventGroupAttributeSetting::ProfileAllDomainInstances(false);
    assert_eq!(event_group_setting_word(EventGroupAttribute::ProfileAllDomainInstances, clear).unwrap(), 0);
}

#[test]
fn string_reader_without_nul_uses_reported_size() {
    let buffer = b"abcdef".to_vec();
    assert_eq!(read_attribute_string(&buffer, 4), "abcd");
    assert_eq!(read_attribute_string(&buffer, 100), "abcdef");
    assert_eq!(read_attribute_string(&[0u8, 65], 2), "");
}

#[test]
fn string_reader_replaces_invalid_utf8() {
    let buffer = [0x66u8, 0xff, 0x67, 0];
    assert_eq!(read_attribute_string(&buffer, 4), "f\u{fffd}g");
}

#[test]
fn array_sizes_split_into_whole_elements() {
    assert_eq!(array_len_for_size(0, 4).unwrap(), 0);
    assert_eq!(array_len_for_size(16, 4).unwrap(), 4);
    match array_len_for_size(10, 4) {
        Err(Error::LengthMismatch { name, expected, actual }) => {
            assert_eq!(name, "array_size_bytes");
            assert_eq!(expected, 4);
            assert_eq!(actual, 10);
        }
        other => panic!("unexpected {other:?}"),
    }
}

#[test]
fn retried_arrays_are_cut_to_the_reported_size() {
    assert_eq!(array_from_retry(vec![1u32, 2, 3, 4], 8, 4).unwrap(), vec![1, 2]);
    assert_eq!(array_from_retry(vec![1u32, 2], 64, 4).unwrap(), vec![1, 2]);
}

#[test]
fn byte_counts_convert_to_usize() {
    assert_eq!(to_usize(12, "count").unwrap(), 12);
    assert_eq!(event_value_len(20).unwrap(), 2);
    assert_eq!(event_values_from_read(vec![5, 6, 7], 16).unwrap(), vec![5, 6]);
    assert_eq!(read_all_capacity(24, 12).unwrap(), (3, 3));
}

#[test]
fn read_all_cuts_values_and_ids() {
    let all = EventGroupReadAll::from_read(vec![10, 20, 30], 16, vec![7, 8, 9], 1).unwrap();
    assert_eq!(all.values, vec![10, 20]);
    assert_eq!(all.event_ids, vec![EventId::from(7)]);
}

#[test]
fn event_ids_wrap_raw_identifiers() {
    assert_eq!(event_ids_from_raw(&[4, 5]), vec![EventId::from(4), EventId::from(5)]);
}

#[test]
fn event_group_attributes_decode_by_reading() {
    assert_eq!(event_group_attribute_reading(EventGroupAttribute::Events).unwrap(), AttributeReadingKind::Ids);
    assert!(matches!(event_group_attribute_reading(EventGroupAttribute::UserData), Err(Error::InvalidAttribute { .. })));
    assert_eq!(
        event_group_attribute_value(EventGroupAttribute::EventDomainId, AttributeReading::Word(3)).unwrap(),
        EventGroupAttributeValue::EventDomainId(EventDomainId::from(3))
    );
    assert_eq!(
        event_group_attribute_value(EventGroupAttribute::ProfileAllDomainInstances, AttributeReading::Word(2)).unwrap(),
        EventGroupAttributeValue::ProfileAllDomainInstances(true)
    );
    assert_eq!(
        event_group_attribute_value(EventGroupAttribute::Events, AttributeReading::Ids(vec![1, 2])).unwrap(),
        EventGroupAttributeValue::Events(vec![EventId::from(1), EventId::from(2)])
    );
    assert_eq!(
        event_group_attribute_value(
            EventGroupAttribute::ProfilingScope,
            AttributeReading::ProfilingScope(EventProfilingScope::Device)
        )
        .unwrap(),
        EventGroupAttributeValue::ProfilingScope(EventProfilingScope::Device)
    );
    assert!(event_group_attribute_value(EventGroupAttribute::NumEvents, AttributeReading::Ids(vec![])).is_err());
}

#[test]
fn event_attributes_decode_by_reading() {
    assert_eq!(event_attribute_reading(EventAttribute::Name).unwrap(), AttributeReadingKind::Text);
    assert_eq!(
        event_attribute_value(EventAttribute::ShortDescription, AttributeReading::Text(String::from("short"))).unwrap(),
        EventAttributeValue::ShortDescription(String::from("short"))
    );
    assert_eq!(
        event_attribute_value(EventAttribute::Category, AttributeReading::EventCategory(EventCategory::Cache)).unwrap(),
        EventAttributeValue::Category(EventCategory::Cache)
    );
    match event_attribute_value(EventAttribute::ForceInt, AttributeReading::Word(0)) {
        Err(Error::InvalidAttribute { name }) => assert_eq!(name, "ForceInt"),
        other => panic!("unexpected {other:?}"),
    }
}

#[test]
fn metric_attributes_decode_by_reading() {
    assert_eq!(metric_attribute_reading(MetricAttribute::ValueKind).unwrap(), AttributeReadingKind::MetricValueKind);
    assert_eq!(
        metric_attribute_value(MetricAttribute::ValueKind, AttributeReading::MetricValueKind(MetricValueKind::Uint64))
            .unwrap(),
        MetricAttributeValue::ValueKind(MetricValueKind::Uint64)
    );
    assert_eq!(
        metric_attribute_value(MetricAttribute::Category, AttributeReading::MetricCategory(MetricCategory::Memory)).unwrap(),
        MetricAttributeValue::Category(MetricCategory::Memory)
    );
    assert_eq!(
        metric_attribute_value(
            MetricAttribute::EvaluationMode,
            AttributeReading::EvaluationMode(MetricEvaluationMode::Aggregate)
        )
        .unwrap(),
        MetricAttributeValue::EvaluationMode(MetricEvaluationMode::Aggregate)
    );
    assert!(metric_attribute_value(MetricAttribute::Name, AttributeReading::Word(1)).is_err());
}

#[test]
fn device_attributes_decode_by_reading() {
    assert_eq!(device_attribute_reading(DeviceAttribute::DeviceClass).unwrap(), AttributeReadingKind::DeviceClass);
    assert_eq!(device_attribute_reading(DeviceAttribute::MaxEventId).unwrap(), AttributeReadingKind::Word);
    assert_eq!(
        device_attribute_value(DeviceAttribute::DeviceClass, AttributeReading::DeviceClass(DeviceAttributeDeviceClass::Tesla))
            .unwrap(),
        DeviceAttributeValue::DeviceClass(DeviceAttributeDeviceClass::Tesla)
    );
    assert_eq!(
        device_attribute_value(DeviceAttribute::MaxEventId, AttributeReading::Word(42)).unwrap(),
        DeviceAttributeValue::U32(42)
    );
    assert!(device_attribute_value(DeviceAttribute::ForceInt, AttributeReading::Word(1)).is_err());
}
