use singe::cupti::callback::{
    callback_data_kind, enabled_callbacks_from_query, CallbackData, CallbackDataKind, CallbackDataPointer,
    RawApiCallbackData, RawCallbackData, RawNvtxData, RawResourceData, RawStateData, RawSynchronizeData,
    SubscriberParams, OLD_SUBSCRIBER_NAME_MIN_LEN, SUBSCRIBER_PARAMS_STRUCT_SIZE,
};
use singe::cupti::error::{Error, Status};
use singe::cupti::types::{ApiCallbackSite, CallbackDomain, CallbackId, ContextId, CorrelationId};

fn api_payload() -> RawCallbackData {
    RawCallbackData::Api(RawApiCallbackData {
        callback_site: 0,
        function_name: Some(b"cuLaunchKernel".to_vec()),
        symbol_name: Some(b"kernel".to_vec()),
        context_uid: 7,
        correlation_id: 11,
    })
}

#[test]
fn null_callback_data_pointer_does_not_decode() {
    let pointer = CallbackDataPointer::new(0);

    assert!(pointer.is_null());
    assert_eq!(pointer.decoded_kind(CallbackDomain::DriverApi), None);
    assert_eq!(pointer.with_decoded(CallbackDomain::DriverApi, api_payload(), |_| true), None);
}

#[test]
fn callback_data_pointer_decodes_api_callback_data() {
    let pointer = CallbackDataPointer::new(0x1000);
    let decoded = pointer.with_decoded(CallbackDomain::DriverApi, api_payload(), |data| match data {
        CallbackData::Api(data) => {
            assert_eq!(data.site(), ApiCallbackSite::Enter);
            assert_eq!(std::str::from_utf8(data.function_name().unwrap()).unwrap(), "cuLaunchKernel");
            assert_eq!(std::str::from_utf8(data.symbol_name().unwrap()).unwrap(), "kernel");
            assert_eq!(data.context_id(), ContextId::from(7));
            assert_eq!(data.correlation_id(), CorrelationId::from(11));
            true
        }
        _ => false,
    });

    assert_eq!(decoded, Some(true));
}

#[test]
fn callback_data_pointer_decodes_state_notification() {
    let pointer = CallbackDataPointer::new(0x1000);
    let raw = RawCallbackData::State(RawStateData { result: 0, message: Some(b"state changed".to_vec()) });
    let decoded = pointer.with_decoded(CallbackDomain::State, raw, |data| match data {
        CallbackData::State(data) => {
            assert_eq!(data.notification_result(), Status::Success);
            assert_eq!(std::str::from_utf8(data.notification_message().unwrap()).unwrap(), "state changed");
            true
        }
        _ => false,
    });

    assert_eq!(decoded, Some(true));
}

#[test]
fn callback_data_pointer_decodes_nvtx_callback_data() {
    let pointer = CallbackDataPointer::new(0x1000);
    let raw = RawCallbackData::Nvtx(RawNvtxData { function_name: Some(b"nvtxRangePushEx".to_vec()) });
    let decoded = pointer.with_decoded(CallbackDomain::Nvtx, raw, |data| match data {
        CallbackData::Nvtx(data) => {
            assert_eq!(std::str::from_utf8(data.function_name().unwrap()).unwrap(), "nvtxRangePushEx");
            true
        }
        _ => false,
    });

    assert_eq!(decoded, Some(true));
}

#[test]
fn callback_payload_fields_and_fallbacks() {
    let pointer = CallbackDataPointer::new(0x1000);
    let raw = RawCallbackData::Resource(RawResourceData { context: 0x40, resource_descriptor: 0 });
    let flags = pointer.with_decoded(CallbackDomain::Resource, raw, |data| match data {
        CallbackData::Resource(d) => Some((d.has_context(), d.has_resource_descriptor())),
        _ => None,
    });
    assert_eq!(flags, Some(Some((true, false))));

    let raw = RawCallbackData::Synchronize(RawSynchronizeData { context: 0, stream: 0x80 });
    let flags = pointer.with_decoded(CallbackDomain::Synchronize, raw, |data| match data {
        CallbackData::Synchronize(d) => Some((d.has_context(), d.has_stream())),
        _ => None,
    });
    assert_eq!(flags, Some(Some((false, true))));

    let unknown = pointer.with_decoded(CallbackDomain::Invalid, api_payload(), |data| data == CallbackData::Unknown);
    assert_eq!(unknown, Some(true));

    let raw = RawCallbackData::Api(RawApiCallbackData {
        callback_site: 9,
        function_name: None,
        symbol_name: None,
        context_uid: 0,
        correlation_id: 0,
    });
    let site = pointer.with_decoded(CallbackDomain::RuntimeApi, raw, |data| match data {
        CallbackData::Api(d) => Some((d.site(), d.function_name().is_none(), d.symbol_name().is_none())),
        _ => None,
    });
    assert_eq!(site, Some(Some((ApiCallbackSite::ForceInt, true, true))));

    let raw = RawCallbackData::State(RawStateData { result: 12345, message: None });
    let result = pointer.with_decoded(CallbackDomain::State, raw, |data| match data {
        CallbackData::State(d) => Some((d.notification_result(), d.notification_message().is_none())),
        _ => None,
    });
    assert_eq!(result, Some(Some((Status::Unknown, true))));
}

#[test]
fn callback_data_pointer_decodes_by_domain() {
    let pointer = CallbackDataPointer::new(0x1000);
    assert!(!pointer.is_null());
    assert_eq!(pointer.address(), 0x1000);
    assert_eq!(pointer.decoded_kind(CallbackDomain::DriverApi), Some(CallbackDataKind::Api));
    assert_eq!(pointer.decoded_kind(CallbackDomain::RuntimeApi), Some(CallbackDataKind::Api));
    assert_eq!(pointer.decoded_kind(CallbackDomain::State), Some(CallbackDataKind::State));
    assert_eq!(pointer.decoded_kind(CallbackDomain::Nvtx), Some(CallbackDataKind::Nvtx));
    assert_eq!(callback_data_kind(CallbackDomain::Resource), CallbackDataKind::Resource);
    assert_eq!(callback_data_kind(CallbackDomain::Synchronize), CallbackDataKind::Synchronize);
    assert_eq!(callback_data_kind(CallbackDomain::Invalid), CallbackDataKind::Unknown);
}

#[test]
fn subscriber_params_rejects_interior_nul_names() {
    let error = SubscriberParams::new().with_subscriber_name("bad\0name").unwrap_err();

    assert!(matches!(error, Error::InteriorNul));
}

#[test]
fn subscriber_params_builder_sets_name_and_multiple_subscribers() {
    let params = SubscriberParams::new()
        .with_subscriber_name("singe-cupti-test")
        .unwrap()
        .with_multiple_subscribers(true);

    assert_eq!(params.subscriber_name(), Some("singe-cupti-test".as_bytes()));
    assert!(params.allow_multiple_subscribers());
    let raw = params.as_raw_fields();
    assert!(raw.has_subscriber_name);
    assert_eq!(raw.allow_multiple_subscribers, 1);
}

#[test]
fn subscriber_params_default_raw_state_is_valid() {
    let params = SubscriberParams::new();
    let raw = params.as_raw_fields();

    assert_eq!(raw.struct_size, SUBSCRIBER_PARAMS_STRUCT_SIZE);
    assert!(!raw.has_subscriber_name);
    assert!(raw.has_old_subscriber_name);
    assert_eq!(raw.old_subscriber_size, OLD_SUBSCRIBER_NAME_MIN_LEN as u64);
    assert_eq!(raw.allow_multiple_subscribers, 0);
    assert_eq!(params.old_subscriber_name(), None);
    assert_eq!(params.subscriber_name(), None);
}

#[test]
fn old_subscriber_name_is_read_up_to_nul() {
    let mut params = SubscriberParams::new();
    params.set_old_subscriber_name_buffer(b"profiler\0junk".to_vec());
    assert_eq!(params.old_subscriber_name(), Some(String::from("profiler")));
    params.set_old_subscriber_name_buffer(vec![0; 8]);
    assert_eq!(params.old_subscriber_name(), None);
}

#[test]
fn enabled_callbacks_are_cut_to_the_reported_count() {
    assert_eq!(enabled_callbacks_from_query(vec![3, 4, 5], 2), vec![CallbackId::from(3), CallbackId::from(4)]);
    assert_eq!(enabled_callbacks_from_query(vec![3], 5), vec![CallbackId::from(3)]);
}
