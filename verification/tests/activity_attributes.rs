use singe::cupti::activity::attribute::{
    attribute_setting_word, attribute_storage, attribute_value_from_word, ActivityAttributeStorage,
    ActivityAttributeWord,
};
use singe::cupti::error::Error;
use singe::cupti::types::{
    ActivityAttribute, ActivityAttributeSetting, ActivityAttributeValue, ActivityThreadIdType, MultipleSubscriberState,
};

#[test]
fn typed_attribute_setter_rejects_mismatched_value_kind_before_ffi() {
    let error = attribute_setting_word(ActivityAttribute::DeviceBufferSize, ActivityAttributeSetting::Enabled(true))
        .unwrap_err();

    assert!(matches!(error, Error::InvalidAttribute { .. }));
}

#[test]
fn typed_attribute_setter_writes_size_t_for_byte_attributes() {
    let word = attribute_setting_word(ActivityAttribute::DeviceBufferSize, ActivityAttributeSetting::Bytes(4096))
        .expect("size attribute");

    assert_eq!(word, ActivityAttributeWord::Size(4096));
    assert_eq!(word.value_size(), std::mem::size_of::<usize>() as u64);
}

#[test]
fn typed_attribute_setter_writes_u8_for_bool_attributes() {
    let word = attribute_setting_word(ActivityAttribute::EnableAllSyncRecords, ActivityAttributeSetting::Enabled(true))
        .expect("switch attribute");

    assert_eq!(word, ActivityAttributeWord::Byte(1));
    assert_eq!(word.value_size(), std::mem::size_of::<u8>() as u64);
}

#[test]
fn attribute_setter_names_the_refused_attribute() {
    match attribute_setting_word(ActivityAttribute::TimestampCallback, ActivityAttributeSetting::Count(1)) {
        Err(Error::InvalidAttribute { name }) => assert_eq!(name, "TimestampCallback"),
        other => panic!("unexpected {other:?}"),
    }
}

#[test]
fn attribute_setter_writes_counts_switch_off_and_thread_id_type() {
    assert_eq!(
        attribute_setting_word(ActivityAttribute::DeviceBufferPoolLimit, ActivityAttributeSetting::Count(7)).unwrap(),
        ActivityAttributeWord::Size(7)
    );
    assert_eq!(
        attribute_setting_word(ActivityAttribute::CigMode, ActivityAttributeSetting::Enabled(false)).unwrap(),
        ActivityAttributeWord::Byte(0)
    );
    let word = attribute_setting_word(
        ActivityAttribute::ThreadIdType,
        ActivityAttributeSetting::ThreadIdType(ActivityThreadIdType::System),
    )
    .unwrap();
    assert_eq!(word, ActivityAttributeWord::ThreadIdType(ActivityThreadIdType::System));
    assert_eq!(word.value_size(), 4);
    assert!(attribute_setting_word(ActivityAttribute::MultipleSubscriberState, ActivityAttributeSetting::Enabled(true)).is_err());
}

#[test]
fn attribute_storage_follows_attribute_type() {
    assert_eq!(attribute_storage(ActivityAttribute::DeviceBufferSize).unwrap(), ActivityAttributeStorage::Size);
    assert_eq!(attribute_storage(ActivityAttribute::ProfilingSemaphorePoolLimit).unwrap(), ActivityAttributeStorage::Size);
    assert_eq!(attribute_storage(ActivityAttribute::EnableHes).unwrap(), ActivityAttributeStorage::Byte);
    assert_eq!(attribute_storage(ActivityAttribute::MultipleSubscriberState).unwrap(), ActivityAttributeStorage::Byte);
    assert_eq!(attribute_storage(ActivityAttribute::ThreadIdType).unwrap(), ActivityAttributeStorage::ThreadIdType);
    assert!(matches!(attribute_storage(ActivityAttribute::DeviceBufferForceInt), Err(Error::InvalidAttribute { .. })));
}

#[test]
fn attribute_reader_decodes_words() {
    assert_eq!(
        attribute_value_from_word(ActivityAttribute::DeviceBufferSize, ActivityAttributeWord::Size(8192)).unwrap(),
        ActivityAttributeValue::Bytes(8192)
    );
    assert_eq!(
        attribute_value_from_word(ActivityAttribute::DeviceBufferPreAllocateValue, ActivityAttributeWord::Size(3)).unwrap(),
        ActivityAttributeValue::Count(3)
    );
    assert_eq!(
        attribute_value_from_word(ActivityAttribute::ZeroedOutActivityBuffer, ActivityAttributeWord::Byte(2)).unwrap(),
        ActivityAttributeValue::Enabled(true)
    );
    assert_eq!(
        attribute_value_from_word(ActivityAttribute::MultipleSubscriberState, ActivityAttributeWord::Byte(1)).unwrap(),
        ActivityAttributeValue::MultipleSubscriberState(MultipleSubscriberState::Enabled)
    );
    assert_eq!(
        attribute_value_from_word(ActivityAttribute::MultipleSubscriberState, ActivityAttributeWord::Byte(9)).unwrap(),
        ActivityAttributeValue::MultipleSubscriberState(MultipleSubscriberState::Unknown(9))
    );
    assert!(attribute_value_from_word(ActivityAttribute::DeviceBufferSize, ActivityAttributeWord::Byte(1)).is_err());
}

#[test]
fn attribute_read_gives_back_write() {
    let settings = [
        (ActivityAttribute::DeviceBufferSize, ActivityAttributeSetting::Bytes(1 << 20), ActivityAttributeValue::Bytes(1 << 20)),
        (ActivityAttribute::DeviceBufferPoolLimit, ActivityAttributeSetting::Count(4), ActivityAttributeValue::Count(4)),
        (ActivityAttribute::PerThreadActivityBuffer, ActivityAttributeSetting::Enabled(true), ActivityAttributeValue::Enabled(true)),
        (
            ActivityAttribute::ThreadIdType,
            ActivityAttributeSetting::ThreadIdType(ActivityThreadIdType::Default),
            ActivityAttributeValue::ThreadIdType(ActivityThreadIdType::Default),
        ),
    ];
    for (attr, setting, value) in settings {
        let word = attribute_setting_word(attr, setting).unwrap();
        assert_eq!(attribute_value_from_word(attr, word).unwrap(), value);
    }
}
