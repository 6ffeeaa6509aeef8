use singe::cupti::activity::{
    activity_buffer_layout, completed_buffer_release, completed_valid_length, global_register_callbacks,
    register_timestamp_callback, ActivityBuffer, ActivityBufferCallbackConfig, ActivityBufferLayout,
    ActivityBufferOwned, ActivityCallbackRegistry, ActivityCollector, ACTIVITY_BUFFER_ALIGNMENT,
    take_completed_buffer,
};
use singe::cupti::error::{Error, Status};

fn cupti_error(code: Status) -> Error {
    Error::Cupti { code, message: String::from("refused") }
}

#[test]
fn activity_buffer_request_returns_eight_byte_aligned_buffer() {
    let mut registry = ActivityCallbackRegistry::new();
    registry
        .register_callbacks_with_owner(None, ActivityBufferCallbackConfig::new(17).with_max_num_records(3), Ok(()))
        .unwrap();

    let request = registry.request_activity_buffer().expect("a buffer is requested");

    assert_eq!(request.layout.align, ACTIVITY_BUFFER_ALIGNMENT);
    assert_eq!(request.layout.align % 8, 0);
    assert_eq!(request.size, 17);
    assert_eq!(request.max_num_records, 3);
}

#[test]
fn activity_collector_copies_completed_buffers() {
    let mut registry = ActivityCallbackRegistry::new();
    let mut collector = ActivityCollector::create(&mut registry, ActivityBufferCallbackConfig::new(32), Ok(())).unwrap();
    let request = registry.request_activity_buffer().unwrap();
    assert_eq!(request.size, 32);

    let mut memory = vec![0u8; request.size as usize];
    memory[..4].copy_from_slice(&[1, 2, 3, 4]);
    let valid = completed_valid_length(request.size, 4).unwrap();
    collector.record_completed(ActivityBuffer::new(&memory[..valid]));

    assert_eq!(collector.len(), 1);
    let buffers = collector.take_buffers();
    assert_eq!(buffers.len(), 1);
    assert_eq!(buffers[0].bytes(), &[1, 2, 3, 4]);
    assert!(collector.is_empty());
}

#[test]
fn activity_buffer_complete_restores_state_after_callback() {
    let mut registry = ActivityCallbackRegistry::new();
    registry.register_callbacks_with_owner(None, ActivityBufferCallbackConfig::new(32), Ok(())).unwrap();
    let before = registry.state();

    let taken = registry.take_activity_callbacks().expect("a callback is registered");
    assert_eq!(registry.state(), None);
    registry.restore_activity_callbacks(taken);

    assert_eq!(registry.state(), before);
}

#[test]
fn completed_buffer_lengths_are_capped_at_the_buffer() {
    assert_eq!(completed_valid_length(32, 5), Some(5));
    assert_eq!(completed_valid_length(32, 64), Some(32));
    assert_eq!(completed_valid_length(0, 0), Some(0));
}

#[test]
fn completed_buffer_release_frees_only_real_buffers() {
    assert_eq!(completed_buffer_release(true, 32), None);
    assert_eq!(completed_buffer_release(false, 0), None);
    assert_eq!(
        completed_buffer_release(false, 32),
        Some(ActivityBufferLayout { size: 32, align: ACTIVITY_BUFFER_ALIGNMENT })
    );
}

#[test]
fn buffer_layouts_need_a_representable_size() {
    assert_eq!(activity_buffer_layout(64), Some(ActivityBufferLayout { size: 64, align: 8 }));
    assert_eq!(activity_buffer_layout(usize::MAX), None);
}

#[test]
fn zero_sized_or_missing_registrations_request_no_buffer() {
    let mut registry = ActivityCallbackRegistry::new();
    assert_eq!(registry.request_activity_buffer(), None);
    registry.register_callbacks_with_owner(None, ActivityBufferCallbackConfig::new(0), Ok(())).unwrap();
    assert_eq!(registry.request_activity_buffer(), None);
}

#[test]
fn refused_registration_leaves_no_callback() {
    let mut registry = ActivityCallbackRegistry::new();
    let result = global_register_callbacks(
        &mut registry,
        ActivityBufferCallbackConfig::new(64),
        Err(cupti_error(Status::InvalidParameter)),
    );
    match result {
        Err(Error::Cupti { code, .. }) => assert_eq!(code, Status::InvalidParameter),
        other => panic!("unexpected {other:?}"),
    }
    assert_eq!(registry.state(), None);
}

#[test]
fn releasing_a_registration_clears_its_own_callback() {
    let mut registry = ActivityCallbackRegistry::new();
    let registration = global_register_callbacks(&mut registry, ActivityBufferCallbackConfig::new(64), Ok(())).unwrap();
    assert_eq!(registration.owner_id(), 1);
    registration.release(&mut registry);
    assert_eq!(registry.state(), None);
}

#[test]
fn owner_ids_are_handed_out_in_turn() {
    let mut registry = ActivityCallbackRegistry::new();
    assert_eq!(registry.allocate_owner_id(), 1);
    assert_eq!(registry.allocate_owner_id(), 2);
    let registration = register_timestamp_callback(&mut registry, Ok(())).unwrap();
    assert_eq!(registration.owner_id(), 3);
    assert_eq!(registry.timestamp_callback_owner(), Some(3));
    registration.release(&mut registry);
    assert_eq!(registry.timestamp_callback_owner(), None);
}

#[test]
fn refused_timestamp_registration_is_undone() {
    let mut registry = ActivityCallbackRegistry::new();
    assert!(register_timestamp_callback(&mut registry, Err(cupti_error(Status::NotSupported))).is_err());
    assert_eq!(registry.timestamp_callback_owner(), None);
}

#[test]
fn record_walk_ends_at_queue_empty_and_stays_ended() {
    let bytes = [0u8; 16];
    let buffer = ActivityBuffer::new(&bytes);
    let mut records = buffer.records();
    assert_eq!(records.valid_len(), 16);
    assert!(matches!(records.advance(Ok(0)), Some(Ok(0))));
    assert!(matches!(records.advance(Ok(8)), Some(Ok(8))));
    assert_eq!(records.current_offset(), Some(8));
    assert!(records.advance(Err(cupti_error(Status::QueueEmpty))).is_none());
    assert!(records.finished());
    assert!(records.advance(Ok(12)).is_none());
    assert_eq!(records.current_offset(), Some(8));
}

#[test]
fn record_walk_reports_other_errors_once() {
    let bytes = [0u8; 8];
    let owned = ActivityBufferOwned::copy_of(ActivityBuffer::new(&bytes));
    let mut records = owned.records();
    match records.advance(Err(cupti_error(Status::InvalidKind))) {
        Some(Err(Error::Cupti { code, .. })) => assert_eq!(code, Status::InvalidKind),
        other => panic!("unexpected {other:?}"),
    }
    assert!(records.advance(Ok(0)).is_none());
}

#[test]
fn completed_buffer_is_handed_out_with_its_valid_bytes() {
    let mut registry = ActivityCallbackRegistry::new();
    let bytes: Vec<u8> = (0u8..16).collect();

    assert!(take_completed_buffer(&mut registry, Some(&bytes), 16, 8).is_none());

    let config = ActivityBufferCallbackConfig::new(16);
    let registration = global_register_callbacks(&mut registry, config, Ok(())).unwrap();
    assert!(take_completed_buffer(&mut registry, None, 16, 8).is_none());
    assert!(registry.state().is_some());

    let (state, buffer) = take_completed_buffer(&mut registry, Some(&bytes), 16, 8).unwrap();
    assert_eq!(state.owner_id, Some(registration.owner_id()));
    assert_eq!(buffer.bytes(), &bytes[..8]);
    assert!(registry.state().is_none());
    registry.restore_activity_callbacks(state);

    let (state, buffer) = take_completed_buffer(&mut registry, Some(&bytes), 16, 40).unwrap();
    assert_eq!(buffer.len(), 16);
    registry.restore_activity_callbacks(state);

    let mut collector = ActivityCollector::create(&mut registry, config, Ok(())).unwrap();
    let (state, buffer) = take_completed_buffer(&mut registry, Some(&bytes), 16, 5).unwrap();
    collector.record_completed(buffer);
    registry.restore_activity_callbacks(state);
    let (state, buffer) = take_completed_buffer(&mut registry, Some(&bytes), 16, 0).unwrap();
    collector.record_completed(buffer);
    registry.restore_activity_callbacks(state);
    assert_eq!(collector.len(), 2);
    let taken = collector.take_buffers();
    assert_eq!(taken.iter().map(|b| b.len()).collect::<Vec<_>>(), vec![5, 0]);
    assert!(collector.is_empty());
}
