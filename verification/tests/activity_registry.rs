use singe::cupti::activity::{
    global_register_callbacks, ActivityBufferCallbackConfig, ActivityCallbackRegistry, ActivityCollector,
};

#[test]
fn activity_collector_drop_only_clears_owned_registration() {
    let mut registry = ActivityCallbackRegistry::new();
    let collector = ActivityCollector::create(&mut registry, ActivityBufferCallbackConfig::new(32), Ok(()))
        .expect("collector registration");
    let _registration = global_register_callbacks(&mut registry, ActivityBufferCallbackConfig::new(64), Ok(()))
        .expect("global registration");

    collector.release(&mut registry);

    let callbacks = registry.state();
    assert!(callbacks.is_some());
    assert_eq!(callbacks.as_ref().unwrap().buffer_size, 64);
}
