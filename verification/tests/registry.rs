use video_converter::TaskRegistry;

#[test]
fn new_registry_is_empty() {
    let registry = TaskRegistry::new();
    assert!(!registry.is_active("task-1"));
    assert!(!registry.is_active(""));
}

#[test]
fn registered_task_is_active_until_unregistered() {
    let mut registry = TaskRegistry::new();
    registry.register("task-1");
    assert!(registry.is_active("task-1"));
    assert!(!registry.is_active("task-2"));
    registry.unregister("task-1");
    assert!(!registry.is_active("task-1"));
}

#[test]
fn registering_twice_is_registering_once() {
    let mut registry = TaskRegistry::new();
    registry.register("task-1");
    registry.register("task-1");
    assert!(registry.is_active("task-1"));
    registry.unregister("task-1");
    assert!(!registry.is_active("task-1"));
}

#[test]
fn cancel_takes_the_task_out() {
    let mut registry = TaskRegistry::new();
    registry.register("task-1");
    registry.register("task-2");
    registry.cancel("task-1");
    assert!(!registry.is_active("task-1"));
    assert!(registry.is_active("task-2"));
}

#[test]
fn cancel_of_unknown_task_changes_nothing() {
    let mut registry = TaskRegistry::new();
    registry.cancel("nobody");
    assert!(!registry.is_active("nobody"));
    registry.register("task-1");
    registry.cancel("nobody");
    registry.cancel("nobody");
    assert!(registry.is_active("task-1"));
    assert!(!registry.is_active("nobody"));
}

#[test]
fn unregister_after_cancel_is_harmless() {
    let mut registry = TaskRegistry::new();
    registry.register("task-1");
    registry.cancel("task-1");
    registry.unregister("task-1");
    assert!(!registry.is_active("task-1"));
}
