use offline_audio_context::CallbackHandle;
use offline_audio_context::Event;
use offline_audio_context::ListenerRegistry;

#[test]
fn register_then_unregister_leaves_registry_empty() {
    let mut reg = ListenerRegistry::new();
    let id = reg.register(CallbackHandle::new());
    assert_eq!(reg.len(), 1);

    let removed = reg.unregister(id);
    assert_eq!(reg.len(), 0);
    let handle = removed.expect("the registered handle is removed");
    assert!(!handle.is_active());
    assert_eq!(handle.delivered_count(), 0);
}

#[test]
fn second_unregister_of_same_id_is_a_no_op() {
    let mut reg = ListenerRegistry::new();
    let id = reg.register(CallbackHandle::new());
    let first = reg.unregister(id);
    assert!(first.is_some());

    let second = reg.unregister(id);
    assert!(second.is_none());
    assert_eq!(reg.len(), 0);
}

#[test]
fn unregister_of_absent_id_is_a_no_op() {
    let mut reg = ListenerRegistry::new();
    let id = reg.register(CallbackHandle::new());
    assert!(reg.unregister(id + 1).is_none());
    assert_eq!(reg.len(), 1);
}

#[test]
fn registration_ids_are_fresh_and_never_reused() {
    let mut reg = ListenerRegistry::new();
    let first = reg.register(CallbackHandle::new());
    assert_eq!(first, 0);
    reg.unregister(first);
    let second = reg.register(CallbackHandle::new());
    assert_eq!(second, 1);
    assert_ne!(first, second);
}

#[test]
fn drain_all_revokes_every_handle_and_empties_the_registry() {
    let mut reg = ListenerRegistry::new();
    reg.register(CallbackHandle::new());
    reg.register(CallbackHandle::new());
    assert_eq!(reg.len(), 2);

    let revoked = reg.drain_all();
    assert_eq!(reg.len(), 0);
    assert_eq!(revoked.len(), 2);
    for handle in &revoked {
        assert!(!handle.is_active());
    }
}

#[test]
fn drain_all_twice_changes_nothing_the_second_time() {
    let mut reg = ListenerRegistry::new();
    reg.register(CallbackHandle::new());
    let first = reg.drain_all();
    assert_eq!(first.len(), 1);
    assert_eq!(reg.len(), 0);

    let second = reg.drain_all();
    assert_eq!(second.len(), 0);
    assert_eq!(reg.len(), 0);
}

#[test]
fn drained_handles_receive_no_further_invocations() {
    let mut reg = ListenerRegistry::new();
    reg.register(CallbackHandle::new());
    let mut revoked = reg.drain_all();
    let handle = &mut revoked[0];

    let enqueued = handle.invoke(Event::StateChange);
    assert!(!enqueued);
    assert_eq!(handle.delivered_count(), 0);
}

#[test]
fn unregister_then_drain_revokes_each_handle_exactly_once() {
    let mut reg = ListenerRegistry::new();
    let id_a = reg.register(CallbackHandle::new());
    let _id_b = reg.register(CallbackHandle::new());

    let removed_a = reg.unregister(id_a).expect("listener is registered");
    assert!(!removed_a.is_active());

    let revoked = reg.drain_all();
    assert_eq!(revoked.len(), 1);
    assert!(!revoked[0].is_active());
    assert_eq!(reg.len(), 0);
}

#[test]
fn dispatch_reaches_every_registered_handle_in_order() {
    let mut reg = ListenerRegistry::new();
    reg.register(CallbackHandle::new());
    reg.register(CallbackHandle::new());

    assert_eq!(reg.dispatch(Event::StateChange), 2);
    assert_eq!(reg.dispatch(Event::Complete), 2);

    let handles = reg.drain_all();
    for handle in &handles {
        assert_eq!(handle.delivered_count(), 2);
        assert_eq!(handle.delivered_at(0), Event::StateChange);
        assert_eq!(handle.delivered_at(1), Event::Complete);
    }
}

#[test]
fn dispatch_on_empty_registry_delivers_nothing() {
    let mut reg = ListenerRegistry::new();
    assert_eq!(reg.dispatch(Event::StateChange), 0);
}

#[test]
fn invocations_on_one_handle_stay_fifo_across_interleavings() {
    let mut a = CallbackHandle::new();
    let mut b = CallbackHandle::new();

    assert!(a.invoke(Event::StateChange));
    assert!(b.invoke(Event::Complete));
    assert!(a.invoke(Event::Complete));

    assert_eq!(a.delivered_count(), 2);
    assert_eq!(a.delivered_at(0), Event::StateChange);
    assert_eq!(a.delivered_at(1), Event::Complete);
    assert_eq!(b.delivered_count(), 1);
    assert_eq!(b.delivered_at(0), Event::Complete);
}

#[test]
fn revocation_keeps_already_delivered_events() {
    let mut h = CallbackHandle::new();
    assert!(h.invoke(Event::StateChange));
    h.revoke();
    assert!(!h.is_active());
    assert_eq!(h.delivered_count(), 1);
    assert_eq!(h.delivered_at(0), Event::StateChange);
}
