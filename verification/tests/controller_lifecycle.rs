use offline_audio_context::CallbackHandle;
use offline_audio_context::ConstructError;
use offline_audio_context::ControllerState;
use offline_audio_context::Event;
use offline_audio_context::OfflineContextController;
use offline_audio_context::SuspendResolution;

#[test]
fn construction_records_the_requested_length() {
    let c = OfflineContextController::new(2, 44100, 44_100_000).expect("valid configuration");
    assert_eq!(c.length(), 44100);
    assert_eq!(c.number_of_channels(), 2);
    assert_eq!(c.sample_rate_millihertz(), 44_100_000);
    assert_eq!(c.state(), ControllerState::Constructed);
    assert_eq!(c.active_listener_count(), 0);
}

#[test]
fn construction_rejects_zero_channels() {
    let r = OfflineContextController::new(0, 44100, 44_100_000);
    assert_eq!(r.err(), Some(ConstructError::ZeroChannels));
}

#[test]
fn construction_rejects_zero_length() {
    let r = OfflineContextController::new(2, 0, 44_100_000);
    assert_eq!(r.err(), Some(ConstructError::ZeroLength));
}

#[test]
fn construction_rejects_a_sample_rate_that_is_not_positive() {
    let r = OfflineContextController::new(2, 44100, 0);
    assert_eq!(r.err(), Some(ConstructError::ZeroSampleRate));
}

#[test]
fn full_render_cycle_tears_down_the_registry() {
    let mut c = OfflineContextController::new(2, 44100, 44_100_000).expect("valid configuration");
    assert_eq!(c.length(), 44100);

    let id = c.subscribe_state_change(CallbackHandle::new());
    assert_eq!(id, 0);
    assert_eq!(c.state(), ControllerState::Active);
    assert_eq!(c.active_listener_count(), 1);

    c.start_rendering();
    assert_eq!(c.state(), ControllerState::Rendering);
    assert_eq!(c.dispatch_state_change(Event::StateChange), 1);

    let revoked = c.on_render_complete();
    assert_eq!(c.state(), ControllerState::Closed);
    assert_eq!(c.active_listener_count(), 0);
    assert_eq!(revoked.len(), 1);
    assert!(!revoked[0].is_active());
    assert_eq!(revoked[0].delivered_count(), 1);
    assert_eq!(revoked[0].delivered_at(0), Event::StateChange);

    let shape = c.output_buffer_shape();
    assert_eq!(shape.number_of_channels, 2);
    assert_eq!(shape.length, 44100);

    // A synthetic event after teardown reaches nobody.
    assert_eq!(c.dispatch_state_change(Event::StateChange), 0);
}

#[test]
fn teardown_is_terminal() {
    let mut c = OfflineContextController::new(1, 1, 1).expect("valid configuration");
    c.start_rendering();
    let _ = c.on_render_complete();
    assert_eq!(c.state(), ControllerState::Closed);

    c.start_rendering();
    assert_eq!(c.state(), ControllerState::Closed);

    let revoked = c.on_render_complete();
    assert!(revoked.is_empty());
    assert_eq!(c.state(), ControllerState::Closed);
}

#[test]
fn suspend_at_or_past_the_end_resolves_at_render_completion() {
    let c = OfflineContextController::new(2, 44100, 44_100_000).expect("valid configuration");
    assert_eq!(c.suspend(44100), SuspendResolution::AtRenderCompletion);
    assert_eq!(c.suspend(u64::MAX), SuspendResolution::AtRenderCompletion);
}

#[test]
fn suspend_within_the_output_resolves_at_the_suspend_point() {
    let c = OfflineContextController::new(2, 44100, 44_100_000).expect("valid configuration");
    assert_eq!(c.suspend(0), SuspendResolution::AtSuspendPoint);
    assert_eq!(c.suspend(44099), SuspendResolution::AtSuspendPoint);
}

#[test]
fn a_single_listener_can_be_cancelled_without_touching_the_rest() {
    let mut c = OfflineContextController::new(2, 44100, 44_100_000).expect("valid configuration");
    let id_a = c.subscribe_state_change(CallbackHandle::new());
    let _id_b = c.subscribe_state_change(CallbackHandle::new());

    let removed = c.unsubscribe(id_a).expect("listener is registered");
    assert!(!removed.is_active());
    assert_eq!(c.active_listener_count(), 1);
    assert!(c.unsubscribe(id_a).is_none());
    assert_eq!(c.dispatch_state_change(Event::StateChange), 1);
}

#[test]
fn subscriptions_after_construction_get_fresh_ids() {
    let mut c = OfflineContextController::new(2, 44100, 44_100_000).expect("valid configuration");
    let first = c.subscribe_state_change(CallbackHandle::new());
    let second = c.subscribe_state_change(CallbackHandle::new());
    assert_eq!(first, 0);
    assert_eq!(second, 1);
    assert_eq!(c.active_listener_count(), 2);
}
