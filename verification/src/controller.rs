//! The offline context controller: the public surface that composes the
//! rendering engine's configuration with the listener registry, and the
//! lifecycle state machine that drives render control and teardown.
//!
//! The rendering engine itself is an external collaborator: the host layer
//! constructs it, awaits its asynchronous control operations, and feeds its
//! notifications back into this controller. Everything the controller
//! decides — parameter validation, state transitions, suspend scheduling,
//! listener registration and teardown on completion — is verified here
//! over plain values. Time is measured in frames: the host layer converts
//! a suspend time in seconds to a frame position using the sample rate.

use vstd::prelude::*;

use crate::event::Event;
use crate::handle::{CallbackHandle, HandleModel};
use crate::registry::{
    ListenerRegistry, RegistryModel, spec_dispatch, spec_drain, spec_drained_handles,
    spec_register, spec_unregister, spec_unregistered_handle,
};

verus! {

/// Lifecycle of a controller. `Closed` is terminal: the registry has been
/// fully drained and no further event reaches the host. Suspension is not
/// a separate state; a pending suspend point is reached during `Rendering`.
#[derive(Clone, Copy, PartialEq, Eq, Structural, Debug)]
pub enum ControllerState {
    Constructed,
    Active,
    Rendering,
    Closed,
}

/// Construction errors: the engine rejects a configuration with no
/// channels, no frames, or a sample rate that is not positive, and the
/// controller propagates that rejection verbatim.
#[derive(Clone, Copy, PartialEq, Eq, Structural, Debug)]
pub enum ConstructError {
    ZeroChannels,
    ZeroLength,
    ZeroSampleRate,
}

/// When a `suspend` call resolves: at the scheduled suspend point, or —
/// when the requested position lies at or past the end of the output —
/// only once rendering has run to completion, so the asynchronous caller
/// is never stranded.
#[derive(Clone, Copy, PartialEq, Eq, Structural, Debug)]
pub enum SuspendResolution {
    AtSuspendPoint,
    AtRenderCompletion,
}

/// The shape of the buffer that offline rendering produces: exactly the
/// configured channel count and frame length. The samples themselves stay
/// with the engine and the host layer.
#[derive(Clone, Copy, PartialEq, Eq, Structural, Debug)]
pub struct BufferShape {
    pub number_of_channels: u64,
    pub length: u64,
}

/// Mathematical model of a controller: its lifecycle state, the engine
/// configuration it was constructed with, and its listener registry.
#[verifier::ext_equal]
pub ghost struct ControllerModel {
    pub state: ControllerState,
    pub number_of_channels: u64,
    pub length: u64,
    pub sample_rate_millihertz: u64,
    pub registry: RegistryModel,
}

/// A configuration the engine accepts: at least one channel, at least one
/// frame, and a positive sample rate.
pub open spec fn valid_config(
    number_of_channels: u64,
    length: u64,
    sample_rate_millihertz: u64,
) -> bool {
    number_of_channels >= 1 && length >= 1 && sample_rate_millihertz >= 1
}

/// The model a fresh controller starts in.
pub open spec fn spec_new_model(
    number_of_channels: u64,
    length: u64,
    sample_rate_millihertz: u64,
) -> ControllerModel {
    ControllerModel {
        state: ControllerState::Constructed,
        number_of_channels,
        length,
        sample_rate_millihertz,
        registry: RegistryModel { next_id: 0, entries: Seq::empty() },
    }
}

/// What starting to render does to the lifecycle: a controller that has
/// not finished moves to `Rendering` (a second concurrent start leaves
/// engine-defined behaviour to the engine and the state as it is); a
/// closed controller stays closed — teardown is terminal.
pub open spec fn spec_begin_rendering(s: ControllerState) -> ControllerState {
    match s {
        ControllerState::Constructed => ControllerState::Rendering,
        ControllerState::Active => ControllerState::Rendering,
        ControllerState::Rendering => ControllerState::Rendering,
        ControllerState::Closed => ControllerState::Closed,
    }
}

/// What subscribing does to the lifecycle: a freshly constructed
/// controller becomes `Active`; any other state is kept.
pub open spec fn spec_subscribe_state(s: ControllerState) -> ControllerState {
    match s {
        ControllerState::Constructed => ControllerState::Active,
        _ => s,
    }
}

/// The controller: the host-facing surface of one offline rendering
/// context. It owns exactly one listener registry for its lifetime and
/// records the engine configuration as plain values.
pub struct OfflineContextController {
    state: ControllerState,
    number_of_channels: u64,
    length: u64,
    sample_rate_millihertz: u64,
    registry: ListenerRegistry,
}

impl View for OfflineContextController {
    type V = ControllerModel;

    closed spec fn view(&self) -> ControllerModel {
        ControllerModel {
            state: self.state,
            number_of_channels: self.number_of_channels,
            length: self.length,
            sample_rate_millihertz: self.sample_rate_millihertz,
            registry: self.registry@,
        }
    }
}

impl OfflineContextController {
    /// Constructs a controller for an offline context with the given
    /// channel count, frame length and sample rate (in millihertz, so any
    /// positive rate below 1 Hz is still representable). A configuration
    /// the engine would reject — zero channels, zero length, or a rate
    /// that is not positive — is rejected here with the matching error,
    /// checked in that order, and yields no controller.
    pub fn new(number_of_channels: u64, length: u64, sample_rate_millihertz: u64) -> (r: Result<
        OfflineContextController,
        ConstructError,
    >)
        ensures
            r is Ok <==> valid_config(number_of_channels, length, sample_rate_millihertz),
            r is Ok ==> r->Ok_0@ == spec_new_model(
                number_of_channels,
                length,
                sample_rate_millihertz,
            ) && r->Ok_0@.registry.wf(),
            number_of_channels == 0 ==> r == Result::<
                OfflineContextController,
                ConstructError,
            >::Err(ConstructError::ZeroChannels),
            number_of_channels >= 1 && length == 0 ==> r == Result::<
                OfflineContextController,
                ConstructError,
            >::Err(ConstructError::ZeroLength),
            number_of_channels >= 1 && length >= 1 && sample_rate_millihertz == 0 ==> r
                == Result::<OfflineContextController, ConstructError>::Err(
                ConstructError::ZeroSampleRate,
            ),
    {
        if number_of_channels == 0 {
            Err(ConstructError::ZeroChannels)
        } else if length == 0 {
            Err(ConstructError::ZeroLength)
        } else if sample_rate_millihertz == 0 {
            Err(ConstructError::ZeroSampleRate)
        } else {
            let c = OfflineContextController {
                state: ControllerState::Constructed,
                number_of_channels,
                length,
                sample_rate_millihertz,
                registry: ListenerRegistry::new(),
            };
            proof {
                assert(c@ =~= spec_new_model(
                    number_of_channels,
                    length,
                    sample_rate_millihertz,
                ));
            }
            Ok(c)
        }
    }

    /// The configured output length in frames: a pure read, callable in
    /// any state, returning exactly the length the context was
    /// constructed with.
    pub fn length(&self) -> (frames: u64)
        ensures
            frames == self@.length,
    {
        self.length
    }

    /// The configured channel count.
    pub fn number_of_channels(&self) -> (channels: u64)
        ensures
            channels == self@.number_of_channels,
    {
        self.number_of_channels
    }

    /// The configured sample rate, in millihertz.
    pub fn sample_rate_millihertz(&self) -> (rate: u64)
        ensures
            rate == self@.sample_rate_millihertz,
    {
        self.sample_rate_millihertz
    }

    /// The controller's current lifecycle state.
    pub fn state(&self) -> (s: ControllerState)
        ensures
            s == self@.state,
    {
        self.state
    }

    /// How many listeners are currently registered.
    pub fn active_listener_count(&self) -> (n: usize)
        ensures
            n == self@.registry.entries.len(),
    {
        self.registry.len()
    }

    /// Registers a handle for the engine's state-change notifications
    /// under a fresh id and returns that id; a freshly constructed
    /// controller becomes `Active`. The registration is torn down with all
    /// others when rendering completes.
    pub fn subscribe_state_change(&mut self, handle: CallbackHandle) -> (id: u64)
        requires
            old(self)@.registry.wf(),
            old(self)@.registry.next_id < u64::MAX,
            handle@.active,
        ensures
            final(self)@.registry.wf(),
            id == old(self)@.registry.next_id,
            !old(self)@.registry.contains_id(id),
            final(self)@.registry == spec_register(old(self)@.registry, handle@),
            final(self)@.state == spec_subscribe_state(old(self)@.state),
            final(self)@.number_of_channels == old(self)@.number_of_channels,
            final(self)@.length == old(self)@.length,
            final(self)@.sample_rate_millihertz == old(self)@.sample_rate_millihertz,
    {
        if matches!(self.state, ControllerState::Constructed) {
            self.state = ControllerState::Active;
        }
        self.registry.register(handle)
    }

    /// Revokes and removes the single listener registered under `id`,
    /// leaving every other registration untouched; an absent id is a
    /// silent no-op, so cancelling twice is harmless. The revoked handle
    /// is returned so the caller can observe it.
    pub fn unsubscribe(&mut self, id: u64) -> (removed: Option<CallbackHandle>)
        requires
            old(self)@.registry.wf(),
        ensures
            final(self)@.registry.wf(),
            final(self)@.registry == spec_unregister(old(self)@.registry, id),
            !final(self)@.registry.contains_id(id),
            match removed {
                Some(h) => old(self)@.registry.contains_id(id) && Some(h@)
                    == spec_unregistered_handle(old(self)@.registry, id),
                None => !old(self)@.registry.contains_id(id),
            },
            final(self)@.state == old(self)@.state,
            final(self)@.number_of_channels == old(self)@.number_of_channels,
            final(self)@.length == old(self)@.length,
            final(self)@.sample_rate_millihertz == old(self)@.sample_rate_millihertz,
    {
        self.registry.unregister(id)
    }

    /// Delivers a state-change notification from the engine to every
    /// registered listener, in registration order, and reports how many
    /// received it. After teardown the registry is empty, so nothing is
    /// delivered and no revoked handle is ever reached.
    pub fn dispatch_state_change(&mut self, e: Event) -> (delivered: usize)
        requires
            old(self)@.registry.wf(),
        ensures
            final(self)@.registry.wf(),
            delivered == old(self)@.registry.entries.len(),
            final(self)@.registry == spec_dispatch(old(self)@.registry, e),
            final(self)@.state == old(self)@.state,
            final(self)@.number_of_channels == old(self)@.number_of_channels,
            final(self)@.length == old(self)@.length,
            final(self)@.sample_rate_millihertz == old(self)@.sample_rate_millihertz,
    {
        self.registry.dispatch(e)
    }

    /// Marks the transition into rendering. The asynchronous work itself —
    /// awaiting the engine until the full output buffer exists — belongs
    /// to the host layer; the registry is untouched, so event delivery
    /// runs concurrently with rendering.
    pub fn start_rendering(&mut self)
        ensures
            final(self)@ == (ControllerModel {
                state: spec_begin_rendering(old(self)@.state),
                ..old(self)@
            }),
    {
        if !matches!(self.state, ControllerState::Closed) {
            self.state = ControllerState::Rendering;
        }
    }

    /// Decides when a suspend request resolves. `when_frame` is the render
    /// position, in frames, at which the caller asks rendering to pause; a
    /// position at or past the configured length never triggers, so the
    /// call resolves only once rendering has run to completion — the
    /// asynchronous caller is never stranded.
    pub fn suspend(&self, when_frame: u64) -> (r: SuspendResolution)
        ensures
            r == SuspendResolution::AtRenderCompletion <==> when_frame >= self@.length,
            r == SuspendResolution::AtSuspendPoint <==> when_frame < self@.length,
    {
        if when_frame >= self.length {
            SuspendResolution::AtRenderCompletion
        } else {
            SuspendResolution::AtSuspendPoint
        }
    }

    /// Handles the engine's completion notification: drains the registry —
    /// every listener handle is removed and revoked exactly once, in
    /// registration order — and closes the controller for good. The
    /// revoked handles are returned so the host can observe them; no
    /// further event will be delivered. Draining twice is a no-op.
    pub fn on_render_complete(&mut self) -> (revoked: Vec<CallbackHandle>)
        requires
            old(self)@.registry.wf(),
        ensures
            final(self)@.registry.wf(),
            final(self)@.state == ControllerState::Closed,
            final(self)@.registry == spec_drain(old(self)@.registry),
            final(self)@.registry.entries.len() == 0,
            revoked@.map(|i: int, h: CallbackHandle| h@) == spec_drained_handles(
                old(self)@.registry,
            ),
            revoked@.len() == old(self)@.registry.entries.len(),
            final(self)@.number_of_channels == old(self)@.number_of_channels,
            final(self)@.length == old(self)@.length,
            final(self)@.sample_rate_millihertz == old(self)@.sample_rate_millihertz,
    {
        let revoked = self.registry.drain_all();
        self.state = ControllerState::Closed;
        revoked
    }

    /// The shape of the rendered output: offline rendering of this context
    /// yields a buffer with exactly the configured channel count and frame
    /// length.
    pub fn output_buffer_shape(&self) -> (shape: BufferShape)
        ensures
            shape.number_of_channels == self@.number_of_channels,
            shape.length == self@.length,
    {
        BufferShape { number_of_channels: self.number_of_channels, length: self.length }
    }
}

/// Law: for every configuration the engine accepts, the constructed
/// controller records exactly the requested frame length, so `length`
/// returns it in every state; and it starts with an empty registry.
pub proof fn lemma_length_is_constructed_length(
    number_of_channels: u64,
    length: u64,
    sample_rate_millihertz: u64,
)
    requires
        valid_config(number_of_channels, length, sample_rate_millihertz),
    ensures
        spec_new_model(number_of_channels, length, sample_rate_millihertz).length == length,
        spec_new_model(
            number_of_channels,
            length,
            sample_rate_millihertz,
        ).registry.entries.len() == 0,
{
}

} // verus!
