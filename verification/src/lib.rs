//! Lifecycle-safe event bridge for an offline audio-rendering context:
//! a registry of revocable cross-thread callback handles, and the
//! state machine that drives render control and teardown.

pub mod controller;
pub mod event;
pub mod handle;
pub mod registry;

pub use controller::BufferShape;
pub use controller::ConstructError;
pub use controller::ControllerModel;
pub use controller::ControllerState;
pub use controller::OfflineContextController;
pub use controller::SuspendResolution;
pub use event::Event;
pub use handle::CallbackHandle;
pub use handle::HandleModel;
pub use registry::ListenerRegistry;
pub use registry::RegistryModel;
