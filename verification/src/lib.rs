//! A data-oriented finite-state-machine overlay for entities managed by an
//! external entity-component host.
//!
//! Each entity may carry an active-state marker per machine type; a transition
//! engine scans candidate entities once per tick, evaluates a condition per
//! entity and, when it holds, runs the registered before hooks, commits the new
//! state identifier, then runs the registered after hooks. The engine itself is
//! a step machine: it decides, and the host performs world access (queries,
//! hook invocation, marker mutation) between steps.

pub mod engine;
pub mod laws;
pub mod registry;
pub mod state;

pub use engine::EngineAction;
pub use engine::EngineEvent;
pub use engine::EnginePhase;
pub use engine::TransitionEdge;
pub use engine::TransitionTick;
pub use registry::AfterTransitionResource;
pub use registry::BeforeTransitionResource;
pub use state::ActiveStateComponent;
pub use state::TransitionEventSystemIn;
