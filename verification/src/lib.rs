//! Pickup notes and preparation for agent systems.
//!
//! Before a main action starts, an agent prepares: small pickup notes warm
//! caches and load configuration, a preparation window budgets the lead time,
//! and a setup verification decides whether the agent is ready.

pub mod clock;
pub mod laws;
pub mod metadata;
pub mod pickup;
pub mod setup;
pub mod window;

pub use clock::{duration_nanos, MAX_DURATION_NANOS};
pub use metadata::Metadata;
pub use pickup::{PickupNote, PickupNoteModel, PickupStatus, StatusModel};
pub use setup::{CheckModel, ResultModel, SetupModel, SetupVerification, VerificationCheck, VerificationResult};
pub use window::{PreparationWindow, WindowModel};
