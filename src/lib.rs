//! Per-account claim streaks: a state machine that records, for every
//! account, how many consecutive epochs it has claimed, its best streak and
//! its lifetime total, with a paid repair path and admin-gated corrections.

pub mod address_info;
pub mod error;
pub mod events;
pub mod repair;
pub mod token;
pub mod admins;
pub mod model;
pub mod contract;
pub mod laws;

pub use address_info::AddressInfo;
pub use error::ClaimError;
pub use events::{emit, Event, EventsModule};
