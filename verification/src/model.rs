//! Core data model: statuses, booking records, entities, events, and rules.

pub mod booking;
pub mod entities;
pub mod events;
pub mod rules;
pub mod status;
pub mod traits;
