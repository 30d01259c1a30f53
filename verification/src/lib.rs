//! A generic booking-lifecycle toolkit.
//!
//! The crate models a reservation entity that wraps an arbitrary bookable
//! item, tracks its lifecycle through a fixed set of statuses, and enforces
//! which status transitions are legal. The core pieces are:
//!
//! - [`model::status::BookingStatus`]: the lifecycle statuses and the
//!   transition-legality rules;
//! - [`manager::BookingManager`]: stateless operations that create bookings
//!   and apply status transitions;
//! - [`model::booking::Booking`]: the aggregate record for one reservation;
//! - [`traits::Bookable`]: the capability contract a bookable item supplies;
//! - [`error::BookingError`]: the errors a booking operation can report.

pub mod error;
pub mod manager;
pub mod model;
pub mod traits;
