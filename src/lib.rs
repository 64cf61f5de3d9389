//! A rental ledger: an admin-curated vehicle catalog, paid reservations
//! with dense, monotonically issued identifiers, and a reservation status
//! lifecycle.
//!
//! The host supplies caller identity and the token transfer; the ledger
//! receives both as plain values, so every decision it makes is verified.

pub mod types;
pub mod model;
pub mod share_car;
pub mod laws;

pub use types::{Reservation, OrderStatus, ShareCarError, Vehicle, CatalogEntry};
pub use share_car::{ShareCar, PaymentRequest};

