//! An append-only ledger of shipment records: each record's id is its
//! position in creation order, and every creation or successful lookup
//! yields the notification that the host delivers to its subscribers.
pub mod event;
pub mod shipment;
pub mod tracker;

pub use event::{Event, EventModel};
pub use shipment::{Shipment, ShipmentModel};
pub use tracker::ShipmentTracker;
