use vstd::prelude::*;

verus! {

/// A notification, as mathematical values.
pub enum EventModel {
    ShipmentCreated {
        id: nat,
        product_name: Seq<char>,
        location_origin: Seq<char>,
        location_destination: Seq<char>,
    },
    ShipmentTracked { id: nat, current_status: Seq<char> },
}

/// A notification that the ledger hands to the host for delivery.
pub enum Event {
    ShipmentCreated {
        id: usize,
        product_name: String,
        location_origin: String,
        location_destination: String,
    },
    ShipmentTracked { id: usize, current_status: String },
}

impl View for Event {
    type V = EventModel;

    open spec fn view(&self) -> EventModel {
        match self {
            Event::ShipmentCreated { id, product_name, location_origin, location_destination } => {
                EventModel::ShipmentCreated {
                    id: *id as nat,
                    product_name: product_name@,
                    location_origin: location_origin@,
                    location_destination: location_destination@,
                }
            },
            Event::ShipmentTracked { id, current_status } => EventModel::ShipmentTracked {
                id: *id as nat,
                current_status: current_status@,
            },
        }
    }
}

} // verus!
