use vstd::prelude::*;

use crate::event::{Event, EventModel};
use crate::shipment::{created_record, Shipment, ShipmentModel};

verus! {

/// The ledger after a creation: the new record is appended at the end, with
/// the ledger's former length as its id.
pub open spec fn ledger_after_create(
    ledger: Seq<ShipmentModel>,
    product_name: Seq<char>,
    product_description: Seq<char>,
    location_origin: Seq<char>,
    location_destination: Seq<char>,
) -> Seq<ShipmentModel> {
    ledger.push(
        created_record(
            ledger.len(),
            product_name,
            product_description,
            location_origin,
            location_destination,
        ),
    )
}

/// The record that a lookup by `id` finds: the one at position `id`, if any.
pub open spec fn lookup(ledger: Seq<ShipmentModel>, id: int) -> Option<ShipmentModel> {
    if 0 <= id < ledger.len() {
        Some(ledger[id])
    } else {
        None
    }
}

/// Every record's id is its position in the ledger.
pub open spec fn ids_match_positions(ledger: Seq<ShipmentModel>) -> bool {
    forall|i: int| 0 <= i < ledger.len() ==> (#[trigger] ledger[i]).id == i
}

/// The ordered, append-only sequence of shipment records.
pub struct ShipmentTracker {
    shipments: Vec<Shipment>,
}

impl View for ShipmentTracker {
    type V = Seq<ShipmentModel>;

    closed spec fn view(&self) -> Seq<ShipmentModel> {
        self.shipments@.map_values(|s: Shipment| s@)
    }
}

impl ShipmentTracker {
    #[verifier::type_invariant]
    spec fn inv(&self) -> bool {
        ids_match_positions(self@)
    }

    /// An empty ledger.
    pub fn init() -> (r: ShipmentTracker)
        ensures
            r@ == Seq::<ShipmentModel>::empty(),
    {
        let r = ShipmentTracker { shipments: Vec::new() };
        assert(r@ =~= Seq::<ShipmentModel>::empty());
        r
    }

    /// Appends a record for the given texts, with the next id and the
    /// `Created` status, and returns it with its `ShipmentCreated`
    /// notification.
    pub fn create_shipment(
        &mut self,
        product_name: String,
        product_description: String,
        location_origin: String,
        location_destination: String,
    ) -> (r: (&Shipment, Event))
        ensures
            final(self)@ == ledger_after_create(
                old(self)@,
                product_name@,
                product_description@,
                location_origin@,
                location_destination@,
            ),
            ids_match_positions(final(self)@),
            r.0@ == final(self)@.last(),
            r.1@ == (EventModel::ShipmentCreated {
                id: old(self)@.len(),
                product_name: product_name@,
                location_origin: location_origin@,
                location_destination: location_destination@,
            }),
    {
        proof {
            use_type_invariant(&*self);
        }
        let id = self.shipments.len();
        let event = Event::ShipmentCreated {
            id,
            product_name: product_name.clone(),
            location_origin: location_origin.clone(),
            location_destination: location_destination.clone(),
        };
        let shipment = Shipment::created(
            id,
            product_name,
            product_description,
            location_origin,
            location_destination,
        );
        let mut shipments = Vec::new();
        std::mem::swap(&mut shipments, &mut self.shipments);
        shipments.push(shipment);
        proof {
            assert(shipments@.map_values(|s: Shipment| s@) =~= ledger_after_create(
                old(self)@,
                product_name@,
                product_description@,
                location_origin@,
                location_destination@,
            ));
        }
        std::mem::swap(&mut shipments, &mut self.shipments);
        (&self.shipments[id], event)
    }

    /// The record whose id is `id`, with its `ShipmentTracked`
    /// notification; `None`, and no notification, when there is none.
    pub fn track_shipment(&self, id: usize) -> (r: Option<(&Shipment, Event)>)
        ensures
            r is None <==> id >= self@.len(),
            r is None <==> lookup(self@, id as int) is None,
            r matches Some(found) ==> {
                &&& lookup(self@, id as int) == Some(found.0@)
                &&& found.1@ == (EventModel::ShipmentTracked {
                    id: id as nat,
                    current_status: found.0@.status,
                })
            },
    {
        proof {
            use_type_invariant(self);
        }
        if id < self.shipments.len() {
            let shipment = &self.shipments[id];
            let event = Event::ShipmentTracked {
                id,
                current_status: shipment.status().to_string(),
            };
            Some((shipment, event))
        } else {
            None
        }
    }

    /// All records, in creation order.
    pub fn get_all_shipments(&self) -> (r: &[Shipment])
        ensures
            r@.map_values(|s: Shipment| s@) == self@,
            ids_match_positions(self@),
    {
        proof {
            use_type_invariant(self);
        }
        self.shipments.as_slice()
    }
}

/// A record that was just created is found again, equal in every field, by
/// looking up the id that it was given.
pub proof fn lemma_read_after_write(
    ledger: Seq<ShipmentModel>,
    product_name: Seq<char>,
    product_description: Seq<char>,
    location_origin: Seq<char>,
    location_destination: Seq<char>,
)
    ensures
        lookup(
            ledger_after_create(
                ledger,
                product_name,
                product_description,
                location_origin,
                location_destination,
            ),
            ledger.len() as int,
        ) == Some(
            created_record(
                ledger.len(),
                product_name,
                product_description,
                location_origin,
                location_destination,
            ),
        ),
{
}

/// A lookup past the end of the ledger, or before its start, finds nothing.
pub proof fn lemma_lookup_out_of_range(ledger: Seq<ShipmentModel>, id: int)
    requires
        id < 0 || id >= ledger.len(),
    ensures
        lookup(ledger, id) is None,
{
}

/// Creation keeps every earlier record where it was and adds exactly one at
/// the end, so the listing holds the records created so far, in creation
/// order, each once.
pub proof fn lemma_create_appends(
    ledger: Seq<ShipmentModel>,
    product_name: Seq<char>,
    product_description: Seq<char>,
    location_origin: Seq<char>,
    location_destination: Seq<char>,
)
    requires
        ids_match_positions(ledger),
    ensures
        ({
            let after = ledger_after_create(
                ledger,
                product_name,
                product_description,
                location_origin,
                location_destination,
            );
            &&& after.len() == ledger.len() + 1
            &&& after.take(ledger.len() as int) == ledger
            &&& ids_match_positions(after)
        }),
{
    let after = ledger_after_create(
        ledger,
        product_name,
        product_description,
        location_origin,
        location_destination,
    );
    assert(after.take(ledger.len() as int) =~= ledger);
}

} // verus!
