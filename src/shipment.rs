use vstd::prelude::*;

verus! {

/// The status every shipment carries from the moment it is created.
pub open spec fn created_status() -> Seq<char> {
    "Created"@
}

/// What a shipment record holds, as mathematical values.
pub struct ShipmentModel {
    pub id: nat,
    pub product_name: Seq<char>,
    pub product_description: Seq<char>,
    pub location_origin: Seq<char>,
    pub location_destination: Seq<char>,
    pub status: Seq<char>,
}

/// The record that the ledger stores for a freshly created shipment.
pub open spec fn created_record(
    id: nat,
    product_name: Seq<char>,
    product_description: Seq<char>,
    location_origin: Seq<char>,
    location_destination: Seq<char>,
) -> ShipmentModel {
    ShipmentModel {
        id,
        product_name,
        product_description,
        location_origin,
        location_destination,
        status: created_status(),
    }
}

/// A shipment record. Its fields are set once, when the ledger creates it,
/// and are read through the accessors below.
pub struct Shipment {
    id: usize,
    product_name: String,
    product_description: String,
    location_origin: String,
    location_destination: String,
    status: String,
}

impl View for Shipment {
    type V = ShipmentModel;

    closed spec fn view(&self) -> ShipmentModel {
        ShipmentModel {
            id: self.id as nat,
            product_name: self.product_name@,
            product_description: self.product_description@,
            location_origin: self.location_origin@,
            location_destination: self.location_destination@,
            status: self.status@,
        }
    }
}

impl Shipment {
    /// A new record with the given id and texts, in the `Created` status.
    pub(crate) fn created(
        id: usize,
        product_name: String,
        product_description: String,
        location_origin: String,
        location_destination: String,
    ) -> (r: Shipment)
        ensures
            r@ == created_record(
                id as nat,
                product_name@,
                product_description@,
                location_origin@,
                location_destination@,
            ),
    {
        let status = "Created".to_string();
        Shipment {
            id,
            product_name,
            product_description,
            location_origin,
            location_destination,
            status,
        }
    }

    pub fn id(&self) -> (r: usize)
        ensures
            r as nat == self@.id,
    {
        self.id
    }

    pub fn product_name(&self) -> (r: &str)
        ensures
            r@ == self@.product_name,
    {
        self.product_name.as_str()
    }

    pub fn product_description(&self) -> (r: &str)
        ensures
            r@ == self@.product_description,
    {
        self.product_description.as_str()
    }

    pub fn location_origin(&self) -> (r: &str)
        ensures
            r@ == self@.location_origin,
    {
        self.location_origin.as_str()
    }

    pub fn location_destination(&self) -> (r: &str)
        ensures
            r@ == self@.location_destination,
    {
        self.location_destination.as_str()
    }

    pub fn status(&self) -> (r: &str)
        ensures
            r@ == self@.status,
    {
        self.status.as_str()
    }
}

} // verus!
