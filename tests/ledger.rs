use shipment_tracker::{Event, Shipment, ShipmentTracker};

fn create(t: &mut ShipmentTracker, name: &str, desc: &str, from: &str, to: &str) -> (usize, Event) {
    let (s, e) = t.create_shipment(name.to_string(), desc.to_string(), from.to_string(), to.to_string());
    (s.id(), e)
}

fn fields(s: &Shipment) -> (usize, String, String, String, String, String) {
    (
        s.id(),
        s.product_name().to_string(),
        s.product_description().to_string(),
        s.location_origin().to_string(),
        s.location_destination().to_string(),
        s.status().to_string(),
    )
}

#[test]
fn init_is_empty() {
    let t = ShipmentTracker::init();
    assert_eq!(t.get_all_shipments().len(), 0);
    assert!(t.track_shipment(0).is_none());
}

#[test]
fn ids_follow_creation_order() {
    let mut t = ShipmentTracker::init();
    for k in 0..10usize {
        let (id, _) = create(&mut t, &format!("p{}", k), "d", "o", "t");
        assert_eq!(id, k);
    }
    for (k, s) in t.get_all_shipments().iter().enumerate() {
        assert_eq!(s.id(), k);
        assert_eq!(s.product_name(), format!("p{}", k));
    }
}

#[test]
fn created_record_holds_inputs_verbatim() {
    let mut t = ShipmentTracker::init();
    let (s, _) = t.create_shipment("Bolt".to_string(), "M8 steel".to_string(), "Plant".to_string(), "Depot".to_string());
    assert_eq!(
        fields(s),
        (0, "Bolt".to_string(), "M8 steel".to_string(), "Plant".to_string(), "Depot".to_string(), "Created".to_string())
    );
}

#[test]
fn empty_texts_are_accepted() {
    let mut t = ShipmentTracker::init();
    let (s, _) = t.create_shipment(String::new(), String::new(), String::new(), String::new());
    assert_eq!(fields(s), (0, String::new(), String::new(), String::new(), String::new(), "Created".to_string()));
}

#[test]
fn read_after_write_returns_equal_record() {
    let mut t = ShipmentTracker::init();
    create(&mut t, "First", "one", "a", "b");
    let (s, _) = t.create_shipment("Second".to_string(), "two".to_string(), "c".to_string(), "d".to_string());
    let created = fields(s);
    let (found, _) = t.track_shipment(created.0).unwrap();
    assert_eq!(fields(found), created);
}

#[test]
fn out_of_range_lookup_is_absent() {
    let mut t = ShipmentTracker::init();
    create(&mut t, "A", "descA", "X", "Y");
    create(&mut t, "B", "descB", "Y", "Z");
    assert!(t.track_shipment(2).is_none());
    assert!(t.track_shipment(3).is_none());
    assert!(t.track_shipment(usize::MAX).is_none());
}

#[test]
fn listing_is_complete_and_ordered() {
    let mut t = ShipmentTracker::init();
    create(&mut t, "A", "1", "x", "y");
    create(&mut t, "B", "2", "y", "z");
    create(&mut t, "A", "1", "x", "y");
    let all = t.get_all_shipments();
    assert_eq!(all.len(), 3);
    let names: Vec<&str> = all.iter().map(|s| s.product_name()).collect();
    assert_eq!(names, vec!["A", "B", "A"]);
    let ids: Vec<usize> = all.iter().map(|s| s.id()).collect();
    assert_eq!(ids, vec![0, 1, 2]);
}

#[test]
fn creation_and_tracking_notifications() {
    let mut t = ShipmentTracker::init();
    let (_, e) = create(&mut t, "Widget", "a widget", "Factory", "Warehouse");
    match e {
        Event::ShipmentCreated { id, product_name, location_origin, location_destination } => {
            assert_eq!(id, 0);
            assert_eq!(product_name, "Widget");
            assert_eq!(location_origin, "Factory");
            assert_eq!(location_destination, "Warehouse");
        }
        _ => panic!("expected a creation notification"),
    }
    let (_, e) = t.track_shipment(0).unwrap();
    match e {
        Event::ShipmentTracked { id, current_status } => {
            assert_eq!(id, 0);
            assert_eq!(current_status, "Created");
        }
        _ => panic!("expected a tracking notification"),
    }
}

#[test]
fn second_creation_notification_carries_next_id() {
    let mut t = ShipmentTracker::init();
    create(&mut t, "A", "descA", "X", "Y");
    let (_, e) = create(&mut t, "B", "descB", "Y", "Z");
    assert!(matches!(e, Event::ShipmentCreated { id: 1, .. }));
}

#[test]
fn two_shipment_scenario() {
    let mut t = ShipmentTracker::init();
    create(&mut t, "A", "descA", "X", "Y");
    create(&mut t, "B", "descB", "Y", "Z");
    let all: Vec<_> = t.get_all_shipments().iter().map(fields).collect();
    assert_eq!(
        all,
        vec![
            (0, "A".to_string(), "descA".to_string(), "X".to_string(), "Y".to_string(), "Created".to_string()),
            (1, "B".to_string(), "descB".to_string(), "Y".to_string(), "Z".to_string(), "Created".to_string()),
        ]
    );
    let (b, _) = t.track_shipment(1).unwrap();
    assert_eq!(fields(b), all[1]);
    assert!(t.track_shipment(5).is_none());
}
