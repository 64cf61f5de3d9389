use share_car::{CatalogEntry, OrderStatus, PaymentRequest, Reservation, ShareCar, ShareCarError, Vehicle};

fn s(x: &str) -> String {
    x.to_string()
}

fn ready_ledger() -> ShareCar {
    let mut ledger = ShareCar::new();
    ledger.initialize(s("A"), s("T")).unwrap();
    ledger
        .publish_vehicle(&s("A"), s("Model-X"), s("BrandY"), s("available"), 5000000)
        .unwrap();
    ledger
}

#[test]
fn initialize_twice_is_refused() {
    let mut ledger = ShareCar::new();
    assert_eq!(ledger.initialize(s("A"), s("T")), Ok(()));
    assert_eq!(ledger.initialize(s("A"), s("T")), Err(ShareCarError::AlreadyInitialized));
    assert_eq!(ledger.initialize(s("B"), s("U")), Err(ShareCarError::AlreadyInitialized));
    assert_eq!(ledger.admin(), Some(s("A")));
    assert_eq!(ledger.token(), Some(s("T")));
    assert_eq!(ledger.order_counter(), 0);
}

#[test]
fn initialize_starts_counter_at_zero() {
    let mut ledger = ShareCar::new();
    assert_eq!(ledger.initialize(s("A"), s("T")), Ok(()));
    assert_eq!(ledger.order_counter(), 0);
    assert!(ledger.list_vehicles().is_empty());
    assert_eq!(ledger.get_reservation(1), None);
}

#[test]
fn publish_before_initialize_fails() {
    let mut ledger = ShareCar::new();
    assert_eq!(ledger.check_admin(&s("A")), Err(ShareCarError::NotInitialized));
    assert_eq!(
        ledger.publish_vehicle(&s("A"), s("Model-X"), s("BrandY"), s("available"), 10),
        Err(ShareCarError::NotInitialized)
    );
    assert!(ledger.list_vehicles().is_empty());
}

#[test]
fn publish_by_non_admin_is_unauthorized() {
    let mut ledger = ready_ledger();
    assert_eq!(ledger.check_admin(&s("B")), Err(ShareCarError::Unauthorized));
    assert_eq!(
        ledger.publish_vehicle(&s("B"), s("Model-X"), s("Other"), s("none"), 1),
        Err(ShareCarError::Unauthorized)
    );
    assert_eq!(
        ledger.publish_vehicle(&s("B"), s("Model-Z"), s("Other"), s("none"), 1),
        Err(ShareCarError::Unauthorized)
    );
    assert_eq!(ledger.list_vehicles(), vec![s("Model-X")]);
    assert_eq!(ledger.get_vehicle(&s("Model-X")).unwrap().rate, 5000000);
    assert_eq!(ledger.get_vehicle(&s("Model-Z")), None);
}

#[test]
fn publish_negative_rate_is_rejected() {
    let mut ledger = ready_ledger();
    assert_eq!(
        ledger.publish_vehicle(&s("A"), s("Model-N"), s("B"), s("x"), -1),
        Err(ShareCarError::NegativeRate)
    );
    assert_eq!(ledger.get_vehicle(&s("Model-N")), None);
}

#[test]
fn publish_creates_and_replaces() {
    let mut ledger = ready_ledger();
    let v = ledger.get_vehicle(&s("Model-X")).unwrap();
    assert_eq!(
        v,
        Vehicle { brand: s("BrandY"), availability: s("available"), rate: 5000000, stock: 1 }
    );
    ledger.publish_vehicle(&s("A"), s("Model-W"), s("BrandW"), s("soon"), 0).unwrap();
    ledger.publish_vehicle(&s("A"), s("Model-X"), s("BrandZ"), s("gone"), 7).unwrap();
    assert_eq!(ledger.list_vehicles(), vec![s("Model-X"), s("Model-W")]);
    assert_eq!(ledger.get_vehicles().len(), 2);
    let v = ledger.get_vehicle(&s("Model-X")).unwrap();
    assert_eq!(v, Vehicle { brand: s("BrandZ"), availability: s("gone"), rate: 7, stock: 1 });
    assert_eq!(ledger.get_vehicle(&s("Model-W")).unwrap().rate, 0);
}

#[test]
fn end_to_end_reservation() {
    let mut ledger = ready_ledger();
    let quote = ledger.quote_reservation(&s("B"), &s("B"), &s("Model-X")).unwrap();
    assert_eq!(
        quote,
        PaymentRequest { token: s("T"), payer: s("B"), payee: s("A"), amount: 5000000 }
    );
    assert_eq!(ledger.reserve_vehicle(&s("B"), s("B"), s("Model-X"), true), Ok(1));
    let r = ledger.get_reservation(1).unwrap();
    assert_eq!(r.renter, s("B"));
    assert_eq!(r.model, s("Model-X"));
    assert_eq!(r.price_paid, 5000000);
    assert_eq!(r.status, OrderStatus::Created);
    assert_eq!(ledger.order_counter(), 1);
}

#[test]
fn unknown_model_is_not_found() {
    let mut ledger = ready_ledger();
    assert_eq!(
        ledger.quote_reservation(&s("B"), &s("B"), &s("Unknown-Model")),
        Err(ShareCarError::VehicleNotFound)
    );
    assert_eq!(
        ledger.reserve_vehicle(&s("B"), s("B"), s("Unknown-Model"), true),
        Err(ShareCarError::VehicleNotFound)
    );
    assert_eq!(ledger.order_counter(), 0);
    assert_eq!(ledger.get_reservation(1), None);
}

#[test]
fn reserve_for_someone_else_is_unauthorized() {
    let mut ledger = ready_ledger();
    assert_eq!(
        ledger.reserve_vehicle(&s("C"), s("B"), s("Model-X"), true),
        Err(ShareCarError::Unauthorized)
    );
    assert_eq!(ledger.order_counter(), 0);
}

#[test]
fn reserve_before_initialize_fails() {
    let mut ledger = ShareCar::new();
    assert_eq!(
        ledger.reserve_vehicle(&s("B"), s("B"), s("Model-X"), true),
        Err(ShareCarError::NotInitialized)
    );
}

#[test]
fn failed_payment_changes_nothing() {
    let mut ledger = ready_ledger();
    assert_eq!(
        ledger.reserve_vehicle(&s("B"), s("B"), s("Model-X"), false),
        Err(ShareCarError::PaymentFailed)
    );
    assert_eq!(ledger.order_counter(), 0);
    assert_eq!(ledger.get_reservation(1), None);
    assert_eq!(ledger.reserve_vehicle(&s("B"), s("B"), s("Model-X"), true), Ok(1));
}

#[test]
fn identifiers_are_consecutive() {
    let mut ledger = ready_ledger();
    assert_eq!(ledger.reserve_vehicle(&s("B"), s("B"), s("Model-X"), true), Ok(1));
    assert_eq!(
        ledger.reserve_vehicle(&s("C"), s("C"), s("Model-X"), false),
        Err(ShareCarError::PaymentFailed)
    );
    assert_eq!(
        ledger.reserve_vehicle(&s("C"), s("C"), s("Model-Q"), true),
        Err(ShareCarError::VehicleNotFound)
    );
    ledger.publish_vehicle(&s("A"), s("Model-Q"), s("Q"), s("yes"), 3).unwrap();
    assert_eq!(ledger.reserve_vehicle(&s("C"), s("C"), s("Model-Q"), true), Ok(2));
    assert_eq!(ledger.reserve_vehicle(&s("B"), s("B"), s("Model-X"), true), Ok(3));
    assert_eq!(ledger.order_counter(), 3);
    assert_eq!(ledger.get_reservation(0), None);
    assert_eq!(ledger.get_reservation(4), None);
    assert_eq!(ledger.get_reservation(2).unwrap().price_paid, 3);
}

#[test]
fn price_paid_survives_republish() {
    let mut ledger = ready_ledger();
    assert_eq!(ledger.reserve_vehicle(&s("B"), s("B"), s("Model-X"), true), Ok(1));
    ledger.publish_vehicle(&s("A"), s("Model-X"), s("BrandY"), s("available"), 9).unwrap();
    assert_eq!(ledger.get_reservation(1).unwrap().price_paid, 5000000);
    assert_eq!(ledger.reserve_vehicle(&s("B"), s("B"), s("Model-X"), true), Ok(2));
    assert_eq!(ledger.get_reservation(2).unwrap().price_paid, 9);
}

#[test]
fn status_follows_lifecycle() {
    let mut ledger = ready_ledger();
    ledger.reserve_vehicle(&s("B"), s("B"), s("Model-X"), true).unwrap();
    assert_eq!(
        ledger.set_reservation_status(&s("B"), 1, OrderStatus::Active),
        Err(ShareCarError::IllegalTransition)
    );
    assert_eq!(ledger.get_reservation(1).unwrap().status, OrderStatus::Created);
    assert_eq!(ledger.set_reservation_status(&s("B"), 1, OrderStatus::Confirmed), Ok(()));
    assert_eq!(ledger.set_reservation_status(&s("A"), 1, OrderStatus::Active), Ok(()));
    assert_eq!(ledger.set_reservation_status(&s("B"), 1, OrderStatus::Completed), Ok(()));
    assert_eq!(
        ledger.set_reservation_status(&s("A"), 1, OrderStatus::Cancelled),
        Err(ShareCarError::IllegalTransition)
    );
    assert_eq!(ledger.get_reservation(1).unwrap().status, OrderStatus::Completed);
    let r = ledger.get_reservation(1).unwrap();
    assert_eq!((r.renter, r.model, r.price_paid), (s("B"), s("Model-X"), 5000000));
}

#[test]
fn status_cancel_and_errors() {
    let mut ledger = ready_ledger();
    ledger.reserve_vehicle(&s("B"), s("B"), s("Model-X"), true).unwrap();
    assert_eq!(
        ledger.set_reservation_status(&s("B"), 2, OrderStatus::Confirmed),
        Err(ShareCarError::ReservationNotFound)
    );
    assert_eq!(
        ledger.set_reservation_status(&s("C"), 1, OrderStatus::Confirmed),
        Err(ShareCarError::Unauthorized)
    );
    assert_eq!(ledger.set_reservation_status(&s("B"), 1, OrderStatus::Cancelled), Ok(()));
    assert_eq!(
        ledger.set_reservation_status(&s("B"), 1, OrderStatus::Confirmed),
        Err(ShareCarError::IllegalTransition)
    );
    assert_eq!(ledger.get_reservation(1).unwrap().status, OrderStatus::Cancelled);
}

#[test]
fn transition_table() {
    let (created, confirmed, active, completed, cancelled) = (
        OrderStatus::Created,
        OrderStatus::Confirmed,
        OrderStatus::Active,
        OrderStatus::Completed,
        OrderStatus::Cancelled,
    );
    let all = [created, confirmed, active, completed, cancelled];
    let legal = [
        (created, confirmed),
        (confirmed, active),
        (active, completed),
        (created, cancelled),
        (confirmed, cancelled),
        (active, cancelled),
    ];
    for a in all {
        for b in all {
            assert_eq!(a.can_transition_to(b), legal.contains(&(a, b)));
        }
    }
}

fn entry(model: &str, rate: i128) -> CatalogEntry {
    CatalogEntry {
        model: s(model),
        vehicle: Vehicle { brand: s("b"), availability: s("a"), rate, stock: 1 },
    }
}

fn booking(renter: &str, model: &str, price: i128) -> Reservation {
    Reservation { renter: s(renter), model: s(model), price_paid: price, status: OrderStatus::Created }
}

#[test]
fn restore_round_trip() {
    let mut ledger = ready_ledger();
    ledger.reserve_vehicle(&s("B"), s("B"), s("Model-X"), true).unwrap();
    let restored = ShareCar::from_parts(
        ledger.admin(),
        ledger.token(),
        ledger.get_vehicles().clone(),
        ledger.get_reservations().clone(),
    );
    let mut restored = restored.unwrap();
    assert_eq!(restored.order_counter(), 1);
    assert_eq!(restored.get_reservation(1), ledger.get_reservation(1));
    assert_eq!(restored.list_vehicles(), vec![s("Model-X")]);
    assert_eq!(restored.reserve_vehicle(&s("C"), s("C"), s("Model-X"), true), Ok(2));
}

#[test]
fn restore_rejects_inconsistent_parts() {
    let admin = Some(s("A"));
    let token = Some(s("T"));
    assert!(ShareCar::from_parts(admin.clone(), None, vec![], vec![]).is_none());
    assert!(ShareCar::from_parts(None, None, vec![entry("M", 1)], vec![]).is_none());
    assert!(ShareCar::from_parts(None, None, vec![entry("M", 1)], vec![booking("B", "M", 1)]).is_none());
    assert!(ShareCar::from_parts(
        admin.clone(),
        token.clone(),
        vec![entry("M", 1), entry("M", 2)],
        vec![]
    )
    .is_none());
    assert!(ShareCar::from_parts(admin.clone(), token.clone(), vec![entry("M", -1)], vec![]).is_none());
    assert!(ShareCar::from_parts(
        admin.clone(),
        token.clone(),
        vec![entry("M", 1)],
        vec![booking("B", "N", 1)]
    )
    .is_none());
    let ok = ShareCar::from_parts(admin, token, vec![entry("M", 1), entry("N", 2)], vec![booking("B", "N", 1)]);
    assert_eq!(ok.unwrap().order_counter(), 1);
    assert_eq!(ShareCar::from_parts(None, None, vec![], vec![]).unwrap().order_counter(), 0);
}
