use vstd::prelude::*;

verus! {

/// Lifecycle of a reservation after it has been created.
#[derive(Clone, Copy, Debug, PartialEq, Eq, Structural)]
pub enum OrderStatus {
    Created,
    Confirmed,
    Active,
    Completed,
    Cancelled,
}

/// Every reason an operation on the ledger can fail.
#[derive(Clone, Copy, Debug, PartialEq, Eq, Structural)]
pub enum ShareCarError {
    AlreadyInitialized,
    NotInitialized,
    Unauthorized,
    VehicleNotFound,
    ReservationNotFound,
    IllegalTransition,
    PaymentFailed,
    /// A published rate was below zero.
    NegativeRate,
    /// Every identifier a `u32` can hold has been issued.
    OrderIdsExhausted,
}

/// The legal moves of the reservation lifecycle.
pub open spec fn legal_transition(from: OrderStatus, to: OrderStatus) -> bool {
    match (from, to) {
        (OrderStatus::Created, OrderStatus::Confirmed) => true,
        (OrderStatus::Confirmed, OrderStatus::Active) => true,
        (OrderStatus::Active, OrderStatus::Completed) => true,
        (OrderStatus::Created, OrderStatus::Cancelled) => true,
        (OrderStatus::Confirmed, OrderStatus::Cancelled) => true,
        (OrderStatus::Active, OrderStatus::Cancelled) => true,
        _ => false,
    }
}

impl OrderStatus {
    /// Whether the lifecycle allows moving from `self` to `next`.
    pub fn can_transition_to(self, next: OrderStatus) -> (r: bool)
        ensures
            r == legal_transition(self, next),
    {
        match (self, next) {
            (OrderStatus::Created, OrderStatus::Confirmed) => true,
            (OrderStatus::Confirmed, OrderStatus::Active) => true,
            (OrderStatus::Active, OrderStatus::Completed) => true,
            (OrderStatus::Created, OrderStatus::Cancelled) => true,
            (OrderStatus::Confirmed, OrderStatus::Cancelled) => true,
            (OrderStatus::Active, OrderStatus::Cancelled) => true,
            _ => false,
        }
    }
}

/// Abstract value of a catalog entry's vehicle.
pub struct VehicleView {
    pub brand: Seq<char>,
    pub availability: Seq<char>,
    pub rate: i128,
    pub stock: u32,
}

/// A rentable vehicle as the catalog stores it.
#[derive(Clone, Debug, PartialEq, Eq)]
pub struct Vehicle {
    pub brand: String,
    pub availability: String,
    /// Price of one reservation, in the token's smallest unit.
    pub rate: i128,
    pub stock: u32,
}

impl View for Vehicle {
    type V = VehicleView;

    open spec fn view(&self) -> VehicleView {
        VehicleView {
            brand: self.brand@,
            availability: self.availability@,
            rate: self.rate,
            stock: self.stock,
        }
    }
}

impl Vehicle {
    /// A field-by-field copy.
    pub fn copy(&self) -> (r: Vehicle)
        ensures
            r@ == self@,
    {
        Vehicle {
            brand: self.brand.clone(),
            availability: self.availability.clone(),
            rate: self.rate,
            stock: self.stock,
        }
    }
}

/// Abstract value of a catalog entry.
pub struct CatalogEntryView {
    pub model: Seq<char>,
    pub vehicle: VehicleView,
}

/// One catalog row: a model name and the vehicle published under it.
#[derive(Clone, Debug, PartialEq, Eq)]
pub struct CatalogEntry {
    pub model: String,
    pub vehicle: Vehicle,
}

impl View for CatalogEntry {
    type V = CatalogEntryView;

    open spec fn view(&self) -> CatalogEntryView {
        CatalogEntryView { model: self.model@, vehicle: self.vehicle@ }
    }
}

/// Abstract value of a reservation.
pub struct ReservationView {
    pub renter: Seq<char>,
    pub model: Seq<char>,
    pub price_paid: i128,
    pub status: OrderStatus,
}

/// A paid reservation; only its status changes after creation.
#[derive(Clone, Debug, PartialEq, Eq)]
pub struct Reservation {
    pub renter: String,
    pub model: String,
    /// The rate captured when the reservation was made.
    pub price_paid: i128,
    pub status: OrderStatus,
}

impl View for Reservation {
    type V = ReservationView;

    open spec fn view(&self) -> ReservationView {
        ReservationView {
            renter: self.renter@,
            model: self.model@,
            price_paid: self.price_paid,
            status: self.status,
        }
    }
}

impl Reservation {
    /// A field-by-field copy.
    pub fn copy(&self) -> (r: Reservation)
        ensures
            r@ == self@,
    {
        Reservation {
            renter: self.renter.clone(),
            model: self.model.clone(),
            price_paid: self.price_paid,
            status: self.status,
        }
    }
}

} // verus!
