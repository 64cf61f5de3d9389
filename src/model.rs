//! The ledger as a mathematical state and its operations as functions from
//! state and inputs to the next state and a result.
use vstd::prelude::*;
use crate::types::{CatalogEntryView, OrderStatus, ReservationView, ShareCarError, VehicleView, legal_transition};

verus! {

/// What a renter owes before a reservation can be recorded.
pub struct PaymentView {
    pub token: Seq<char>,
    pub payer: Seq<char>,
    pub payee: Seq<char>,
    pub amount: i128,
}

/// Abstract state of the ledger.
pub struct LedgerState {
    pub admin: Option<Seq<char>>,
    pub token: Option<Seq<char>>,
    pub counter: u32,
    /// Catalog rows in order of first publication.
    pub catalog: Seq<CatalogEntryView>,
    /// The reservation with identifier `id` sits at index `id - 1`.
    pub reservations: Seq<ReservationView>,
}

impl LedgerState {
    pub open spec fn empty() -> LedgerState {
        LedgerState {
            admin: None,
            token: None,
            counter: 0,
            catalog: Seq::empty(),
            reservations: Seq::empty(),
        }
    }

    pub open spec fn initialized(self) -> bool {
        self.admin is Some
    }

    pub open spec fn has_model(self, model: Seq<char>) -> bool {
        exists|i: int| 0 <= i < self.catalog.len() && #[trigger] self.catalog[i].model == model
    }

    pub open spec fn model_index(self, model: Seq<char>) -> int {
        choose|i: int| 0 <= i < self.catalog.len() && #[trigger] self.catalog[i].model == model
    }

    /// The vehicle published under `model`, if any.
    pub open spec fn vehicle(self, model: Seq<char>) -> Option<VehicleView> {
        if self.has_model(model) {
            Some(self.catalog[self.model_index(model)].vehicle)
        } else {
            None
        }
    }

    /// Model names in order of first publication.
    pub open spec fn models(self) -> Seq<Seq<char>> {
        self.catalog.map_values(|e: CatalogEntryView| e.model)
    }

    /// The reservation issued under `id`, if any.
    pub open spec fn reservation(self, id: u32) -> Option<ReservationView> {
        if 1 <= id && id <= self.reservations.len() {
            Some(self.reservations[id - 1])
        } else {
            None
        }
    }

    pub open spec fn unique_models(self) -> bool {
        forall|i: int, j: int|
            0 <= i < self.catalog.len() && 0 <= j < self.catalog.len()
                && #[trigger] self.catalog[i].model == #[trigger] self.catalog[j].model ==> i == j
    }

    pub open spec fn well_formed(self) -> bool {
        &&& self.reservations.len() == self.counter
        &&& self.unique_models()
        &&& (self.admin is Some <==> self.token is Some)
        &&& (self.admin is None ==> self.catalog.len() == 0 && self.reservations.len() == 0)
        &&& forall|i: int| 0 <= i < self.catalog.len() ==> #[trigger] self.catalog[i].vehicle.rate >= 0
        &&& forall|i: int|
            0 <= i < self.reservations.len() ==> self.has_model(#[trigger] self.reservations[i].model)
    }
}

/// The ledger that stored parts describe; its counter is the number of
/// reservations.
pub open spec fn restored(
    admin: Option<Seq<char>>,
    token: Option<Seq<char>>,
    catalog: Seq<CatalogEntryView>,
    reservations: Seq<ReservationView>,
) -> LedgerState {
    LedgerState { admin, token, counter: reservations.len() as u32, catalog, reservations }
}

/// Whether stored parts describe a consistent ledger.
pub open spec fn parts_valid(
    admin: Option<Seq<char>>,
    token: Option<Seq<char>>,
    catalog: Seq<CatalogEntryView>,
    reservations: Seq<ReservationView>,
) -> bool {
    reservations.len() <= u32::MAX && restored(admin, token, catalog, reservations).well_formed()
}

/// Setting the admin and token, once.
pub open spec fn initialize_step(s: LedgerState, admin: Seq<char>, token: Seq<char>) -> (
    LedgerState,
    Result<(), ShareCarError>,
) {
    if s.initialized() {
        (s, Err(ShareCarError::AlreadyInitialized))
    } else {
        (LedgerState { admin: Some(admin), token: Some(token), ..s }, Ok(()))
    }
}

/// The admin gate: `caller` must be the stored admin.
pub open spec fn admin_check(s: LedgerState, caller: Seq<char>) -> Result<(), ShareCarError> {
    match s.admin {
        None => Err(ShareCarError::NotInitialized),
        Some(a) => if a == caller {
            Ok(())
        } else {
            Err(ShareCarError::Unauthorized)
        },
    }
}

/// The catalog after `model` is set to `v`: replaced in place, or appended.
pub open spec fn catalog_with(s: LedgerState, model: Seq<char>, v: VehicleView) -> Seq<CatalogEntryView> {
    let e = CatalogEntryView { model, vehicle: v };
    if s.has_model(model) {
        s.catalog.update(s.model_index(model), e)
    } else {
        s.catalog.push(e)
    }
}

/// Publishing (creating or replacing) a vehicle, by the admin only.
pub open spec fn publish_step(
    s: LedgerState,
    caller: Seq<char>,
    model: Seq<char>,
    brand: Seq<char>,
    availability: Seq<char>,
    rate: i128,
) -> (LedgerState, Result<(), ShareCarError>) {
    match admin_check(s, caller) {
        Err(e) => (s, Err(e)),
        Ok(_) => if rate < 0 {
            (s, Err(ShareCarError::NegativeRate))
        } else {
            let v = VehicleView { brand, availability, rate, stock: 1 };
            (LedgerState { catalog: catalog_with(s, model, v), ..s }, Ok(()))
        },
    }
}

/// The transfer a reservation requires, or why none can be made.
pub open spec fn payment_due(
    s: LedgerState,
    caller: Seq<char>,
    renter: Seq<char>,
    model: Seq<char>,
) -> Result<PaymentView, ShareCarError> {
    if caller != renter {
        Err(ShareCarError::Unauthorized)
    } else if !s.initialized() || s.token is None {
        Err(ShareCarError::NotInitialized)
    } else if !s.has_model(model) {
        Err(ShareCarError::VehicleNotFound)
    } else if s.counter == u32::MAX {
        Err(ShareCarError::OrderIdsExhausted)
    } else {
        Ok(
            PaymentView {
                token: s.token->Some_0,
                payer: renter,
                payee: s.admin->Some_0,
                amount: s.vehicle(model)->Some_0.rate,
            },
        )
    }
}

/// Recording a reservation once the transfer of `payment_due` has been
/// attempted; `paid` says whether it went through. Payment is taken when a
/// reservation is created, never at a later status change, and a failed
/// transfer leaves the ledger untouched.
pub open spec fn reserve_step(
    s: LedgerState,
    caller: Seq<char>,
    renter: Seq<char>,
    model: Seq<char>,
    paid: bool,
) -> (LedgerState, Result<u32, ShareCarError>) {
    match payment_due(s, caller, renter, model) {
        Err(e) => (s, Err(e)),
        Ok(p) => if !paid {
            (s, Err(ShareCarError::PaymentFailed))
        } else {
            let id = (s.counter + 1) as u32;
            let r = ReservationView {
                renter,
                model,
                price_paid: p.amount,
                status: OrderStatus::Created,
            };
            (LedgerState { counter: id, reservations: s.reservations.push(r), ..s }, Ok(id))
        },
    }
}

/// Who may move a reservation along its lifecycle: its renter or the admin.
pub open spec fn may_update(s: LedgerState, caller: Seq<char>, r: ReservationView) -> bool {
    caller == r.renter || s.admin == Some(caller)
}

/// Moving reservation `id` to `status`.
pub open spec fn set_status_step(
    s: LedgerState,
    caller: Seq<char>,
    id: u32,
    status: OrderStatus,
) -> (LedgerState, Result<(), ShareCarError>) {
    match s.reservation(id) {
        None => (s, Err(ShareCarError::ReservationNotFound)),
        Some(r) => if !may_update(s, caller, r) {
            (s, Err(ShareCarError::Unauthorized))
        } else if !legal_transition(r.status, status) {
            (s, Err(ShareCarError::IllegalTransition))
        } else {
            let r2 = ReservationView { status, ..r };
            (LedgerState { reservations: s.reservations.update(id - 1, r2), ..s }, Ok(()))
        },
    }
}

} // verus!
