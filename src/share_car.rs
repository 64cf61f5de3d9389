//! The executable ledger. Every operation takes the caller's identity as
//! an argument and is proved to perform exactly the step of `model`.
use vstd::prelude::*;
use crate::types::{CatalogEntry, OrderStatus, Reservation, ShareCarError, Vehicle};
use crate::model::{
    LedgerState, PaymentView, admin_check, parts_valid, restored, initialize_step, payment_due, publish_step,
    reserve_step, set_status_step,
};

verus! {

/// A transfer the host must carry out before a reservation is recorded.
#[derive(Clone, Debug, PartialEq, Eq)]
pub struct PaymentRequest {
    /// The token contract whose units move.
    pub token: String,
    pub payer: String,
    pub payee: String,
    pub amount: i128,
}

impl View for PaymentRequest {
    type V = PaymentView;

    open spec fn view(&self) -> PaymentView {
        PaymentView {
            token: self.token@,
            payer: self.payer@,
            payee: self.payee@,
            amount: self.amount,
        }
    }
}

/// The rental ledger: admin, token, catalog, order counter and reservations.
pub struct ShareCar {
    admin: Option<String>,
    token: Option<String>,
    order_counter: u32,
    // Plain vectors rather than host maps, so the ledger needs no host
    // environment: model names are kept unique by `well_formed`, and ids
    // are dense, so a reservation's position is its identifier minus one.
    catalog: Vec<CatalogEntry>,
    reservations: Vec<Reservation>,
}

pub open spec fn opt_view(o: Option<String>) -> Option<Seq<char>> {
    match o {
        Some(s) => Some(s@),
        None => None,
    }
}

impl View for ShareCar {
    type V = LedgerState;

    closed spec fn view(&self) -> LedgerState {
        LedgerState {
            admin: opt_view(self.admin),
            token: opt_view(self.token),
            counter: self.order_counter,
            catalog: self.catalog@.map_values(|e: CatalogEntry| e@),
            reservations: self.reservations@.map_values(|r: Reservation| r@),
        }
    }
}

impl ShareCar {
    pub open spec fn wf(&self) -> bool {
        self@.well_formed()
    }

    /// A ledger with no admin, no vehicles and no reservations.
    pub fn new() -> (r: ShareCar)
        ensures
            r@ == LedgerState::empty(),
            r.wf(),
    {
        let r = ShareCar {
            admin: None,
            token: None,
            order_counter: 0,
            catalog: Vec::new(),
            reservations: Vec::new(),
        };
        proof {
            assert(r@.catalog =~= Seq::empty());
            assert(r@.reservations =~= Seq::empty());
        }
        r
    }

    /// Sets the admin and the payment token; refused once either is set.
    pub fn initialize(&mut self, admin: String, token: String) -> (r: Result<(), ShareCarError>)
        requires
            old(self).wf(),
        ensures
            final(self).wf(),
            (final(self)@, r) == initialize_step(old(self)@, admin@, token@),
    {
        if self.admin.is_some() {
            return Err(ShareCarError::AlreadyInitialized);
        }
        self.admin = Some(admin);
        self.token = Some(token);
        proof {
            assert(self@.catalog == old(self)@.catalog);
            assert(self@.reservations == old(self)@.reservations);
        }
        Ok(())
    }

    /// Passes only when `caller` is the stored admin.
    pub fn check_admin(&self, caller: &String) -> (r: Result<(), ShareCarError>)
        ensures
            r == admin_check(self@, caller@),
    {
        match &self.admin {
            None => Err(ShareCarError::NotInitialized),
            Some(a) => if *a == *caller {
                Ok(())
            } else {
                Err(ShareCarError::Unauthorized)
            },
        }
    }

    /// Position of `model` in the catalog.
    fn find_model(&self, model: &String) -> (r: Option<usize>)
        requires
            self@.unique_models(),
        ensures
            match r {
                Some(i) => i < self@.catalog.len() && self@.model_index(model@) == i
                    && self@.has_model(model@),
                None => !self@.has_model(model@),
            },
    {
        let mut i: usize = 0;
        while i < self.catalog.len()
            invariant
                self@.unique_models(),
                i <= self.catalog.len(),
                forall|k: int| 0 <= k < i ==> self@.catalog[k].model != model@,
            decreases self.catalog.len() - i,
        {
            if self.catalog[i].model == *model {
                proof {
                    assert(self@.catalog[i as int].model == model@);
                    assert(self@.has_model(model@));
                    let j = self@.model_index(model@);
                    assert(self@.catalog[j].model == self@.catalog[i as int].model);
                }
                return Some(i);
            }
            i = i + 1;
        }
        None
    }

    /// Replaces or appends the catalog row for `model` and proves the
    /// result is the abstract catalog update.
    fn put_entry(&mut self, model: String, v: Vehicle)
        requires
            old(self).wf(),
            old(self)@.admin is Some,
            v.rate >= 0,
        ensures
            final(self)@ == (LedgerState { catalog: crate::model::catalog_with(old(self)@, model@, v@), ..old(self)@ }),
            final(self).wf(),
    {
        let ghost old_s = self@;
        let ghost m = model@;
        let ghost e = crate::types::CatalogEntryView { model: m, vehicle: v@ };
        let found = self.find_model(&model);
        match found {
            Some(i) => {
                self.catalog.set(i, CatalogEntry { model, vehicle: v });
                proof {
                    assert(self@.catalog =~= old_s.catalog.update(i as int, e));
                }
            },
            None => {
                self.catalog.push(CatalogEntry { model, vehicle: v });
                proof {
                    assert(self@.catalog =~= old_s.catalog.push(e));
                }
            },
        }
        proof {
            let s = self@;
            assert(s.catalog == crate::model::catalog_with(old_s, m, v@));
            assert(s.reservations == old_s.reservations);
            assert forall|a: int, b: int|
                0 <= a < s.catalog.len() && 0 <= b < s.catalog.len()
                    && #[trigger] s.catalog[a].model == #[trigger] s.catalog[b].model implies a == b by {
                if a < old_s.catalog.len() && b < old_s.catalog.len() {
                    assert(old_s.catalog[a].model == s.catalog[a].model);
                    assert(old_s.catalog[b].model == s.catalog[b].model);
                } else if a < old_s.catalog.len() {
                    assert(old_s.catalog[a].model == m);
                } else if b < old_s.catalog.len() {
                    assert(old_s.catalog[b].model == m);
                }
            }
            assert forall|k: int| 0 <= k < s.reservations.len() implies s.has_model(
                #[trigger] s.reservations[k].model,
            ) by {
                let rm = s.reservations[k].model;
                assert(old_s.has_model(rm));
                let w = choose|w: int| 0 <= w < old_s.catalog.len() && #[trigger] old_s.catalog[w].model == rm;
                assert(s.catalog[w].model == rm);
            }
        }
    }

    /// Creates or replaces the vehicle published under `model`, with a
    /// stock of one; only the admin may publish, and never a negative rate.
    pub fn publish_vehicle(
        &mut self,
        caller: &String,
        model: String,
        brand: String,
        availability: String,
        rate: i128,
    ) -> (r: Result<(), ShareCarError>)
        requires
            old(self).wf(),
        ensures
            final(self).wf(),
            (final(self)@, r) == publish_step(old(self)@, caller@, model@, brand@, availability@, rate),
    {
        match self.check_admin(caller) {
            Err(e) => return Err(e),
            Ok(()) => {},
        }
        if rate < 0 {
            return Err(ShareCarError::NegativeRate);
        }
        let v = Vehicle { brand, availability, rate, stock: 1 };
        self.put_entry(model, v);
        Ok(())
    }

    /// The transfer that reserving `model` for `renter` requires.
    pub fn quote_reservation(&self, caller: &String, renter: &String, model: &String) -> (r: Result<PaymentRequest, ShareCarError>)
        requires
            self.wf(),
        ensures
            match r {
                Ok(p) => payment_due(self@, caller@, renter@, model@) == Ok::<PaymentView, ShareCarError>(p@),
                Err(e) => payment_due(self@, caller@, renter@, model@) == Err::<PaymentView, ShareCarError>(e),
            },
    {
        if *caller != *renter {
            return Err(ShareCarError::Unauthorized);
        }
        let (admin, token) = match (&self.admin, &self.token) {
            (Some(a), Some(t)) => (a, t),
            _ => return Err(ShareCarError::NotInitialized),
        };
        match self.find_model(model) {
            None => Err(ShareCarError::VehicleNotFound),
            Some(i) => if self.order_counter == u32::MAX {
                Err(ShareCarError::OrderIdsExhausted)
            } else {
                Ok(
                    PaymentRequest {
                        token: token.clone(),
                        payer: renter.clone(),
                        payee: admin.clone(),
                        amount: self.catalog[i].vehicle.rate,
                    },
                )
            },
        }
    }

    /// Records a reservation of `model` for `renter` and returns its
    /// identifier. `paid` is whether the transfer that `quote_reservation`
    /// describes went through; without it nothing changes.
    pub fn reserve_vehicle(&mut self, caller: &String, renter: String, model: String, paid: bool) -> (r: Result<u32, ShareCarError>)
        requires
            old(self).wf(),
        ensures
            final(self).wf(),
            (final(self)@, r) == reserve_step(old(self)@, caller@, renter@, model@, paid),
    {
        let ghost old_s = self@;
        let due = self.quote_reservation(caller, &renter, &model);
        let amount = match due {
            Err(e) => return Err(e),
            Ok(p) => p.amount,
        };
        if !paid {
            return Err(ShareCarError::PaymentFailed);
        }
        let id = self.order_counter + 1;
        let ghost rv = crate::types::ReservationView {
            renter: renter@,
            model: model@,
            price_paid: amount,
            status: OrderStatus::Created,
        };
        self.order_counter = id;
        self.reservations.push(Reservation { renter, model, price_paid: amount, status: OrderStatus::Created });
        proof {
            let s = self@;
            assert(s.reservations =~= old_s.reservations.push(rv));
            assert(s.catalog == old_s.catalog);
            assert forall|k: int| 0 <= k < s.reservations.len() implies s.has_model(
                #[trigger] s.reservations[k].model,
            ) by {
                if k < old_s.reservations.len() {
                    assert(old_s.has_model(old_s.reservations[k].model));
                }
            }
        }
        Ok(id)
    }

    /// The vehicle published under `model`, or `None`.
    pub fn get_vehicle(&self, model: &String) -> (r: Option<Vehicle>)
        requires
            self.wf(),
        ensures
            match r {
                Some(v) => self@.vehicle(model@) == Some(v@),
                None => self@.vehicle(model@) is None,
            },
    {
        match self.find_model(model) {
            Some(i) => Some(self.catalog[i].vehicle.copy()),
            None => None,
        }
    }

    /// Every published model name, in order of first publication.
    pub fn list_vehicles(&self) -> (r: Vec<String>)
        ensures
            r@.map_values(|m: String| m@) == self@.models(),
    {
        let mut list: Vec<String> = Vec::new();
        let mut i: usize = 0;
        while i < self.catalog.len()
            invariant
                i <= self.catalog.len(),
                list@.len() == i,
                list@.map_values(|m: String| m@) =~= self@.models().take(i as int),
            decreases self.catalog.len() - i,
        {
            let ghost prev = list@;
            list.push(self.catalog[i].model.clone());
            proof {
                assert forall|j: int| 0 <= j <= i implies #[trigger] list@[j]@ == self@.models()[j] by {
                    if j < i {
                        assert(prev.map_values(|m: String| m@)[j] == self@.models().take(i as int)[j]);
                    }
                }
            }
            i = i + 1;
            proof {
                assert(list@.map_values(|m: String| m@) =~= self@.models().take(i as int));
            }
        }
        proof {
            assert(self@.models().take(i as int) =~= self@.models());
        }
        list
    }

    /// The catalog rows, in order of first publication.
    pub fn get_vehicles(&self) -> (r: &Vec<CatalogEntry>)
        ensures
            r@.map_values(|e: CatalogEntry| e@) == self@.catalog,
    {
        &self.catalog
    }

    /// The reservation issued under `id`, or `None`.
    pub fn get_reservation(&self, id: u32) -> (r: Option<Reservation>)
        requires
            self.wf(),
        ensures
            match r {
                Some(v) => self@.reservation(id) == Some(v@),
                None => self@.reservation(id) is None,
            },
    {
        if id >= 1 && (id as usize) <= self.reservations.len() {
            Some(self.reservations[(id - 1) as usize].copy())
        } else {
            None
        }
    }

    /// Moves reservation `id` to `status` along the lifecycle; only its
    /// renter or the admin may do so.
    pub fn set_reservation_status(&mut self, caller: &String, id: u32, status: OrderStatus) -> (r: Result<(), ShareCarError>)
        requires
            old(self).wf(),
        ensures
            final(self).wf(),
            (final(self)@, r) == set_status_step(old(self)@, caller@, id, status),
    {
        let ghost old_s = self@;
        if id == 0 || (id as usize) > self.reservations.len() {
            return Err(ShareCarError::ReservationNotFound);
        }
        let k = (id - 1) as usize;
        let is_admin = match &self.admin {
            Some(a) => *a == *caller,
            None => false,
        };
        if !(is_admin || self.reservations[k].renter == *caller) {
            return Err(ShareCarError::Unauthorized);
        }
        if !self.reservations[k].status.can_transition_to(status) {
            return Err(ShareCarError::IllegalTransition);
        }
        let ghost rv = crate::types::ReservationView { status, ..old_s.reservations[k as int] };
        let updated = Reservation {
            renter: self.reservations[k].renter.clone(),
            model: self.reservations[k].model.clone(),
            price_paid: self.reservations[k].price_paid,
            status,
        };
        self.reservations.set(k, updated);
        proof {
            let s = self@;
            assert(s.reservations =~= old_s.reservations.update(k as int, rv));
            assert(s.catalog == old_s.catalog);
            assert forall|j: int| 0 <= j < s.reservations.len() implies s.has_model(
                #[trigger] s.reservations[j].model,
            ) by {
                assert(old_s.has_model(old_s.reservations[j].model));
            }
        }
        Ok(())
    }

    /// Number of reservations issued so far; also the last identifier.
    pub fn order_counter(&self) -> (r: u32)
        ensures
            r == self@.counter,
    {
        self.order_counter
    }

    /// The admin identity, once set.
    pub fn admin(&self) -> (r: Option<String>)
        ensures
            opt_view(r) == self@.admin,
    {
        match &self.admin {
            Some(a) => Some(a.clone()),
            None => None,
        }
    }

    /// The payment token's address, once set.
    pub fn token(&self) -> (r: Option<String>)
        ensures
            opt_view(r) == self@.token,
    {
        match &self.token {
            Some(t) => Some(t.clone()),
            None => None,
        }
    }

    /// The stored reservations; the one at index `k` has identifier `k + 1`.
    pub fn get_reservations(&self) -> (r: &Vec<Reservation>)
        ensures
            r@.map_values(|v: Reservation| v@) == self@.reservations,
    {
        &self.reservations
    }

    /// Rebuilds a ledger from its stored parts, or `None` when they do not
    /// form a consistent ledger. The counter is the number of reservations.
    #[verifier::loop_isolation(false)]
    pub fn from_parts(
        admin: Option<String>,
        token: Option<String>,
        catalog: Vec<CatalogEntry>,
        reservations: Vec<Reservation>,
    ) -> (r: Option<ShareCar>)
        ensures
            r is Some <==> parts_valid(
                opt_view(admin),
                opt_view(token),
                catalog@.map_values(|e: CatalogEntry| e@),
                reservations@.map_values(|v: Reservation| v@),
            ),
            r matches Some(l) ==> l.wf() && l@ == restored(
                opt_view(admin),
                opt_view(token),
                catalog@.map_values(|e: CatalogEntry| e@),
                reservations@.map_values(|v: Reservation| v@),
            ),
    {
        if reservations.len() > u32::MAX as usize {
            return None;
        }
        if admin.is_some() != token.is_some() {
            return None;
        }
        if admin.is_none() && (catalog.len() > 0 || reservations.len() > 0) {
            return None;
        }
        let ledger = ShareCar {
            admin,
            token,
            order_counter: reservations.len() as u32,
            catalog,
            reservations,
        };
        let ghost st = ledger@;
        if !ledger.models_unique() {
            return None;
        }
        let mut i: usize = 0;
        while i < ledger.catalog.len()
            invariant
                ledger@ == st,
                i <= ledger.catalog.len(),
                forall|k: int| 0 <= k < i ==> #[trigger] st.catalog[k].vehicle.rate >= 0,
            decreases ledger.catalog.len() - i,
        {
            if ledger.catalog[i].vehicle.rate < 0 {
                proof {
                    assert(st.catalog[i as int].vehicle.rate < 0);
                }
                return None;
            }
            i = i + 1;
        }
        let mut j: usize = 0;
        while j < ledger.reservations.len()
            invariant
                ledger@ == st,
                st.unique_models(),
                j <= ledger.reservations.len(),
                forall|k: int| 0 <= k < j ==> st.has_model(#[trigger] st.reservations[k].model),
            decreases ledger.reservations.len() - j,
        {
            if ledger.find_model(&ledger.reservations[j].model).is_none() {
                proof {
                    assert(!st.has_model(st.reservations[j as int].model));
                }
                return None;
            }
            j = j + 1;
        }
        Some(ledger)
    }

    /// Whether no model name occurs twice in the catalog.
    fn models_unique(&self) -> (r: bool)
        ensures
            r == self@.unique_models(),
    {
        let mut i: usize = 0;
        while i < self.catalog.len()
            invariant
                i <= self.catalog.len(),
                forall|a: int, b: int|
                    0 <= a < i && 0 <= b < i && #[trigger] self@.catalog[a].model
                        == #[trigger] self@.catalog[b].model ==> a == b,
            decreases self.catalog.len() - i,
        {
            let mut j: usize = 0;
            while j < i
                invariant
                    i < self.catalog.len(),
                    j <= i,
                    forall|b: int| 0 <= b < j ==> self@.catalog[b].model != self@.catalog[i as int].model,
                decreases i - j,
            {
                if self.catalog[j].model == self.catalog[i].model {
                    proof {
                        assert(self@.catalog[j as int].model == self@.catalog[i as int].model);
                    }
                    return false;
                }
                j = j + 1;
            }
            proof {
                assert forall|a: int, b: int|
                    0 <= a < i + 1 && 0 <= b < i + 1 && #[trigger] self@.catalog[a].model
                        == #[trigger] self@.catalog[b].model implies a == b by {
                    if a == i as int && b < i {
                        assert(self@.catalog[b].model != self@.catalog[i as int].model);
                    } else if b == i as int && a < i {
                        assert(self@.catalog[a].model != self@.catalog[i as int].model);
                    }
                }
            }
            i = i + 1;
        }
        true
    }
}

} // verus!
