//! Properties of the ledger that relate several operations, stated over
//! the abstract steps that the executable operations are proved to follow.
use vstd::prelude::*;
use crate::types::{OrderStatus, ShareCarError, legal_transition};
use crate::model::{
    LedgerState, initialize_step, publish_step, reserve_step, set_status_step,
};

verus! {

/// One call on the ledger, with the arguments it was given.
pub enum Action {
    Initialize { admin: Seq<char>, token: Seq<char> },
    Publish {
        caller: Seq<char>,
        model: Seq<char>,
        brand: Seq<char>,
        availability: Seq<char>,
        rate: i128,
    },
    Reserve { caller: Seq<char>, renter: Seq<char>, model: Seq<char>, paid: bool },
    SetStatus { caller: Seq<char>, id: u32, status: OrderStatus },
}

/// The state after performing `a` on `s`.
pub open spec fn apply(s: LedgerState, a: Action) -> LedgerState {
    match a {
        Action::Initialize { admin, token } => initialize_step(s, admin, token).0,
        Action::Publish { caller, model, brand, availability, rate } => publish_step(
            s,
            caller,
            model,
            brand,
            availability,
            rate,
        ).0,
        Action::Reserve { caller, renter, model, paid } => reserve_step(
            s,
            caller,
            renter,
            model,
            paid,
        ).0,
        Action::SetStatus { caller, id, status } => set_status_step(s, caller, id, status).0,
    }
}

/// The identifier `a` hands out when performed on `s`, if it is a
/// successful reservation.
pub open spec fn issued(s: LedgerState, a: Action) -> Option<u32> {
    match a {
        Action::Reserve { caller, renter, model, paid } => match reserve_step(
            s,
            caller,
            renter,
            model,
            paid,
        ).1 {
            Ok(id) => Some(id),
            Err(_) => None,
        },
        _ => None,
    }
}

/// The state after performing `acts` in order.
pub open spec fn run(s: LedgerState, acts: Seq<Action>) -> LedgerState
    decreases acts.len(),
{
    if acts.len() == 0 {
        s
    } else {
        apply(run(s, acts.drop_last()), acts.last())
    }
}

/// The identifiers handed out while performing `acts` in order.
pub open spec fn ids_issued(s: LedgerState, acts: Seq<Action>) -> Seq<u32>
    decreases acts.len(),
{
    if acts.len() == 0 {
        Seq::empty()
    } else {
        let before = ids_issued(s, acts.drop_last());
        match issued(run(s, acts.drop_last()), acts.last()) {
            Some(id) => before.push(id),
            None => before,
        }
    }
}

/// Once initialization has been attempted, every further attempt fails
/// with `AlreadyInitialized` and changes nothing, whatever its arguments.
pub proof fn lemma_initialize_refused_twice(
    s: LedgerState,
    admin1: Seq<char>,
    token1: Seq<char>,
    admin2: Seq<char>,
    token2: Seq<char>,
)
    ensures
        ({
            let s1 = initialize_step(s, admin1, token1).0;
            initialize_step(s1, admin2, token2) == (s1, Err::<(), ShareCarError>(
                ShareCarError::AlreadyInitialized,
            ))
        }),
{
}

/// Initializing a consistent ledger that has no admin yet succeeds, and
/// the ledger it starts holds no vehicles, no reservations and a zero
/// counter.
pub proof fn lemma_initialize_fresh(s: LedgerState, admin: Seq<char>, token: Seq<char>)
    requires
        s.well_formed(),
        !s.initialized(),
    ensures
        ({
            let (s1, r) = initialize_step(s, admin, token);
            &&& r == Ok::<(), ShareCarError>(())
            &&& s1.admin == Some(admin) && s1.token == Some(token)
            &&& s1.counter == 0 && s1.catalog.len() == 0 && s1.reservations.len() == 0
        }),
{
}

/// A single step changes the counter only by handing out the next
/// identifier, which becomes the new counter.
proof fn lemma_step_counter(s: LedgerState, a: Action)
    ensures
        match issued(s, a) {
            Some(id) => s.counter < u32::MAX && id == s.counter + 1 && apply(s, a).counter == id,
            None => apply(s, a).counter == s.counter,
        },
{
}

/// Over any sequence of calls, the identifiers handed out by successful
/// reservations are exactly the consecutive numbers after the starting
/// counter: strictly increasing, without gaps or repeats, and ending at
/// the final counter.
pub proof fn lemma_ids_consecutive(s: LedgerState, acts: Seq<Action>)
    ensures
        run(s, acts).counter >= s.counter,
        ids_issued(s, acts) == Seq::new(
            (run(s, acts).counter - s.counter) as nat,
            |i: int| (s.counter + 1 + i) as u32,
        ),
    decreases acts.len(),
{
    if acts.len() > 0 {
        let prefix = acts.drop_last();
        lemma_ids_consecutive(s, prefix);
        let p = run(s, prefix);
        lemma_step_counter(p, acts.last());
        assert(ids_issued(s, acts) =~= Seq::new(
            (run(s, acts).counter - s.counter) as nat,
            |i: int| (s.counter + 1 + i) as u32,
        ));
    } else {
        assert(ids_issued(s, acts) =~= Seq::new(
            (run(s, acts).counter - s.counter) as nat,
            |i: int| (s.counter + 1 + i) as u32,
        ));
    }
}

/// A reservation whose transfer failed changes nothing: the counter stays,
/// no identifier beyond it names a reservation, and where the transfer was
/// owed the failure is reported as `PaymentFailed`.
pub proof fn lemma_failed_payment_changes_nothing(
    s: LedgerState,
    caller: Seq<char>,
    renter: Seq<char>,
    model: Seq<char>,
)
    requires
        s.well_formed(),
    ensures
        ({
            let (s1, r) = reserve_step(s, caller, renter, model, false);
            &&& s1 == s
            &&& r is Err
            &&& forall|id: u32| id > s.counter ==> (#[trigger] s1.reservation(id)) is None
            &&& crate::model::payment_due(s, caller, renter, model) is Ok ==> r == Err::<u32, ShareCarError>(
                ShareCarError::PaymentFailed,
            )
        }),
{
}

/// Two successful reservations with only calls in between that hand out
/// no identifier (failures, publications, status changes) receive
/// consecutive identifiers.
pub proof fn lemma_successive_reservations(
    s: LedgerState,
    first: Action,
    between: Seq<Action>,
    second: Action,
)
    requires
        issued(s, first) is Some,
        ids_issued(apply(s, first), between).len() == 0,
        issued(run(apply(s, first), between), second) is Some,
    ensures
        issued(run(apply(s, first), between), second)->Some_0 == issued(s, first)->Some_0 + 1,
{
    let s1 = apply(s, first);
    lemma_step_counter(s, first);
    lemma_ids_consecutive(s1, between);
    let s2 = run(s1, between);
    assert(Seq::new((s2.counter - s1.counter) as nat, |i: int| (s1.counter + 1 + i) as u32).len() == 0);
    lemma_step_counter(s2, second);
}

/// Publishing by anyone but the stored admin fails with `Unauthorized`
/// and leaves the ledger, catalog included, unchanged.
pub proof fn lemma_publish_by_non_admin(
    s: LedgerState,
    caller: Seq<char>,
    model: Seq<char>,
    brand: Seq<char>,
    availability: Seq<char>,
    rate: i128,
)
    requires
        s.admin is Some,
        s.admin != Some(caller),
    ensures
        publish_step(s, caller, model, brand, availability, rate) == (s, Err::<(), ShareCarError>(
            ShareCarError::Unauthorized,
        )),
{
}

/// The price of a reservation is the rate at the time it was made, and
/// republishing its model, at any rate, leaves it as it was.
pub proof fn lemma_price_paid_is_snapshot(
    s: LedgerState,
    caller: Seq<char>,
    renter: Seq<char>,
    model: Seq<char>,
    publisher: Seq<char>,
    brand: Seq<char>,
    availability: Seq<char>,
    new_rate: i128,
)
    requires
        s.well_formed(),
    ensures
        ({
            let (s1, r) = reserve_step(s, caller, renter, model, true);
            let s2 = publish_step(s1, publisher, model, brand, availability, new_rate).0;
            r is Ok ==> {
                let id = r->Ok_0;
                &&& s1.reservation(id) is Some
                &&& s1.reservation(id)->Some_0.price_paid == s.vehicle(model)->Some_0.rate
                &&& s2.reservation(id) == s1.reservation(id)
            }
        }),
{
}

/// A status change succeeds only along a legal transition, and then
/// changes that status alone; any other request leaves the ledger as it
/// was, and an illegal one from an authorized caller fails with
/// `IllegalTransition`.
pub proof fn lemma_status_transitions(s: LedgerState, caller: Seq<char>, id: u32, status: OrderStatus)
    ensures
        ({
            let (s1, r) = set_status_step(s, caller, id, status);
            &&& r is Ok ==> {
                &&& s.reservation(id) is Some
                &&& legal_transition(s.reservation(id)->Some_0.status, status)
                &&& s1.reservation(id) == Some(
                    crate::types::ReservationView { status, ..s.reservation(id)->Some_0 },
                )
                &&& forall|other: u32| other != id ==> #[trigger] s1.reservation(other) == s.reservation(other)
            }
            &&& r is Err ==> s1 == s
            &&& (s.reservation(id) is Some && crate::model::may_update(s, caller, s.reservation(id)->Some_0)
                && !legal_transition(s.reservation(id)->Some_0.status, status)) ==> r == Err::<(), ShareCarError>(
                ShareCarError::IllegalTransition,
            )
        }),
{
}

} // verus!
