use chopnow::escrow::{
    EscrowContract, EscrowError, EscrowEvent, Invocation, Order, OrderStatus, OrderStore,
};
use chopnow::identity::Address;

fn id(n: u8) -> [u8; 32] {
    [n; 32]
}

fn buyer() -> Address {
    Address::account([0xB0; 32])
}

fn vendor() -> Address {
    Address::contract([0x7E; 32])
}

fn at(timestamp: u64) -> Invocation {
    Invocation { authorized: true, timestamp }
}

#[test]
fn order_runs_from_created_to_completed() {
    let mut escrow = EscrowContract::new();
    let a = id(0xA);
    let created = escrow.create_order(&at(10), a, buyer(), vendor(), 1000).unwrap();
    assert_eq!(
        created,
        Order {
            id: a,
            buyer: buyer(),
            vendor: vendor(),
            amount: 1000,
            status: OrderStatus::Created,
            created_at: 10,
            updated_at: 10,
        }
    );
    let paid = escrow.pay_order(&at(11), a, buyer()).unwrap();
    assert_eq!(paid.status, OrderStatus::Paid);
    assert_eq!(paid.updated_at, 11);
    let ready = escrow.ready_for_pickup(&at(12), a, vendor()).unwrap();
    assert_eq!(ready.status, OrderStatus::ReadyForPickup);
    let done = escrow.complete_order(&at(13), a, buyer()).unwrap();
    assert_eq!(done.status, OrderStatus::Completed);
    assert_eq!(done.created_at, 10);
    assert_eq!(done.updated_at, 13);
    assert_eq!(done.amount, 1000);
    assert_eq!(escrow.get_order(a), Ok(done));

    assert_eq!(escrow.pay_order(&at(14), a, buyer()), Err(EscrowError::InvalidState));
    assert_eq!(escrow.ready_for_pickup(&at(14), a, vendor()), Err(EscrowError::InvalidState));
    assert_eq!(escrow.complete_order(&at(14), a, buyer()), Err(EscrowError::InvalidState));
    assert_eq!(escrow.cancel_order(&at(14), a, buyer()), Err(EscrowError::InvalidState));
    assert_eq!(escrow.cancel_order(&at(14), a, vendor()), Err(EscrowError::InvalidState));
    assert_eq!(
        escrow.create_order(&at(14), a, buyer(), vendor(), 1000),
        Err(EscrowError::AlreadyExists)
    );
    assert_eq!(escrow.get_order(a), Ok(done));

    let topics: Vec<&str> = escrow.events().iter().map(|e| e.topic()).collect();
    assert_eq!(topics, vec!["order_created", "order_paid", "order_ready", "order_completed"]);
    assert_eq!(
        escrow.events()[3],
        EscrowEvent::OrderCompleted { order_id: a, buyer: buyer(), vendor: vendor(), amount: 1000 }
    );
}

#[test]
fn cancelling_a_paid_order_refunds_it() {
    let mut escrow = EscrowContract::new();
    let c = id(0xC);
    assert_eq!(
        escrow.create_order(&at(1), c, buyer(), vendor(), 500).unwrap().status,
        OrderStatus::Created
    );
    assert_eq!(escrow.pay_order(&at(2), c, buyer()).unwrap().status, OrderStatus::Paid);
    let cancelled = escrow.cancel_order(&at(3), c, vendor()).unwrap();
    assert_eq!(cancelled.status, OrderStatus::Refunded);
    assert_eq!(cancelled.updated_at, 3);
    assert_eq!(escrow.get_order(c).unwrap().status, OrderStatus::Refunded);
    assert_eq!(
        escrow.events()[2..],
        [
            EscrowEvent::OrderCancelled { order_id: c, caller: vendor() },
            EscrowEvent::OrderRefunded { order_id: c, buyer: buyer(), amount: 500 },
        ]
    );
    assert_eq!(escrow.events().len(), 4);
    assert_eq!(escrow.cancel_order(&at(4), c, buyer()), Err(EscrowError::InvalidState));
}

#[test]
fn cancelling_an_order_that_is_ready_refunds_it() {
    let mut escrow = EscrowContract::new();
    let c = id(0xC);
    escrow.create_order(&at(1), c, buyer(), vendor(), 500).unwrap();
    escrow.pay_order(&at(2), c, buyer()).unwrap();
    escrow.ready_for_pickup(&at(3), c, vendor()).unwrap();
    assert_eq!(escrow.cancel_order(&at(4), c, buyer()).unwrap().status, OrderStatus::Refunded);
    let topics: Vec<&str> = escrow.events().iter().map(|e| e.topic()).collect();
    assert_eq!(
        topics,
        vec!["order_created", "order_paid", "order_ready", "order_cancelled", "order_refunded"]
    );
}

#[test]
fn cancelling_an_unpaid_order_emits_no_refund() {
    let mut escrow = EscrowContract::new();
    let d = id(0xD);
    escrow.create_order(&at(1), d, buyer(), vendor(), 42).unwrap();
    let cancelled = escrow.cancel_order(&at(2), d, buyer()).unwrap();
    assert_eq!(cancelled.status, OrderStatus::Cancelled);
    assert_eq!(escrow.get_order(d).unwrap().status, OrderStatus::Cancelled);
    assert_eq!(
        escrow.events().as_slice(),
        [
            EscrowEvent::OrderCreated { order_id: d, buyer: buyer(), vendor: vendor(), amount: 42 },
            EscrowEvent::OrderCancelled { order_id: d, caller: buyer() },
        ]
    );
    assert!(escrow.events().iter().all(|e| e.topic() != "order_refunded"));
}

#[test]
fn cancelled_order_can_be_cancelled_again_but_not_moved_on() {
    let mut escrow = EscrowContract::new();
    let d = id(0xD);
    escrow.create_order(&at(1), d, buyer(), vendor(), 42).unwrap();
    escrow.cancel_order(&at(2), d, buyer()).unwrap();
    assert_eq!(escrow.pay_order(&at(3), d, buyer()), Err(EscrowError::InvalidState));
    let again = escrow.cancel_order(&at(5), d, vendor()).unwrap();
    assert_eq!(again.status, OrderStatus::Cancelled);
    assert_eq!(again.updated_at, 5);
    assert_eq!(escrow.events().len(), 3);
}

#[test]
fn duplicate_id_is_rejected_and_order_kept() {
    let mut escrow = EscrowContract::new();
    let a = id(1);
    let first = escrow.create_order(&at(1), a, buyer(), vendor(), 10).unwrap();
    escrow.pay_order(&at(2), a, buyer()).unwrap();
    let kept = escrow.get_order(a).unwrap();
    assert_eq!(
        escrow.create_order(&at(3), a, vendor(), buyer(), 99),
        Err(EscrowError::AlreadyExists)
    );
    assert_eq!(escrow.get_order(a), Ok(kept));
    assert_eq!(kept.buyer, first.buyer);
    assert_eq!(kept.amount, 10);
    assert_eq!(escrow.events().len(), 2);
    assert_eq!(escrow.store().len(), 1);
}

#[test]
fn only_the_buyer_pays() {
    let mut escrow = EscrowContract::new();
    let a = id(1);
    escrow.create_order(&at(1), a, buyer(), vendor(), 10).unwrap();
    let stranger = Address::account([9; 32]);
    assert_eq!(escrow.pay_order(&at(2), a, vendor()), Err(EscrowError::Unauthorized));
    assert_eq!(escrow.pay_order(&at(2), a, stranger), Err(EscrowError::Unauthorized));
    // the same key under another kind is another principal
    assert_eq!(
        escrow.pay_order(&at(2), a, Address::contract([0xB0; 32])),
        Err(EscrowError::Unauthorized)
    );
    assert_eq!(escrow.get_order(a).unwrap().status, OrderStatus::Created);
    assert_eq!(escrow.get_order(a).unwrap().updated_at, 1);
    assert_eq!(escrow.events().len(), 1);
}

#[test]
fn roles_are_checked_on_every_step() {
    let mut escrow = EscrowContract::new();
    let a = id(1);
    let stranger = Address::account([9; 32]);
    escrow.create_order(&at(1), a, buyer(), vendor(), 10).unwrap();
    escrow.pay_order(&at(2), a, buyer()).unwrap();
    assert_eq!(escrow.ready_for_pickup(&at(3), a, buyer()), Err(EscrowError::Unauthorized));
    assert_eq!(escrow.cancel_order(&at(3), a, stranger), Err(EscrowError::Unauthorized));
    escrow.ready_for_pickup(&at(3), a, vendor()).unwrap();
    assert_eq!(escrow.complete_order(&at(4), a, vendor()), Err(EscrowError::Unauthorized));
    assert_eq!(escrow.get_order(a).unwrap().status, OrderStatus::ReadyForPickup);
}

#[test]
fn complete_needs_ready_for_pickup() {
    let mut escrow = EscrowContract::new();
    let a = id(1);
    escrow.create_order(&at(1), a, buyer(), vendor(), 10).unwrap();
    assert_eq!(escrow.complete_order(&at(2), a, buyer()), Err(EscrowError::InvalidState));
    escrow.pay_order(&at(2), a, buyer()).unwrap();
    assert_eq!(escrow.complete_order(&at(3), a, buyer()), Err(EscrowError::InvalidState));
    assert_eq!(escrow.get_order(a).unwrap().status, OrderStatus::Paid);
    escrow.ready_for_pickup(&at(3), a, vendor()).unwrap();
    assert_eq!(escrow.complete_order(&at(4), a, buyer()).unwrap().status, OrderStatus::Completed);
}

#[test]
fn steps_out_of_turn_are_invalid() {
    let mut escrow = EscrowContract::new();
    let a = id(1);
    escrow.create_order(&at(1), a, buyer(), vendor(), 10).unwrap();
    assert_eq!(escrow.ready_for_pickup(&at(2), a, vendor()), Err(EscrowError::InvalidState));
    escrow.pay_order(&at(2), a, buyer()).unwrap();
    assert_eq!(escrow.pay_order(&at(3), a, buyer()), Err(EscrowError::InvalidState));
}

#[test]
fn unknown_order_is_not_found() {
    let mut escrow = EscrowContract::new();
    let a = id(1);
    assert_eq!(escrow.get_order(a), Err(EscrowError::NotFound));
    assert_eq!(escrow.pay_order(&at(1), a, buyer()), Err(EscrowError::NotFound));
    assert_eq!(escrow.ready_for_pickup(&at(1), a, vendor()), Err(EscrowError::NotFound));
    assert_eq!(escrow.complete_order(&at(1), a, buyer()), Err(EscrowError::NotFound));
    assert_eq!(escrow.cancel_order(&at(1), a, buyer()), Err(EscrowError::NotFound));
    assert!(escrow.events().is_empty());
}

#[test]
fn unproven_authorization_is_turned_away_first() {
    let mut escrow = EscrowContract::new();
    let a = id(1);
    let unproven = Invocation { authorized: false, timestamp: 5 };
    assert_eq!(
        escrow.create_order(&unproven, a, buyer(), vendor(), 10),
        Err(EscrowError::Unauthorized)
    );
    assert_eq!(escrow.get_order(a), Err(EscrowError::NotFound));
    assert_eq!(escrow.pay_order(&unproven, a, buyer()), Err(EscrowError::Unauthorized));
    escrow.create_order(&at(1), a, buyer(), vendor(), 10).unwrap();
    assert_eq!(
        escrow.create_order(&unproven, a, buyer(), vendor(), 10),
        Err(EscrowError::Unauthorized)
    );
    assert_eq!(escrow.pay_order(&unproven, a, buyer()), Err(EscrowError::Unauthorized));
    assert_eq!(escrow.cancel_order(&unproven, a, vendor()), Err(EscrowError::Unauthorized));
    assert_eq!(escrow.get_order(a).unwrap().status, OrderStatus::Created);
    assert_eq!(escrow.events().len(), 1);
}

#[test]
fn amount_is_taken_as_given() {
    let mut escrow = EscrowContract::new();
    let zero = escrow.create_order(&at(1), id(1), buyer(), vendor(), 0).unwrap();
    let negative = escrow.create_order(&at(1), id(2), buyer(), vendor(), -7).unwrap();
    let huge = escrow.create_order(&at(1), id(3), buyer(), vendor(), i128::MAX).unwrap();
    assert_eq!(zero.amount, 0);
    assert_eq!(negative.amount, -7);
    assert_eq!(huge.amount, i128::MAX);
    assert_eq!(escrow.pay_order(&at(2), id(2), buyer()).unwrap().amount, -7);
}

#[test]
fn timestamps_follow_the_clock() {
    let mut escrow = EscrowContract::new();
    let a = id(1);
    let mut seen = vec![escrow.create_order(&at(100), a, buyer(), vendor(), 10).unwrap()];
    seen.push(escrow.pay_order(&at(100), a, buyer()).unwrap());
    assert_eq!(escrow.complete_order(&at(150), a, buyer()), Err(EscrowError::InvalidState));
    seen.push(escrow.get_order(a).unwrap());
    seen.push(escrow.ready_for_pickup(&at(200), a, vendor()).unwrap());
    seen.push(escrow.complete_order(&at(u64::MAX), a, buyer()).unwrap());
    let updated: Vec<u64> = seen.iter().map(|o| o.updated_at).collect();
    assert_eq!(updated, vec![100, 100, 100, 200, u64::MAX]);
    assert!(seen.iter().all(|o| o.created_at == 100));
}

#[test]
fn orders_are_listed_by_party_in_id_order() {
    let mut escrow = EscrowContract::new();
    let other_buyer = Address::account([2; 32]);
    let other_vendor = Address::account([3; 32]);
    let mut low = [0u8; 32];
    low[31] = 1;
    let mut mid = [0u8; 32];
    mid[0] = 1;
    let high = [0xFF; 32];
    escrow.create_order(&at(1), high, buyer(), vendor(), 1).unwrap();
    escrow.create_order(&at(2), low, buyer(), other_vendor, 2).unwrap();
    escrow.create_order(&at(3), mid, other_buyer, vendor(), 3).unwrap();
    escrow.create_order(&at(4), id(7), buyer(), vendor(), 4).unwrap();
    escrow.pay_order(&at(5), low, buyer()).unwrap();

    let ids = |orders: Vec<Order>| orders.iter().map(|o| o.id).collect::<Vec<_>>();
    assert_eq!(ids(escrow.get_buyer_orders(buyer())), vec![low, id(7), high]);
    assert_eq!(ids(escrow.get_buyer_orders(other_buyer)), vec![mid]);
    assert_eq!(ids(escrow.get_vendor_orders(vendor())), vec![mid, id(7), high]);
    assert_eq!(ids(escrow.get_vendor_orders(other_vendor)), vec![low]);
    assert!(escrow.get_buyer_orders(vendor()).is_empty());
    assert!(escrow.get_vendor_orders(buyer()).is_empty());
    assert_eq!(escrow.get_buyer_orders(buyer())[0].status, OrderStatus::Paid);
    assert_eq!(ids(escrow.store().scan().clone()), vec![low, mid, id(7), high]);
}

#[test]
fn store_puts_gets_and_scans() {
    let mut store = OrderStore::new();
    assert_eq!(store.len(), 0);
    let order = |n: u8, status: OrderStatus| Order {
        id: id(n),
        buyer: buyer(),
        vendor: vendor(),
        amount: n as i128,
        status,
        created_at: 1,
        updated_at: 2,
    };
    store.put(order(5, OrderStatus::Paid));
    store.put(order(3, OrderStatus::Created));
    store.put(order(9, OrderStatus::Refunded));
    store.put(order(5, OrderStatus::Completed));
    assert_eq!(store.len(), 3);
    assert!(store.contains(&id(3)));
    assert!(!store.contains(&id(4)));
    assert_eq!(store.get(&id(5)), Some(order(5, OrderStatus::Completed)));
    assert_eq!(store.get(&id(4)), None);
    assert_eq!(
        store.scan().clone(),
        vec![
            order(3, OrderStatus::Created),
            order(5, OrderStatus::Completed),
            order(9, OrderStatus::Refunded)
        ]
    );

    let mut escrow = EscrowContract::with_store(store);
    assert!(escrow.events().is_empty());
    assert_eq!(escrow.pay_order(&at(7), id(3), buyer()).unwrap().status, OrderStatus::Paid);
    assert_eq!(escrow.cancel_order(&at(8), id(9), buyer()), Err(EscrowError::InvalidState));
    assert_eq!(escrow.store().get(&id(3)).unwrap().updated_at, 7);
}

#[test]
fn independent_engines_do_not_share_orders() {
    let mut one = EscrowContract::new();
    let mut two = EscrowContract::new();
    one.create_order(&at(1), id(1), buyer(), vendor(), 1).unwrap();
    assert_eq!(two.get_order(id(1)), Err(EscrowError::NotFound));
    assert!(two.create_order(&at(1), id(1), vendor(), buyer(), 2).is_ok());
    assert_eq!(one.get_order(id(1)).unwrap().amount, 1);
}

#[test]
fn statuses_know_whether_they_are_final() {
    assert!(OrderStatus::Completed.terminal());
    assert!(OrderStatus::Refunded.terminal());
    assert!(!OrderStatus::Cancelled.terminal());
    assert!(!OrderStatus::Created.terminal());
    assert!(OrderStatus::Paid.funded());
    assert!(OrderStatus::ReadyForPickup.funded());
    assert!(!OrderStatus::Created.funded());
    assert_eq!(
        EscrowEvent::OrderReady { order_id: id(4), vendor: vendor() }.order_id(),
        id(4)
    );
}
