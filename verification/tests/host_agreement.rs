use chopnow::escrow::{Order, OrderStatus, OrderStore};
use chopnow::identity::Address;
use soroban_sdk::{BytesN, Env};

fn order(id: [u8; 32]) -> Order {
    Order {
        id,
        buyer: Address::account([1; 32]),
        vendor: Address::account([2; 32]),
        amount: 5,
        status: OrderStatus::Created,
        created_at: 0,
        updated_at: 0,
    }
}

#[test]
fn store_scans_in_the_order_of_the_host_map() {
    let mut ids: Vec<[u8; 32]> = Vec::new();
    for (n, lead) in [0x80u8, 0x00, 0xff, 0x7f, 0x01, 0x80, 0x00].iter().enumerate() {
        let mut id = [0u8; 32];
        id[0] = *lead;
        id[17] = (7 * n) as u8;
        id[31] = 0xff - n as u8;
        ids.push(id);
    }
    ids.push([0; 32]);
    ids.push([0xff; 32]);
    ids.push(ids[3]);

    let env = Env::default();
    let mut host: soroban_sdk::Map<BytesN<32>, u32> = soroban_sdk::Map::new(&env);
    let mut store = OrderStore::new();
    for (n, id) in ids.iter().enumerate() {
        host.set(BytesN::from_array(&env, id), n as u32);
        store.put(order(*id));
    }
    let in_host: Vec<[u8; 32]> = host.keys().iter().map(|key| key.to_array()).collect();
    let in_store: Vec<[u8; 32]> = store.scan().iter().map(|order| order.id).collect();
    assert_eq!(in_store.len(), 9);
    assert_eq!(in_store, in_host);
    assert_eq!(store.len() as u32, host.len());
}
