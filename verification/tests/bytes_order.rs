use chopnow::bytes::{comes_before, first_difference, same_bytes};
use chopnow::identity::{Address, AddressKind};

#[test]
fn bytes_compare_in_dictionary_order() {
    let zero = [0u8; 32];
    let mut last = [0u8; 32];
    last[31] = 1;
    let mut first = [0u8; 32];
    first[0] = 1;
    assert_eq!(first_difference(&zero, &zero), 32);
    assert_eq!(first_difference(&zero, &last), 31);
    assert_eq!(first_difference(&first, &last), 0);
    assert!(same_bytes(&last, &last));
    assert!(!same_bytes(&last, &zero));
    assert!(comes_before(&zero, &last));
    assert!(comes_before(&last, &first));
    assert!(comes_before(&zero, &first));
    assert!(!comes_before(&first, &last));
    assert!(!comes_before(&first, &first));
    assert!(comes_before(&[0x7f; 32], &[0x80; 32]));
}

#[test]
fn addresses_are_the_same_by_kind_and_key() {
    let a = Address::account([1; 32]);
    assert_eq!(a, Address { kind: AddressKind::Account, key: [1; 32] });
    assert_eq!(Address::contract([1; 32]).kind, AddressKind::Contract);
    assert!(a.same(&Address::account([1; 32])));
    assert!(!a.same(&Address::contract([1; 32])));
    assert!(!a.same(&Address::account([2; 32])));
}
