use streamcore::addr::select_host_address;
use streamcore::addr::usable_address;

#[test]
fn loopback_link_local_and_broadcast_are_refused() {
    assert!(!usable_address((127, 0, 0, 1)));
    assert!(!usable_address((127, 255, 0, 3)));
    assert!(!usable_address((169, 254, 7, 7)));
    assert!(!usable_address((255, 255, 255, 255)));
    assert!(usable_address((169, 253, 0, 1)));
    assert!(usable_address((10, 0, 0, 1)));
    assert!(usable_address((192, 168, 1, 20)));
}

#[test]
fn first_usable_interface_wins() {
    let candidates = vec![
        (127, 0, 0, 1),
        (169, 254, 0, 5),
        (192, 168, 1, 20),
        (10, 0, 0, 1),
    ];
    assert_eq!(select_host_address(&candidates), Some((192, 168, 1, 20)));
}

#[test]
fn no_usable_interface_yields_none() {
    let candidates = vec![(127, 0, 0, 1), (255, 255, 255, 255)];
    assert_eq!(select_host_address(&candidates), None);
    assert_eq!(select_host_address(&Vec::new()), None);
}
