use stund::registry::TunnelRegistry;

#[test]
fn insert_lookup_remove() {
    let mut reg = TunnelRegistry::new();
    let h1 = "h1".to_string();
    let h2 = "h2".to_string();
    assert_eq!(reg.lookup(&h1), None);
    reg.insert(h1.clone(), 10);
    reg.insert(h2.clone(), 20);
    assert!(reg.contains(&h1));
    assert_eq!(reg.lookup(&h1), Some(10));
    assert_eq!(reg.lookup(&h2), Some(20));
    assert_eq!(reg.remove(&h1), Some(10));
    assert!(!reg.contains(&h1));
    assert_eq!(reg.lookup(&h2), Some(20));
    assert_eq!(reg.remove(&h1), None);
}

#[test]
fn insert_same_host_replaces() {
    let mut reg = TunnelRegistry::new();
    let h = "h1".to_string();
    reg.insert(h.clone(), 1);
    reg.insert(h.clone(), 2);
    assert_eq!(reg.lookup(&h), Some(2));
    assert_eq!(reg.remove(&h), Some(2));
    assert_eq!(reg.lookup(&h), None);
}

#[test]
fn remove_tunnel_checks_handle() {
    let mut reg = TunnelRegistry::new();
    let h = "h1".to_string();
    reg.insert(h.clone(), 4);
    assert!(!reg.remove_tunnel(&h, 3));
    assert_eq!(reg.lookup(&h), Some(4));
    assert!(reg.remove_tunnel(&h, 4));
    assert!(!reg.contains(&h));
    assert!(!reg.remove_tunnel(&h, 4));
}
