use ip_echo::config::get_local_addr;

#[test]
fn test_get_local_addr_in_default() {
    let addr = get_local_addr(None, None);
    assert_eq!(addr, "0.0.0.0:3000");
}

#[test]
fn test_get_local_addr_is_set() {
    let addr = get_local_addr(Some("127.0.0.1".to_string()), Some("8000".to_string()));
    assert_eq!(addr, "127.0.0.1:8000");
}

#[test]
fn local_addr_with_host_only_keeps_the_default_port() {
    let addr = get_local_addr(Some("localhost".to_string()), None);
    assert_eq!(addr, "localhost:3000");
}

#[test]
fn local_addr_with_port_only_keeps_the_default_host() {
    let addr = get_local_addr(None, Some("8080".to_string()));
    assert_eq!(addr, "0.0.0.0:8080");
}
