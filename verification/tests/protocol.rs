use rtun::ApplicationServerManifest;

fn address(ipaddr: &str, port: u16) -> String {
    ApplicationServerManifest { ipaddr: ipaddr.to_string(), port }.address()
}

#[test]
fn address_is_host_and_port() {
    assert_eq!(address("127.0.0.1", 5000), "127.0.0.1:5000");
    assert_eq!(address("localhost", 0), "localhost:0");
    assert_eq!(address("", 9), ":9");
    assert_eq!(address("h", 10), "h:10");
    assert_eq!(address("h", u16::MAX), "h:65535");
}

#[test]
fn every_port_is_written_in_decimal() {
    for port in 0..=u16::MAX {
        assert_eq!(address("h", port), format!("h:{}", port));
    }
}

#[test]
fn manifest_clone_is_equal() {
    let manifest = ApplicationServerManifest { ipaddr: "10.1.2.3".to_string(), port: 80 };
    assert_eq!(manifest.clone(), manifest);
}
