use icaa_core::chains::{ChainDirectory, ChainEndpoint, ChainId, ChainName};
use icaa_core::registry::{confirmed_address, find_entry, is_listed, RemoteProxyEntry};

fn cn(s: &str) -> ChainName {
    ChainName::new(s.to_string()).unwrap()
}

fn endpoint(name: &str, id: &str) -> ChainEndpoint {
    ChainEndpoint { name: cn(name), id: ChainId::new(id.to_string()).unwrap() }
}

fn entry(chain: &str, address: Option<&str>) -> RemoteProxyEntry {
    RemoteProxyEntry { chain: cn(chain), address: address.map(|a| a.to_string()) }
}

#[test]
fn name_equality_is_value_equality() {
    assert!(cn("juno").name_eq(&cn("juno")));
    assert!(!cn("juno").name_eq(&cn("junox")));
    assert!(cn("juno").clone().name_eq(&cn("juno")));
}

#[test]
fn directory_maps_name_to_id() {
    let mut d = ChainDirectory::empty();
    d.add(endpoint("juno", "juno-1"));
    d.add(endpoint("archway", "archway-1"));
    assert_eq!(d.id_of(&cn("juno")).map(|i| i.as_text().as_str()), Some("juno-1"));
    assert_eq!(d.id_of(&cn("archway")).map(|i| i.as_text().as_str()), Some("archway-1"));
    assert!(d.id_of(&cn("osmosis")).is_none());
}

#[test]
fn listing_lookup_finds_first_entry() {
    let entries = vec![
        entry("osmosis", None),
        entry("archway", None),
        entry("archway", Some("later")),
    ];
    assert_eq!(find_entry(&entries, &cn("archway")), Some(1));
    assert_eq!(find_entry(&entries, &cn("juno")), None);
    assert!(is_listed(&entries, &cn("osmosis")));
    assert!(!is_listed(&entries, &cn("juno")));
}

#[test]
fn confirmed_address_skips_in_flight_entries() {
    // An entry without an address is still in flight; only Some(address)
    // confirms the remote account.
    let entries = vec![entry("archway", None), entry("archway", Some("archway1proxyaddr"))];
    assert_eq!(
        confirmed_address(&entries, &cn("archway")).map(|a| a.as_str()),
        Some("archway1proxyaddr")
    );
    assert!(confirmed_address(&entries, &cn("osmosis")).is_none());
    let in_flight = vec![entry("archway", None)];
    assert!(confirmed_address(&in_flight, &cn("archway")).is_none());
}
