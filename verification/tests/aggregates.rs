use linera_base::crypto::CryptoHash;
use linera_base::data_types::TimeDelta;
use linera_base::http::{Header, Response};
use linera_base::identifiers::AccountOwner;
use linera_base::ownership::TimeoutConfig;
use wire_conversions::aggregates::{chain_ownership, http_header, http_response, timeout_config};
use wire_conversions::wire::{
    WireChainOwnership, WireCryptoHash, WireHttpHeader, WireHttpResponse, WireOwner,
    WireTimeDelta, WireTimeoutConfig,
};

fn wire_owner(first: u64) -> WireOwner {
    WireOwner { inner0: WireCryptoHash { part1: first, part2: 0, part3: 0, part4: first } }
}

fn host_owner(first: u64) -> AccountOwner {
    AccountOwner::Address32(CryptoHash::from([first, 0, 0, first]))
}

fn wire_timeouts() -> WireTimeoutConfig {
    WireTimeoutConfig {
        fast_round_duration: None,
        base_timeout: WireTimeDelta { inner0: 10_000_000 },
        timeout_increment: WireTimeDelta { inner0: 1_000_000 },
        fallback_duration: WireTimeDelta { inner0: 86_400_000_000 },
    }
}

fn wire_ownership(
    super_owners: Vec<WireOwner>,
    owners: Vec<(WireOwner, u64)>,
) -> WireChainOwnership {
    WireChainOwnership {
        super_owners,
        owners,
        multi_leader_rounds: 2,
        open_multi_leader_rounds: false,
        timeout_config: wire_timeouts(),
    }
}

fn wire_header(name: &str, value: &[u8]) -> WireHttpHeader {
    WireHttpHeader { name: name.to_string(), value: value.to_vec() }
}

#[test]
fn timeout_config_without_a_fast_round_has_none() {
    let converted = timeout_config(wire_timeouts());
    assert_eq!(converted.fast_round_duration, None);
    assert_ne!(converted.fast_round_duration, Some(TimeDelta::ZERO));
    assert_eq!(converted, TimeoutConfig::default());
}

#[test]
fn timeout_config_with_a_fast_round_keeps_it() {
    let wire = WireTimeoutConfig {
        fast_round_duration: Some(WireTimeDelta { inner0: 250_000 }),
        ..wire_timeouts()
    };
    let converted = timeout_config(wire);
    assert_eq!(converted.fast_round_duration, Some(TimeDelta::from_micros(250_000)));
}

#[test]
fn timeout_config_with_a_fast_round_of_zero_is_not_absent() {
    let wire = WireTimeoutConfig {
        fast_round_duration: Some(WireTimeDelta { inner0: 0 }),
        ..wire_timeouts()
    };
    assert_eq!(timeout_config(wire).fast_round_duration, Some(TimeDelta::ZERO));
}

#[test]
fn timeout_config_keeps_each_duration_in_its_place() {
    let wire = WireTimeoutConfig {
        fast_round_duration: Some(WireTimeDelta { inner0: 1 }),
        base_timeout: WireTimeDelta { inner0: 2 },
        timeout_increment: WireTimeDelta { inner0: 3 },
        fallback_duration: WireTimeDelta { inner0: 4 },
    };
    let converted = timeout_config(wire);
    assert_eq!(converted.fast_round_duration, Some(TimeDelta::from_micros(1)));
    assert_eq!(converted.base_timeout.as_micros(), 2);
    assert_eq!(converted.timeout_increment.as_micros(), 3);
    assert_eq!(converted.fallback_duration.as_micros(), 4);
}

#[test]
fn chain_ownership_of_two_owners_has_two_weights() {
    let pairs = vec![(wire_owner(1), 3), (wire_owner(2), 5)];
    let converted = chain_ownership(wire_ownership(vec![], pairs));
    assert_eq!(converted.owners.len(), 2);
    assert_eq!(converted.owners.get(&host_owner(1)), Some(&3));
    assert_eq!(converted.owners.get(&host_owner(2)), Some(&5));
    assert!(converted.super_owners.is_empty());
}

#[test]
fn chain_ownership_does_not_depend_on_the_order_of_the_owners() {
    let pairs = vec![(wire_owner(1), 3), (wire_owner(2), 5)];
    let swapped = vec![(wire_owner(2), 5), (wire_owner(1), 3)];
    let forwards = chain_ownership(wire_ownership(vec![], pairs));
    let backwards = chain_ownership(wire_ownership(vec![], swapped));
    assert_eq!(forwards, backwards);
    assert_eq!(backwards.owners.len(), 2);
    assert_eq!(backwards.owners.get(&host_owner(1)), Some(&3));
    assert_eq!(backwards.owners.get(&host_owner(2)), Some(&5));
}

#[test]
fn chain_ownership_takes_the_last_weight_of_an_owner() {
    let pairs = vec![(wire_owner(1), 3), (wire_owner(1), 5)];
    let converted = chain_ownership(wire_ownership(vec![], pairs));
    assert_eq!(converted.owners.len(), 1);
    assert_eq!(converted.owners.get(&host_owner(1)), Some(&5));
}

#[test]
fn chain_ownership_takes_the_last_weight_with_others_between() {
    let converted = chain_ownership(wire_ownership(
        vec![],
        vec![(wire_owner(1), 3), (wire_owner(2), 7), (wire_owner(1), 5), (wire_owner(3), 0)],
    ));
    assert_eq!(converted.owners.len(), 3);
    assert_eq!(converted.owners.get(&host_owner(1)), Some(&5));
    assert_eq!(converted.owners.get(&host_owner(2)), Some(&7));
    assert_eq!(converted.owners.get(&host_owner(3)), Some(&0));
}

#[test]
fn chain_ownership_collects_the_super_owners_into_a_set() {
    let converted = chain_ownership(wire_ownership(
        vec![wire_owner(9), wire_owner(8), wire_owner(9)],
        vec![(wire_owner(1), 100)],
    ));
    assert_eq!(converted.super_owners.len(), 2);
    assert!(converted.super_owners.contains(&host_owner(9)));
    assert!(converted.super_owners.contains(&host_owner(8)));
    assert!(!converted.super_owners.contains(&host_owner(1)));
    assert_eq!(converted.owners.len(), 1);
}

#[test]
fn chain_ownership_keeps_the_round_settings_and_the_timeouts() {
    let wire = WireChainOwnership {
        super_owners: vec![],
        owners: vec![],
        multi_leader_rounds: 7,
        open_multi_leader_rounds: true,
        timeout_config: WireTimeoutConfig {
            fast_round_duration: Some(WireTimeDelta { inner0: 5 }),
            ..wire_timeouts()
        },
    };
    let converted = chain_ownership(wire);
    assert_eq!(converted.multi_leader_rounds, 7);
    assert!(converted.open_multi_leader_rounds);
    assert_eq!(converted.timeout_config.fast_round_duration, Some(TimeDelta::from_micros(5)));
    assert_eq!(converted.timeout_config.base_timeout, TimeDelta::from_secs(10));
    assert!(converted.owners.is_empty());
    assert!(converted.super_owners.is_empty());
}

#[test]
fn chain_ownership_without_a_fast_round_has_none() {
    let converted = chain_ownership(wire_ownership(vec![wire_owner(1)], vec![]));
    assert_eq!(converted.timeout_config.fast_round_duration, None);
    assert_eq!(converted.multi_leader_rounds, 2);
    assert!(!converted.open_multi_leader_rounds);
}

#[test]
fn http_header_keeps_name_and_value() {
    let converted = http_header(wire_header("Content-Type", b"application/json"));
    assert_eq!(converted, Header::new("Content-Type", b"application/json"));
    assert_eq!(converted.name, "Content-Type");
    assert_eq!(converted.value, b"application/json".to_vec());
}

#[test]
fn http_header_value_may_hold_any_bytes() {
    let converted =
        http_header(WireHttpHeader { name: String::new(), value: vec![0, 255, 10, 13] });
    assert_eq!(converted.name, "");
    assert_eq!(converted.value, vec![0, 255, 10, 13]);
}

#[test]
fn http_response_keeps_the_order_of_the_headers() {
    let converted = http_response(WireHttpResponse {
        status: 200,
        headers: vec![wire_header("a", b"1"), wire_header("b", b"2")],
        body: vec![],
    });
    assert_eq!(converted.headers.len(), 2);
    assert_eq!(converted.headers[0], Header::new("a", b"1"));
    assert_eq!(converted.headers[1], Header::new("b", b"2"));
}

#[test]
fn http_response_keeps_repeated_headers() {
    let converted = http_response(WireHttpResponse {
        status: 302,
        headers: vec![wire_header("b", b"2"), wire_header("a", b"1"), wire_header("b", b"3")],
        body: vec![],
    });
    let names: Vec<&str> = converted.headers.iter().map(|header| header.name.as_str()).collect();
    assert_eq!(names, vec!["b", "a", "b"]);
    assert_eq!(converted.headers[2].value, b"3".to_vec());
}

#[test]
fn http_response_keeps_status_and_body() {
    let converted = http_response(WireHttpResponse {
        status: 404,
        headers: vec![],
        body: b"not found".to_vec(),
    });
    assert_eq!(converted.status, 404);
    assert!(converted.headers.is_empty());
    assert_eq!(converted.body, b"not found".to_vec());
    assert_eq!(
        converted,
        Response { status: 404, headers: vec![], body: b"not found".to_vec() }
    );
}

#[test]
fn chain_ownership_of_distinct_owners_is_the_same_in_any_order() {
    let pairs: Vec<(WireOwner, u64)> = (1..=20).map(|n| (wire_owner(n), n * 10)).collect();
    let mut reversed = pairs.clone();
    reversed.reverse();
    let mut rotated = pairs.clone();
    rotated.rotate_left(7);
    let forwards = chain_ownership(wire_ownership(vec![], pairs));
    assert_eq!(forwards.owners.len(), 20);
    for n in 1..=20 {
        assert_eq!(forwards.owners.get(&host_owner(n)), Some(&(n * 10)));
    }
    assert_eq!(forwards, chain_ownership(wire_ownership(vec![], reversed)));
    assert_eq!(forwards, chain_ownership(wire_ownership(vec![], rotated)));
}

#[test]
fn chain_ownership_tells_owners_apart_by_every_part() {
    let first = WireOwner { inner0: WireCryptoHash { part1: 1, part2: 0, part3: 0, part4: 0 } };
    let second = WireOwner { inner0: WireCryptoHash { part1: 0, part2: 1, part3: 0, part4: 0 } };
    let third = WireOwner { inner0: WireCryptoHash { part1: 0, part2: 0, part3: 1, part4: 0 } };
    let fourth = WireOwner { inner0: WireCryptoHash { part1: 0, part2: 0, part3: 0, part4: 1 } };
    let converted = chain_ownership(wire_ownership(
        vec![first, second, third, fourth],
        vec![(first, 1), (second, 2), (third, 3), (fourth, 4)],
    ));
    assert_eq!(converted.super_owners.len(), 4);
    assert_eq!(converted.owners.len(), 4);
    assert_eq!(
        converted.owners.get(&AccountOwner::Address32(CryptoHash::from([0, 0, 1, 0]))),
        Some(&3)
    );
}

#[test]
fn http_response_of_many_headers_keeps_every_place() {
    let headers: Vec<WireHttpHeader> =
        (0..50u8).map(|n| wire_header(&format!("x-{}", 49 - n), &[n])).collect();
    let converted = http_response(WireHttpResponse {
        status: 200,
        headers: headers.clone(),
        body: vec![1, 2, 3],
    });
    assert_eq!(converted.headers.len(), 50);
    for (place, header) in headers.iter().enumerate() {
        assert_eq!(converted.headers[place].name, header.name);
        assert_eq!(converted.headers[place].value, header.value);
    }
    assert_eq!(converted.body, vec![1, 2, 3]);
}
