use relay_client::http_client::{HttpClient, HttpClientError, IpAddress, IpSelectAlgorithm};

fn three_addresses() -> Vec<IpAddress> {
    vec![
        IpAddress::V4(127, 0, 0, 1),
        IpAddress::V4(127, 0, 0, 2),
        IpAddress::V4(127, 0, 0, 3),
    ]
}

#[test]
fn round_robin_visits_every_endpoint_once_in_order() {
    let mut pool = HttpClient::new(three_addresses(), IpSelectAlgorithm::RoundRobin).unwrap();
    let mut seen: Vec<usize> = Vec::new();
    for _ in 0..6 {
        seen.push(pool.select_index());
    }
    assert_eq!(seen, vec![0, 1, 2, 0, 1, 2]);
}

#[test]
fn round_robin_pool_of_one_always_returns_zero() {
    let mut pool =
        HttpClient::new(vec![IpAddress::V4(127, 0, 0, 1)], IpSelectAlgorithm::RoundRobin).unwrap();
    for _ in 0..5 {
        assert_eq!(pool.select_index(), 0);
    }
}

#[test]
fn empty_address_list_falls_back_to_single_unbound_client() {
    let mut pool = HttpClient::new(Vec::new(), IpSelectAlgorithm::RoundRobin).unwrap();
    assert_eq!(pool.select_index(), 0);
    assert_eq!(pool.select_index(), 0);
    let _client = pool.get_client();
}

#[test]
fn v6_addresses_build_a_pool_of_matching_size() {
    let ips = vec![
        IpAddress::V6(0, 0, 0, 0, 0, 0, 0, 1),
        IpAddress::V6(0xfe80, 0, 0, 0, 0, 0, 0, 2),
    ];
    let mut pool = HttpClient::new(ips, IpSelectAlgorithm::RoundRobin).unwrap();
    assert_eq!(pool.select_index(), 0);
    assert_eq!(pool.select_index(), 1);
    assert_eq!(pool.select_index(), 0);
}

#[test]
fn random_never_repeats_the_previous_index_for_pools_of_two_or_more() {
    let mut pool = HttpClient::new(three_addresses(), IpSelectAlgorithm::Random).unwrap();
    let mut previous: Option<usize> = None;
    for _ in 0..200 {
        let picked = pool.select_index();
        assert!(picked < 3);
        if let Some(last) = previous {
            assert_ne!(picked, last);
        }
        previous = Some(picked);
    }
}

#[test]
fn random_pool_of_one_may_repeat() {
    let mut pool =
        HttpClient::new(vec![IpAddress::V4(10, 0, 0, 1)], IpSelectAlgorithm::Random).unwrap();
    assert_eq!(pool.select_index(), 0);
    assert_eq!(pool.select_index(), 0);
}

#[test]
fn extra_request_advances_rotation_by_exactly_one_step() {
    // After a polling session has reached its terminal outcome, one more
    // request must move nothing but the rotation cursor: the selection
    // sequence simply continues where it stood.
    let mut pool = HttpClient::new(three_addresses(), IpSelectAlgorithm::RoundRobin).unwrap();
    assert_eq!(pool.select_index(), 0);
    assert_eq!(pool.select_index(), 1);
    // the extra request after the terminal outcome
    let _client = pool.get_client();
    // rotation advanced by exactly one: the cycle resumes at 0, not at 2
    assert_eq!(pool.select_index(), 0);
    assert_eq!(pool.select_index(), 1);
}

#[test]
fn default_algorithm_is_round_robin() {
    assert!(matches!(IpSelectAlgorithm::default(), IpSelectAlgorithm::RoundRobin));
}

#[test]
fn bind_error_carries_the_offending_address() {
    // Exercises the error type itself; reqwest accepts any syntactically
    // valid local address at build time, so a real bind failure cannot be
    // produced without opening connections.
    let e = HttpClientError::BindFailed(IpAddress::V4(192, 168, 0, 9), "bind refused".to_string());
    match e {
        HttpClientError::BindFailed(a, cause) => {
            assert_eq!(a, IpAddress::V4(192, 168, 0, 9));
            assert_eq!(cause, "bind refused");
        }
        HttpClientError::ClientBuildFailed(_) => panic!("wrong variant"),
    }
}
