use mini_balancer::endpoint::Endpoint;
use mini_balancer::error::RoundRobinError;
use mini_balancer::selector::{RoundRobin, Selector};

fn localhost(port: u16) -> Endpoint {
    Endpoint::from_octets(127, 0, 0, 1, port)
}

#[test]
fn select_returns_no_backend_when_an_empty_sequence_was_provided() {
    let backends = vec![];

    let mut round_robin = RoundRobin::with_backends(backends);

    let selected_backend = round_robin.select();

    assert_eq!(selected_backend, Err(RoundRobinError::NoBackend));
}

#[test]
fn select_returns_backends_cyclically() {
    let backend_a = localhost(70);
    let backend_b = localhost(80);
    let backend_c = localhost(90);

    let backends = vec![backend_a, backend_b, backend_c];

    let mut round_robin = RoundRobin::with_backends(backends);

    let mut selected_backends = Vec::new();
    for _ in 0..6 {
        selected_backends.push(round_robin.select().unwrap());
    }

    assert_eq!(
        selected_backends,
        vec![backend_a, backend_b, backend_c, backend_a, backend_b, backend_c]
    );
}

#[test]
fn every_selection_against_an_empty_pool_fails_and_returns() {
    let mut round_robin = RoundRobin::with_backends(Vec::new());

    for _ in 0..5 {
        assert_eq!(round_robin.select(), Err(RoundRobinError::NoBackend));
    }
}

#[test]
fn selection_number_k_is_pool_k_modulo_n() {
    let pool = vec![localhost(9000), localhost(9001)];
    let mut round_robin = RoundRobin::with_backends(pool.clone());

    for k in 0..7usize {
        assert_eq!(round_robin.select(), Ok(pool[k % pool.len()]));
    }
}

#[test]
fn seven_selections_are_the_pool_repeated_thrice_truncated_to_seven() {
    let pool = vec![localhost(70), localhost(80), localhost(90)];
    let mut round_robin = RoundRobin::with_backends(pool.clone());

    let mut handed_out = Vec::new();
    for _ in 0..7 {
        handed_out.push(round_robin.select().unwrap());
    }

    let mut cycled = Vec::new();
    for _ in 0..3 {
        cycled.extend_from_slice(&pool);
    }
    cycled.truncate(7);

    assert_eq!(handed_out, cycled);
}

#[test]
fn selector_error_descriptions_name_what_failed() {
    assert_eq!(
        RoundRobinError::NoBackend.describe(),
        "no backend configured"
    );
    assert_eq!(
        RoundRobinError::RequestBackendInfo.describe(),
        "unable to request backend info"
    );
    assert_eq!(
        RoundRobinError::ReceiveBackendInfo.describe(),
        "unable to receive backend info"
    );
}
