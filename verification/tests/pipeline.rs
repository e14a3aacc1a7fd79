use mini_balancer::chain::chain;
use mini_balancer::config::{App, Backend, Frontend};
use mini_balancer::endpoint::Endpoint;
use mini_balancer::error::PipeError;
use mini_balancer::param::param;
use mini_balancer::pipe::{Pipe, PipeBuilder};
use mini_balancer::proj::{fst, snd};
use mini_balancer::route::route;
use mini_balancer::selector::RoundRobin;
use mini_balancer::server::Server;
use mini_balancer::splice::splice;
use mini_balancer::stream::Duplex;
use mini_balancer::client::connect;
use mini_balancer::error::RoundRobinError;

fn localhost(port: u16) -> Endpoint {
    Endpoint::from_octets(127, 0, 0, 1, port)
}

#[test]
fn routing_then_connecting_yields_the_inbound_stream_and_a_backend_connection() {
    let backend = localhost(9000);
    let round_robin = RoundRobin::with_backends(vec![backend]);
    let mut pipeline = PipeBuilder::<_, Duplex>::with(route(round_robin))
        .chain_snd(connect())
        .build();

    let inbound = Duplex::sending(localhost(40000), b"hello".to_vec());
    let (kept, outbound) = pipeline.through(inbound).unwrap();

    assert_eq!(kept.peer, localhost(40000));
    assert_eq!(kept.outgoing, b"hello".to_vec());
    assert_eq!(outbound.peer, backend);
    assert!(outbound.outgoing.is_empty());
    assert!(!outbound.shut);
}

#[test]
fn a_second_pass_connects_to_a_different_backend() {
    let round_robin = RoundRobin::with_backends(vec![localhost(9000), localhost(9001)]);
    let mut pipeline = PipeBuilder::<_, Duplex>::with(route(round_robin))
        .chain_snd(connect())
        .build();

    let (_, first) = pipeline.through(Duplex::to(localhost(40000))).unwrap();
    let (_, second) = pipeline.through(Duplex::to(localhost(40001))).unwrap();

    assert_eq!(first.peer, localhost(9000));
    assert_eq!(second.peer, localhost(9001));
    assert_ne!(first.peer, second.peer);
}

#[test]
fn routing_against_an_empty_pool_abandons_the_connection() {
    let round_robin = RoundRobin::with_backends(Vec::new());
    let mut pipeline = PipeBuilder::<_, Duplex>::with(route(round_robin))
        .chain_snd(connect())
        .build();

    let outcome = pipeline.through(Duplex::to(localhost(40000)));

    assert!(matches!(outcome, Err(PipeError::Select(_))));
}

#[test]
fn two_connections_are_routed_to_the_two_backends_in_order() {
    let config = App {
        frontend: Frontend {
            local_address: localhost(8000),
            backends: vec![
                Backend { target_address: localhost(9000) },
                Backend { target_address: localhost(9001) },
            ],
        },
    };

    let pool = config.frontend.backend_pool();
    assert_eq!(pool, vec![localhost(9000), localhost(9001)]);

    let round_robin = RoundRobin::with_backends(pool);
    let middleware = PipeBuilder::<_, Duplex>::with(route(round_robin))
        .chain_snd(connect())
        .chain(splice())
        .build();

    let server = Server::bind_on(config.frontend.local_address);
    assert_eq!(server.local_address, localhost(8000));

    let first_client = Duplex::sending(localhost(40000), b"first payload".to_vec());
    let second_client = Duplex::sending(localhost(40001), b"second payload".to_vec());

    let outcomes = server.serve(middleware, vec![first_client, second_client]);
    assert_eq!(outcomes.len(), 2);

    let (in_a, out_a) = outcomes[0].as_ref().unwrap();
    assert_eq!(out_a.peer, localhost(9000));
    assert_eq!(out_a.delivered, b"first payload".to_vec());
    assert!(in_a.shut && out_a.shut);

    let (in_b, out_b) = outcomes[1].as_ref().unwrap();
    assert_eq!(out_b.peer, localhost(9001));
    assert_eq!(out_b.delivered, b"second payload".to_vec());
    assert!(in_b.shut && out_b.shut);
}

#[test]
fn a_failing_connection_does_not_end_the_serve_loop() {
    let round_robin = RoundRobin::with_backends(Vec::new());
    let middleware = PipeBuilder::<_, Duplex>::with(route(round_robin))
        .chain_snd(connect())
        .chain(splice())
        .build();

    let server = Server::bind_on(localhost(8000));
    let outcomes = server.serve(
        middleware,
        vec![Duplex::to(localhost(40000)), Duplex::to(localhost(40001))],
    );

    assert_eq!(outcomes.len(), 2);
    assert!(outcomes.iter().all(|o| o.is_err()));
}

#[test]
fn param_pairs_the_input_with_the_fixed_value() {
    let mut stage = param(7u16);

    let outcome: Result<(u8, u16), PipeError> = stage.through(3u8);

    assert_eq!(outcome, Ok((3, 7)));
}

#[test]
fn fst_applies_the_inner_stage_to_the_first_component_only() {
    let mut stage = fst(param(1u8));

    let outcome = stage.through((2u8, 3u8)).unwrap();

    assert_eq!(outcome, ((2, 1), 3));
}

#[test]
fn snd_applies_the_inner_stage_to_the_second_component_only() {
    let mut stage = snd(param(1u8));

    let outcome = stage.through((2u8, 3u8)).unwrap();

    assert_eq!(outcome, (2, (3, 1)));
}

#[test]
fn chained_stages_run_left_then_right() {
    let mut pipeline = chain(param(1u8), param(2u8));

    let outcome = pipeline.through(0u8).unwrap();

    assert_eq!(outcome, ((0, 1), 2));
}

#[test]
fn pipe_error_descriptions_name_the_failing_stage() {
    assert_eq!(
        PipeError::Select(RoundRobinError::NoBackend).describe(),
        "unable to select a backend"
    );
    assert_eq!(
        PipeError::Connect(localhost(9000)).describe(),
        "unable to open connection"
    );
    assert_eq!(PipeError::Splice.describe(), "unable to splice streams");
}
