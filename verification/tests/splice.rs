use mini_balancer::endpoint::Endpoint;
use mini_balancer::pipe::Pipe;
use mini_balancer::splice::{relay, splice};
use mini_balancer::stream::Duplex;

fn localhost(port: u16) -> Endpoint {
    Endpoint::from_octets(127, 0, 0, 1, port)
}

#[test]
fn splice_relays_ping_and_pong_and_propagates_both_half_closes() {
    // Side A sends "ping" and then half-closes; side B answers "pong" and
    // then half-closes.
    let side_a = Duplex::sending(localhost(40000), b"ping".to_vec());
    let side_b = Duplex::sending(localhost(9000), b"pong".to_vec());

    let mut stage = splice();
    // The stage completes: `through` returns instead of waiting on an
    // already-finished direction.
    let (side_a, side_b) = stage.through((side_a, side_b)).unwrap();

    assert_eq!(side_b.delivered, b"ping".to_vec());
    assert_eq!(side_a.delivered, b"pong".to_vec());
    assert!(side_a.outgoing.is_empty());
    assert!(side_b.outgoing.is_empty());
    assert!(side_a.shut);
    assert!(side_b.shut);
}

#[test]
fn relay_moves_bytes_unmodified_in_both_directions() {
    let mut client = Duplex::sending(localhost(40000), vec![0, 1, 2, 255]);
    let mut backend = Duplex::sending(localhost(9000), vec![9, 8]);

    relay(&mut client, &mut backend);

    assert_eq!(backend.delivered, vec![0, 1, 2, 255]);
    assert_eq!(client.delivered, vec![9, 8]);
    assert_eq!(client.peer, localhost(40000));
    assert_eq!(backend.peer, localhost(9000));
}

#[test]
fn relay_completes_when_one_direction_has_nothing_to_send() {
    // A client that only sends and never gets a response body back must
    // not hang the other direction.
    let mut client = Duplex::sending(localhost(40000), b"only sending".to_vec());
    let mut backend = Duplex::to(localhost(9000));

    relay(&mut client, &mut backend);

    assert_eq!(backend.delivered, b"only sending".to_vec());
    assert!(client.delivered.is_empty());
    assert!(client.shut);
    assert!(backend.shut);
}
