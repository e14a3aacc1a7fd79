use mini_balancer::endpoint::Endpoint;
use mini_balancer::trace::Verbosity;

#[test]
fn verbosity_grows_one_step_per_switch_and_saturates() {
    assert_eq!(Verbosity::from(0u8), Verbosity::Minimal);
    assert_eq!(Verbosity::from(1u8), Verbosity::Informational);
    assert_eq!(Verbosity::from(2u8), Verbosity::Debugging);
    assert_eq!(Verbosity::from(3u8), Verbosity::Noisy);
    assert_eq!(Verbosity::from(255u8), Verbosity::Noisy);
}

#[test]
fn from_octets_packs_the_quad_big_endian() {
    let endpoint = Endpoint::from_octets(127, 0, 0, 1, 8000);

    assert_eq!(endpoint.ip, 0x7F00_0001);
    assert_eq!(endpoint.port, 8000);

    let broadcast = Endpoint::from_octets(255, 255, 255, 255, 1);
    assert_eq!(broadcast.ip, u32::MAX);
}
