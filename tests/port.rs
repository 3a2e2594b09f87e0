use lightning_timer::{BuildMode, PortError, find_available_port};
use std::cell::Cell;

#[test]
fn test_find_available_port_debug() {
    let result = find_available_port(BuildMode::Development, |_| true);
    assert!(result.is_ok());
    assert_eq!(result.unwrap(), 1420);
}

#[test]
fn test_find_available_port_release() {
    let result = find_available_port(BuildMode::Production, |_| true);
    assert!(result.is_ok());
    let port = result.unwrap();
    assert!(port >= 20000 && port <= 65535);
}

#[test]
fn development_mode_never_probes() {
    let probes = Cell::new(0u32);
    let result = find_available_port(BuildMode::Development, |_| {
        probes.set(probes.get() + 1);
        false
    });
    assert_eq!(result, Ok(1420));
    assert_eq!(probes.get(), 0);
}

#[test]
fn production_mode_returns_first_free_port_in_order() {
    let last = Cell::new(0u16);
    let result = find_available_port(BuildMode::Production, |p| {
        assert!(p > last.get());
        last.set(p);
        p >= 20005
    });
    assert_eq!(result, Ok(20005));
}

#[test]
fn production_mode_can_reach_the_last_port() {
    assert_eq!(find_available_port(BuildMode::Production, |p| p == 65535), Ok(65535));
}

#[test]
fn production_mode_reports_exhaustion() {
    let probes = Cell::new(0u32);
    let result = find_available_port(BuildMode::Production, |_| {
        probes.set(probes.get() + 1);
        false
    });
    assert_eq!(result, Err(PortError::Exhausted));
    assert_eq!(probes.get(), 65535 - 20000 + 1);
    assert_eq!(
        PortError::Exhausted.message(),
        "No available port found in range 20000-65535"
    );
}
