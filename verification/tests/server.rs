use conduit::app::server::{get_app_host, get_app_port, DEFAULT_APP_PORT};

#[test]
fn port_when_env_set() {
    assert_eq!(get_app_port(Some("1234")), 1234);
}

#[test]
fn port_when_env_set_empty() {
    assert_eq!(get_app_port(Some("")), DEFAULT_APP_PORT);
}

#[test]
fn port_when_env_not_set() {
    assert_eq!(get_app_port(None), DEFAULT_APP_PORT);
    assert_eq!(DEFAULT_APP_PORT, 3000);
}

#[test]
fn port_that_is_no_port_gives_the_default() {
    assert_eq!(get_app_port(Some("65536")), 3000);
    assert_eq!(get_app_port(Some("-1")), 3000);
    assert_eq!(get_app_port(Some("http")), 3000);
    assert_eq!(get_app_port(Some(" 80")), 3000);
}

#[test]
fn port_at_the_limits() {
    assert_eq!(get_app_port(Some("0")), 0);
    assert_eq!(get_app_port(Some("65535")), 65535);
    assert_eq!(get_app_port(Some("+80")), 80);
}

#[test]
fn host_when_env_set() {
    assert_eq!(get_app_host(Some("0.0.0.0".to_owned())), "0.0.0.0");
}

#[test]
fn host_when_env_set_empty() {
    assert_eq!(get_app_host(Some(String::new())), "127.0.0.1");
}

#[test]
fn host_when_env_not_set() {
    assert_eq!(get_app_host(None), "127.0.0.1");
}
