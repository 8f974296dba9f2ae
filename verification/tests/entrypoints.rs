use rsl_tunnel::api::{ListenParam, Protocol};
use rsl_tunnel::config::{Config, CoreConfig, HttpConfig};
use rsl_tunnel::connection::Connection;
use rsl_tunnel::error::ErrorKind;
use rsl_tunnel::server::RSLServer;

fn config(allow_ports: &str) -> Config {
    Config {
        core: CoreConfig {
            auth_method: "token".to_string(),
            bind_addr: "127.0.0.1:7000".to_string(),
            allow_ports: allow_ports.to_string(),
        },
        http: HttpConfig {
            bind_addr: "127.0.0.1:8080".to_string(),
            default_domain: "example.com".to_string(),
        },
        tokens: vec![("alice".to_string(), "T1".to_string())],
    }
}

fn server(allow_ports: &str) -> RSLServer<&'static str, u32> {
    RSLServer::new(config(allow_ports), "tcp-listener", "http-listener")
}

fn http(subdomain: &str) -> ListenParam {
    ListenParam { protocol: 0, subdomain: subdomain.to_string() }
}

fn tcp() -> ListenParam {
    ListenParam { protocol: 1, subdomain: String::new() }
}

#[test]
fn http_entrypoint_allocation() {
    let mut s = server("9000-9002");
    assert_eq!(s.build_entrypoint(&http("foo")).unwrap(), "http://foo.example.com");
    let taken = s.build_entrypoint(&http("foo")).unwrap_err();
    assert_eq!(taken.kind, ErrorKind::AlreadyExists);
    assert_eq!(taken.message, "subdomain already exist");
    assert_eq!(s.build_entrypoint(&http("bar")).unwrap(), "http://bar.example.com");
}

#[test]
fn http_entrypoints_collide_without_regard_to_case() {
    let mut s = server("9000-9002");
    assert_eq!(s.build_entrypoint(&http("Foo")).unwrap(), "http://foo.example.com");
    let taken = s.build_entrypoint(&http("fOO")).unwrap_err();
    assert_eq!(taken.kind, ErrorKind::AlreadyExists);
}

#[test]
fn http_entrypoint_without_subdomain_gets_a_random_one() {
    let mut s = server("9000-9002");
    let key = s.build_entrypoint(&http("")).unwrap();
    let sub = key.strip_prefix("http://").unwrap().strip_suffix(".example.com").unwrap();
    assert_eq!(sub.chars().count(), 8);
    assert!(sub.chars().all(|c| c.is_ascii_digit() || c.is_ascii_lowercase()));
    let other = s.build_entrypoint(&http("")).unwrap();
    assert_ne!(key, other);
}

#[test]
fn build_http_host_does_not_take_the_key() {
    let s = server("9000-9002");
    assert_eq!(s.build_http_host("foo").unwrap(), "http://foo.example.com");
    assert_eq!(s.build_http_host("foo").unwrap(), "http://foo.example.com");
}

#[test]
fn tcp_port_pool() {
    let mut s = server("9000-9002");
    assert_eq!(s.build_entrypoint(&tcp()).unwrap(), "tcp://0.0.0.0:9000");
    assert_eq!(s.build_entrypoint(&tcp()).unwrap(), "tcp://0.0.0.0:9001");
    let none = s.build_entrypoint(&tcp()).unwrap_err();
    assert_eq!(none.kind, ErrorKind::Internal);
    assert_eq!(none.message, "none valid tcp port");
    let none = s.build_entrypoint(&tcp()).unwrap_err();
    assert_eq!(none.message, "none valid tcp port");
}

#[test]
fn tcp_request_ignores_the_subdomain() {
    let mut s = server("9000-9002");
    let lp = ListenParam { protocol: 1, subdomain: "foo".to_string() };
    assert_eq!(s.build_entrypoint(&lp).unwrap(), "tcp://0.0.0.0:9000");
    assert_eq!(s.build_entrypoint(&http("foo")).unwrap(), "http://foo.example.com");
}

#[test]
fn released_port_is_the_lowest_free_again() {
    let mut s = server("9000-9003");
    assert_eq!(s.build_entrypoint(&tcp()).unwrap(), "tcp://0.0.0.0:9000");
    assert_eq!(s.build_entrypoint(&tcp()).unwrap(), "tcp://0.0.0.0:9001");
    assert_eq!(s.build_entrypoint(&tcp()).unwrap(), "tcp://0.0.0.0:9002");
    s.release_entrypoint("tcp://0.0.0.0:9001");
    assert_eq!(s.build_tcp_addr().unwrap(), "tcp://0.0.0.0:9001");
    assert_eq!(s.build_entrypoint(&tcp()).unwrap(), "tcp://0.0.0.0:9001");
    s.release_entrypoint("tcp://0.0.0.0:9000");
    s.release_entrypoint("tcp://0.0.0.0:9002");
    assert_eq!(s.build_entrypoint(&tcp()).unwrap(), "tcp://0.0.0.0:9000");
    assert_eq!(s.build_entrypoint(&tcp()).unwrap(), "tcp://0.0.0.0:9002");
    assert!(s.build_entrypoint(&tcp()).is_err());
}

#[test]
fn releasing_a_key_that_is_not_live_changes_nothing() {
    let mut s = server("9000-9001");
    s.release_entrypoint("tcp://0.0.0.0:9000");
    assert_eq!(s.build_entrypoint(&tcp()).unwrap(), "tcp://0.0.0.0:9000");
    s.release_entrypoint("tcp://0.0.0.0:9001");
    assert!(s.build_entrypoint(&tcp()).is_err());
}

#[test]
fn empty_port_range_has_no_port() {
    for range in ["9000-9000", "9002-9000", "0-0"] {
        let mut s = server(range);
        let none = s.build_entrypoint(&tcp()).unwrap_err();
        assert_eq!(none.kind, ErrorKind::Internal);
        assert_eq!(none.message, "none valid tcp port");
    }
}

#[test]
fn upper_bound_of_the_range_is_not_given_out() {
    let mut s = server("65534-65535");
    assert_eq!(s.build_entrypoint(&tcp()).unwrap(), "tcp://0.0.0.0:65534");
    assert!(s.build_entrypoint(&tcp()).is_err());
}

#[test]
fn unreadable_port_range_is_an_internal_error() {
    for range in ["", "9000", "a-b", "9000-", "1-70000"] {
        let mut s = server(range);
        let bad = s.build_entrypoint(&tcp()).unwrap_err();
        assert_eq!(bad.kind, ErrorKind::Internal);
        assert_eq!(bad.message, "invalid port range");
        assert_eq!(s.build_entrypoint(&http("foo")).unwrap(), "http://foo.example.com");
    }
}

#[test]
fn unknown_protocol_is_refused() {
    let mut s = server("9000-9002");
    for protocol in [2, -1, 77] {
        let lp = ListenParam { protocol, subdomain: "foo".to_string() };
        let bad = s.build_entrypoint(&lp).unwrap_err();
        assert_eq!(bad.kind, ErrorKind::InvalidArgument);
        assert_eq!(bad.message, "unknown protocol");
        let bad = s.build_entrypoint_with(protocol, "foo").unwrap_err();
        assert_eq!(bad.message, "unknown protocol");
    }
    assert_eq!(s.build_entrypoint(&http("foo")).unwrap(), "http://foo.example.com");
}

#[test]
fn protocol_numbers() {
    assert_eq!(Protocol::from_i32(0), Some(Protocol::Http));
    assert_eq!(Protocol::from_i32(1), Some(Protocol::Tcp));
    assert_eq!(Protocol::from_i32(2), None);
    assert_eq!(Protocol::from_i32(-1), None);
    assert_eq!(Protocol::Http.as_i32(), 0);
    assert_eq!(Protocol::Tcp.as_i32(), 1);
}

#[test]
fn protocol_selects_the_listener() {
    let s = server("9000-9002");
    assert_eq!(*s.select_protocol_tx(Protocol::Http), "http-listener");
    assert_eq!(*s.select_protocol_tx(Protocol::Tcp), "tcp-listener");
}

#[test]
fn connections_are_filed_by_id() {
    let mut s = server("9000-9002");
    let id = "c1".to_string();
    assert!(!s.has_connection(&id));
    assert!(s.connection(&id).is_none());
    s.register_connection(Connection { id: "c1".to_string(), tx: 11 });
    s.register_connection(Connection { id: "c2".to_string(), tx: 22 });
    assert!(s.has_connection(&id));
    assert_eq!(s.connection(&id).unwrap().tx, 11);
    assert_eq!(s.connection(&"c2".to_string()).unwrap().tx, 22);
    s.register_connection(Connection { id: "c1".to_string(), tx: 33 });
    assert_eq!(s.connection(&id).unwrap().tx, 33);
    let taken = s.take_connection(&id).unwrap();
    assert_eq!(taken.id, "c1");
    assert_eq!(taken.tx, 33);
    assert!(s.take_connection(&id).is_none());
    assert!(!s.has_connection(&id));
    assert_eq!(s.connection(&"c2".to_string()).unwrap().tx, 22);
}
