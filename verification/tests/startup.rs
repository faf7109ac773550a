use c20web::config::Config;
use c20web::dispatcher::{dispatch, Dispatch, ListenerAction, ListenerEvent};

fn config() -> Config {
    Config::new(String::from("0.0.0.0:8080"), String::from("/srv/www"), 8, 4096).unwrap()
}

#[test]
fn config_keeps_its_values() {
    let config = config();
    assert_eq!(config.listen_addr(), "0.0.0.0:8080");
    assert_eq!(config.webroot(), "/srv/www");
    assert_eq!(config.threads_max(), 8);
    assert_eq!(config.request_max_bytes(), 4096);
}

#[test]
fn config_takes_the_smallest_and_the_largest_sizes() {
    let small = Config::new(String::new(), String::new(), 1, 1).unwrap();
    assert_eq!(small.threads_max(), 1);
    assert_eq!(small.request_max_bytes(), 1);
    let large = Config::new(String::new(), String::new(), usize::MAX, usize::MAX - 1).unwrap();
    assert_eq!(large.threads_max(), usize::MAX);
    assert_eq!(large.request_max_bytes(), usize::MAX - 1);
}

#[test]
fn config_refuses_sizes_that_cannot_be_used() {
    assert!(Config::new(String::from("a"), String::from("b"), 0, 4096).is_none());
    assert!(Config::new(String::from("a"), String::from("b"), 8, 0).is_none());
    assert!(Config::new(String::from("a"), String::from("b"), 8, usize::MAX).is_none());
    assert!(Config::new(String::from("a"), String::from("b"), 0, 0).is_none());
}

#[test]
fn the_listener_binds_then_listens() {
    let config = config();
    assert_eq!(
        dispatch(ListenerEvent::Started, &config),
        Dispatch { error: None, action: ListenerAction::Bind { address: String::from("0.0.0.0:8080") } }
    );
    assert_eq!(
        dispatch(ListenerEvent::Bound, &config),
        Dispatch { error: None, action: ListenerAction::Listen { workers: 8 } }
    );
}

#[test]
fn the_listener_gives_up_when_it_cannot_bind() {
    let event = ListenerEvent::BindFailed { reason: String::from("Address already in use (os error 98)") };
    assert_eq!(
        dispatch(event, &config()),
        Dispatch {
            error: Some(String::from(
                "Couldn't bind to addr 0.0.0.0:8080: Address already in use (os error 98)"
            )),
            action: ListenerAction::Exit { status: 1 },
        }
    );
}

#[test]
fn the_listener_serves_what_comes_in() {
    assert_eq!(
        dispatch(ListenerEvent::Accepted, &config()),
        Dispatch { error: None, action: ListenerAction::Serve }
    );
}

#[test]
fn the_listener_passes_over_what_it_cannot_accept() {
    let event = ListenerEvent::AcceptFailed { reason: String::from("Too many open files (os error 24)") };
    assert_eq!(
        dispatch(event, &config()),
        Dispatch {
            error: Some(String::from(
                "Listener gave us an invalid TCPStream!: Too many open files (os error 24)"
            )),
            action: ListenerAction::Accept,
        }
    );
}
