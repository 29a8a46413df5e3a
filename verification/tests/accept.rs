use tls_boringssl::config::ConfigBuilder;
use tls_boringssl::future::{AcceptAction, AcceptError, AcceptEvent, BoringSSLSSLAcceptorFuture};
use tls_boringssl::{BoringSSLAcceptor, BoringSSLConfig, DefaultAcceptor, HandshakeTimeout};

type Config = BoringSSLConfig<String>;
type Event = AcceptEvent<u32, String, String, String>;
type Action = AcceptAction<String, u32, String, String, String>;
type Future = BoringSSLSSLAcceptorFuture<String, String>;

fn config(context: &str) -> Config {
    let mut builder: ConfigBuilder<&'static str> = Config::try_from();
    builder.record(true);
    builder.build(String::from(context)).unwrap()
}

fn one_second() -> HandshakeTimeout {
    HandshakeTimeout::new(1, 0).unwrap()
}

fn poll(future: &mut Future, event: Event) -> Action {
    assert!(future.admits(&event));
    future.poll(event)
}

#[test]
fn new_acceptor_gives_ten_seconds() {
    let acceptor = BoringSSLAcceptor::new(config("context"));
    assert_eq!(acceptor.timeout(), HandshakeTimeout::default());
    assert_eq!(acceptor.timeout().as_secs(), 10);
    assert_eq!(*acceptor.inner(), DefaultAcceptor);
}

#[test]
fn handshake_timeout_replaces_the_default() {
    let acceptor = BoringSSLAcceptor::new(config("context")).handshake_timeout(one_second());
    assert_eq!(acceptor.timeout(), one_second());
    let mut future: Future = acceptor.accept();
    match poll(&mut future, Event::InnerAccepted(7, String::from("service"))) {
        Action::BeginHandshake { config, stream, handshake_timeout } => {
            assert_eq!(config.acceptor(), "context");
            assert_eq!(stream, 7);
            assert_eq!(handshake_timeout, one_second());
        }
        other => panic!("{:?}", other),
    }
}

#[test]
fn completed_handshake_returns_stream_and_service() {
    let shared = config("context");
    let mut future = Future::new(shared.clone(), one_second());
    assert!(future.is_inner_accepting());
    assert_eq!(poll(&mut future, Event::InnerPending), Action::Suspend);
    assert_eq!(poll(&mut future, Event::InnerPending), Action::Suspend);
    assert!(future.is_inner_accepting());
    assert_eq!(
        poll(&mut future, Event::InnerAccepted(3, String::from("service"))),
        Action::BeginHandshake { config: shared, stream: 3, handshake_timeout: one_second() }
    );
    assert!(!future.is_inner_accepting());
    assert_eq!(poll(&mut future, Event::HandshakePending), Action::Suspend);
    assert_eq!(
        poll(&mut future, Event::HandshakeCompleted(String::from("encrypted"))),
        Action::Resolve(Ok((String::from("encrypted"), String::from("service"))))
    );
}

#[test]
fn inner_accept_hands_on_to_the_handshake_without_suspending() {
    let mut future = Future::new(config("context"), one_second());
    let action = poll(&mut future, Event::InnerAccepted(3, String::from("service")));
    assert_ne!(action, Action::Suspend);
    assert!(matches!(action, Action::BeginHandshake { .. }));
}

#[test]
fn service_is_handed_out_once() {
    let mut future = Future::new(config("context"), one_second());
    poll(&mut future, Event::InnerAccepted(3, String::from("service")));
    assert!(future.admits(&Event::HandshakeCompleted(String::from("encrypted"))));
    poll(&mut future, Event::HandshakeCompleted(String::from("encrypted")));
    assert!(!future.admits(&Event::HandshakeCompleted(String::from("again"))));
}

#[test]
fn missed_deadline_is_a_timeout() {
    let mut future = Future::new(config("context"), one_second());
    assert_eq!(poll(&mut future, Event::InnerPending), Action::Suspend);
    match poll(&mut future, Event::InnerAccepted(3, String::from("service"))) {
        Action::BeginHandshake { handshake_timeout, .. } => {
            assert_eq!(handshake_timeout.as_secs(), 1);
            assert_eq!(handshake_timeout.subsec_nanos(), 0);
        }
        other => panic!("{:?}", other),
    }
    for _ in 0..5 {
        assert_eq!(poll(&mut future, Event::HandshakePending), Action::Suspend);
    }
    assert_eq!(
        poll(&mut future, Event::HandshakeTimedOut),
        Action::Resolve(Err(AcceptError::TimedOut))
    );
}

#[test]
fn inner_failure_is_passed_on_at_once() {
    let mut future = Future::new(config("context"), one_second());
    assert_eq!(poll(&mut future, Event::InnerPending), Action::Suspend);
    assert_eq!(
        poll(&mut future, Event::InnerFailed(String::from("connection reset"))),
        Action::Resolve(Err(AcceptError::Inner(String::from("connection reset"))))
    );
    // No handshake was begun: the inner accept is still the pending operation.
    assert!(future.is_inner_accepting());
}

#[test]
fn failed_handshake_carries_its_cause() {
    let mut future = Future::new(config("context"), one_second());
    poll(&mut future, Event::InnerAccepted(3, String::from("service")));
    assert_eq!(poll(&mut future, Event::HandshakePending), Action::Suspend);
    assert_eq!(
        poll(&mut future, Event::HandshakeFailed(String::from("unexpected message"))),
        Action::Resolve(Err(AcceptError::Handshake(String::from("unexpected message"))))
    );
}

#[test]
fn failed_session_carries_its_cause() {
    let mut future = Future::new(config("context"), one_second());
    poll(&mut future, Event::InnerAccepted(3, String::from("service")));
    assert_eq!(
        poll(&mut future, Event::SessionFailed(String::from("out of memory"))),
        Action::Resolve(Err(AcceptError::Session(String::from("out of memory"))))
    );
}

#[test]
fn failures_are_told_apart() {
    let timed_out: AcceptError<String> = AcceptError::TimedOut;
    assert_ne!(timed_out, AcceptError::Handshake(String::from("timed out")));
    assert_ne!(timed_out, AcceptError::Session(String::from("timed out")));
    assert_ne!(timed_out, AcceptError::Inner(String::from("timed out")));
    assert_ne!(
        AcceptError::<String>::Handshake(String::from("cause")),
        AcceptError::Session(String::from("cause"))
    );
}

#[test]
fn each_phase_admits_its_own_events_only() {
    let mut future = Future::new(config("context"), one_second());
    assert!(future.admits(&Event::InnerPending));
    assert!(future.admits(&Event::InnerAccepted(1, String::from("service"))));
    assert!(future.admits(&Event::InnerFailed(String::from("failure"))));
    assert!(!future.admits(&Event::SessionFailed(String::from("cause"))));
    assert!(!future.admits(&Event::HandshakePending));
    assert!(!future.admits(&Event::HandshakeCompleted(String::from("encrypted"))));
    assert!(!future.admits(&Event::HandshakeFailed(String::from("cause"))));
    assert!(!future.admits(&Event::HandshakeTimedOut));

    poll(&mut future, Event::InnerAccepted(1, String::from("service")));
    assert!(!future.admits(&Event::InnerPending));
    assert!(!future.admits(&Event::InnerAccepted(1, String::from("service"))));
    assert!(!future.admits(&Event::InnerFailed(String::from("failure"))));
    assert!(future.admits(&Event::SessionFailed(String::from("cause"))));
    assert!(future.admits(&Event::HandshakePending));
    assert!(future.admits(&Event::HandshakeCompleted(String::from("encrypted"))));
    assert!(future.admits(&Event::HandshakeFailed(String::from("cause"))));
    assert!(future.admits(&Event::HandshakeTimedOut));
}

#[test]
fn clones_accept_side_by_side() {
    let acceptor = BoringSSLAcceptor::new(config("context")).handshake_timeout(one_second());
    let clones = vec![acceptor.clone(), acceptor.clone(), acceptor.clone()];
    let mut futures: Vec<Future> = clones.iter().map(|clone| clone.accept()).collect();
    let mut handles = Vec::new();

    // The polls of the three accepts are interleaved.
    assert_eq!(poll(&mut futures[0], Event::InnerPending), Action::Suspend);
    for (i, future) in futures.iter_mut().enumerate().rev() {
        match poll(future, Event::InnerAccepted(i as u32, format!("service {}", i))) {
            Action::BeginHandshake { config, stream, handshake_timeout } => {
                assert_eq!(stream, i as u32);
                assert_eq!(handshake_timeout, one_second());
                handles.push(config);
            }
            other => panic!("{:?}", other),
        }
    }
    assert_eq!(poll(&mut futures[1], Event::HandshakePending), Action::Suspend);
    assert_eq!(
        poll(&mut futures[2], Event::HandshakeCompleted(String::from("encrypted 2"))),
        Action::Resolve(Ok((String::from("encrypted 2"), String::from("service 2"))))
    );
    assert_eq!(poll(&mut futures[0], Event::HandshakePending), Action::Suspend);
    assert_eq!(
        poll(&mut futures[0], Event::HandshakeCompleted(String::from("encrypted 0"))),
        Action::Resolve(Ok((String::from("encrypted 0"), String::from("service 0"))))
    );
    assert_eq!(
        poll(&mut futures[1], Event::HandshakeCompleted(String::from("encrypted 1"))),
        Action::Resolve(Ok((String::from("encrypted 1"), String::from("service 1"))))
    );

    // Every accept was handed the one context of the acceptor, not a copy of it.
    for handle in &handles {
        assert!(std::ptr::eq(handle.acceptor(), handles[0].acceptor()));
    }
}

#[test]
fn one_accept_timing_out_leaves_the_other_alone() {
    let acceptor = BoringSSLAcceptor::new(config("context")).handshake_timeout(one_second());
    let mut slow: Future = acceptor.accept();
    let mut fast: Future = acceptor.clone().accept();
    poll(&mut slow, Event::InnerAccepted(1, String::from("slow")));
    poll(&mut fast, Event::InnerAccepted(2, String::from("fast")));
    assert_eq!(
        poll(&mut slow, Event::HandshakeTimedOut),
        Action::Resolve(Err(AcceptError::TimedOut))
    );
    assert_eq!(
        poll(&mut fast, Event::HandshakeCompleted(String::from("encrypted"))),
        Action::Resolve(Ok((String::from("encrypted"), String::from("fast"))))
    );
}
