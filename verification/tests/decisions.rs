use fluxus::data::{reported_port, AuthorizationBackend, ErrorCode, Protocol, Rights};
use fluxus::error::{ChanSendError, FlowProcessError, NonCriticalError};
use fluxus::protocols::galaxy::{connection, events};
use fluxus::protocols::http::service::{reply_for_lookup, split_path, HttpDiscoveryMethod, HttpProxyService, RouteReply};
use fluxus::server::control::connection as control;
use fluxus::server::flow::connection::{accepts_compressed_length, ChunkedForward};
use fluxus::server::slave::handler::{is_reclaimable, take_read, SlaveCompression};
use fluxus::tcp::command::should_compress;
use fluxus::tcp::network::{accepts_forward_length, decide_server_request, delivery, expect, ServerRequest};
use fluxus::tcp::proxy::{notifies_disconnected, ClientExit};
use fluxus::utils::compiler::{likely, unlikely};
use fluxus::utils::proxy_getter;
use fluxus::utils::proxy_shortcuts::{self, treat_send_result};
use fluxus::utils::shortcuts::{assert_bound, convert_io};

fn rights(create_tcp: bool, select_tcp_port: bool) -> Rights {
    Rights {
        create_tcp,
        select_tcp_port,
        create_udp: false,
        select_udp_port: false,
        create_http: false,
        select_http_port: false,
    }
}

#[test]
fn compiler_hints_are_identity() {
    assert!(likely(true));
    assert!(!likely(false));
    assert!(unlikely(true));
    assert!(!unlikely(false));
}

#[test]
fn proxy_getters() {
    let mut some = Some(3u8);
    *proxy_getter::require_proxy(&mut some).unwrap() = 4;
    assert_eq!(some, Some(4));
    let mut none: Option<u8> = None;
    assert!(matches!(proxy_getter::require_proxy(&mut none), Err(NonCriticalError::NoServerWasCreated)));
    assert!(matches!(proxy_shortcuts::require_proxy(&mut none), Err(NonCriticalError::NoServer)));
    *proxy_shortcuts::require_proxy(&mut some).unwrap() += 1;
    assert_eq!(some, Some(5));
}

#[test]
fn send_results() {
    assert!(treat_send_result::<()>(Ok(())).is_ok());
    assert!(matches!(treat_send_result(Err("gone")), Err(NonCriticalError::ClientDoesNotExists)));
}

#[test]
fn io_conversions() {
    let ok: std::io::Result<u8> = Ok(1);
    assert_eq!(convert_io(ok, |_| NonCriticalError::WrongPassword).unwrap(), 1);
    let err: std::io::Result<u8> = Err(std::io::Error::new(std::io::ErrorKind::AddrInUse, "busy"));
    assert!(matches!(convert_io(err, |_| NonCriticalError::WrongPassword), Err(NonCriticalError::WrongPassword)));
    let err: std::io::Result<u8> = Err(std::io::Error::new(std::io::ErrorKind::AddrInUse, "busy"));
    match assert_bound(8080, Protocol::Tcp, err) {
        Err(NonCriticalError::FailedToBindAddress { error, port: 8080, protocol: Protocol::Tcp }) => {
            assert_eq!(error.kind(), std::io::ErrorKind::AddrInUse)
        }
        other => panic!("unexpected {other:?}"),
    }
    assert!(expect("disconnect", Ok::<(), ()>(())).is_ok());
}

#[test]
fn reported_ports() {
    assert_eq!(reported_port(0, 40000), Some(40000));
    assert_eq!(reported_port(0, 0), None);
    assert_eq!(reported_port(8080, 8080), None);
}

#[test]
fn control_create_tcp_rights() {
    assert!(control::check_create_tcp_server(rights(true, false), 0).is_ok());
    assert!(control::check_create_tcp_server(rights(true, true), 8080).is_ok());
    assert!(matches!(
        control::check_create_tcp_server(rights(false, true), 0),
        Err(NonCriticalError::AccessDenied("create tcp server"))
    ));
    assert!(matches!(
        control::check_create_tcp_server(rights(true, false), 8080),
        Err(NonCriticalError::AccessDenied("select tcp port"))
    ));
}

#[test]
fn control_password() {
    let configured = Some(String::from("secret"));
    assert!(control::authorize_password(&configured, b"secret").is_ok());
    assert!(matches!(control::authorize_password(&configured, b"Secret"), Err(NonCriticalError::WrongPassword)));
    assert!(matches!(
        control::authorize_password(&None, b"secret"),
        Err(NonCriticalError::Disabled("password authorization"))
    ));
    let replacement = Some(String::from("\u{FFFD}"));
    assert!(control::authorize_password(&replacement, &[0xff]).is_ok());
    assert!(control::handle_command(control::ControlCommand::Shutdown));
    assert!(!control::handle_command(control::ControlCommand::Connected));
    assert_eq!(control::announced_flow_buffer(4096), 4096);
    assert_eq!(control::announced_flow_buffer(70000), u16::MAX);
}

#[test]
fn galaxy_connection_decisions() {
    assert!(connection::check_create_server(rights(true, false), Protocol::Tcp).is_ok());
    assert!(matches!(
        connection::check_create_server(rights(false, false), Protocol::Tcp),
        Err(NonCriticalError::NotEnoughRightsForProtocol(Protocol::Tcp))
    ));
    let mut udp = rights(false, false);
    udp.create_udp = true;
    assert!(matches!(
        connection::check_create_server(udp, Protocol::Udp),
        Err(NonCriticalError::ProtocolIsUnavailable(Protocol::Udp))
    ));
    assert_eq!(connection::denied_skip_len(Protocol::Udp), 2);
    let backend = AuthorizationBackend::Password { password: String::from("pw") };
    assert!(connection::check_password(&backend, &String::from("pw")).is_ok());
    assert!(matches!(
        connection::check_password(&backend, &String::from("PW")),
        Err(NonCriticalError::IncorrectUniversalPassword)
    ));
    assert!(matches!(
        connection::check_password(&AuthorizationBackend::Database, &String::new()),
        Err(NonCriticalError::Unimplemented("authorize through database"))
    ));
    assert!(connection::accepts_forward_size(10, 10));
    assert!(!connection::accepts_forward_size(11, 10));
}

#[test]
fn galaxy_event_decisions() {
    let backend = AuthorizationBackend::Password { password: String::from("pw") };
    assert_eq!(events::password_reply(&backend, &String::from("pw")), None);
    assert_eq!(events::password_reply(&backend, &String::from("no")), Some(ErrorCode::AccessDenied));
    assert_eq!(events::password_reply(&AuthorizationBackend::Database, &String::new()), Some(ErrorCode::Unsupported));
    assert!(events::accepts_forward_length(9, 10));
    assert!(!events::accepts_forward_length(10, 10));
    assert_eq!(events::create_server_reply(rights(false, false), Protocol::Tcp, 0), None);
    assert_eq!(events::create_server_reply(rights(false, false), Protocol::Tcp, 1), Some(ErrorCode::AccessDenied));
    assert_eq!(events::create_server_reply(rights(true, true), Protocol::Http, 0), Some(ErrorCode::Unimplemented));
}

#[test]
fn tcp_network_decisions() {
    assert!(accepts_forward_length(10, 10));
    assert!(!accepts_forward_length(11, 10));
    assert_eq!(decide_server_request(rights(false, true), Protocol::Tcp, 0), ServerRequest::DenyCreate);
    assert_eq!(decide_server_request(rights(true, false), Protocol::Tcp, 80), ServerRequest::DenySelectPort);
    assert_eq!(decide_server_request(rights(true, false), Protocol::Tcp, 0), ServerRequest::BindTcp);
    let mut udp = rights(false, false);
    udp.create_udp = true;
    assert_eq!(decide_server_request(udp, Protocol::Udp, 0), ServerRequest::Unimplemented);
    assert_eq!(delivery(None), (false, Some(ErrorCode::ServerWasNotCreated)));
    assert_eq!(delivery(Some(Ok(()))), (true, None));
    assert_eq!(delivery(Some(Err(ChanSendError::ChannelIsClosed))), (false, None));
    assert_eq!(delivery(Some(Err(ChanSendError::IdDoesNotExists))), (false, Some(ErrorCode::ClientDoesNotExists)));
    assert!(should_compress(100, None));
    assert!(should_compress(100, Some(100)));
    assert!(!should_compress(99, Some(100)));
    assert!(!should_compress(65536 + 10, Some(100)));
    assert!(notifies_disconnected(ClientExit::DisconnectRequested));
    assert!(!notifies_disconnected(ClientExit::ReadEnded));
}

#[test]
fn slave_compression_turns_off_after_failures() {
    let mut state = SlaveCompression::new(true);
    for _ in 0..32 {
        let plan = state.plan(1000, 64);
        assert!(plan.attempt_compression);
        assert!(!plan.turn_off);
        assert!(!state.record(&plan, false));
    }
    assert_eq!(state.uncompressed_num, 32);
    let plan = state.plan(1000, 64);
    assert!(plan.turn_off);
    assert!(plan.attempt_compression);
    assert!(state.record(&plan, true));
    assert!(!state.enabled);
    assert!(!state.tracing);
    let plan = state.plan(1000, 64);
    assert!(!plan.attempt_compression);
    assert!(!state.record(&plan, true));
}

#[test]
fn slave_compression_stays_on_when_successful() {
    let mut state = SlaveCompression::new(true);
    for i in 0..40 {
        let plan = state.plan(1000, 64);
        state.record(&plan, i % 2 == 0);
    }
    assert!(state.enabled);
    assert!(!state.tracing);
    let short = state.plan(10, 64);
    assert!(!short.attempt_compression);
    let before = (state.compressed_num, state.uncompressed_num);
    state.record(&short, true);
    assert_eq!((state.compressed_num, state.uncompressed_num), before);
    let off = SlaveCompression::new(false);
    assert!(!off.plan(1000, 1).attempt_compression);
}

#[test]
fn slave_buffers() {
    assert!(is_reclaimable(256));
    assert!(!is_reclaimable(255));
    assert_eq!(take_read(Some(vec![1, 2, 3, 4]), 2, &[9, 9, 9]), vec![1, 2]);
    assert_eq!(take_read(None, 2, &[9, 8, 7]), vec![9, 8]);
}

#[test]
fn flow_chunked_forward() {
    assert!(accepts_compressed_length(9, 10));
    assert!(!accepts_compressed_length(10, 10));
    let mut fwd = ChunkedForward::new(1000, 200);
    assert_eq!(fwd.unbuffered, 800);
    assert_eq!(fwd.next_read_len(512), 512);
    assert_eq!(fwd.advance(0), Err(FlowProcessError::DisconnectedDuringForward));
    assert_eq!(fwd.advance(500), Ok(()));
    assert!(!fwd.is_done());
    assert_eq!(fwd.advance(300), Ok(()));
    assert!(fwd.is_done());
    assert_eq!(ChunkedForward::new(100, 0).next_read_len(512), 100);
}

#[test]
fn http_service_routing() {
    assert_eq!(split_path(b"/ep/a/b"), Some((&b"ep"[..], &b"a/b"[..])));
    assert_eq!(split_path(b"/ep"), Some((&b"ep"[..], &b""[..])));
    assert_eq!(split_path(b"ep"), None);
    assert_eq!(reply_for_lookup(true), RouteReply::Found);
    let nf = reply_for_lookup(false);
    assert_eq!((nf.status(), nf.body(), nf.resets()), (404, "Endpoint not found", true));
    assert_eq!((RouteReply::InvalidPath.status(), RouteReply::InvalidPath.body()), (400, "Invalid path"));
    let mut svc = HttpProxyService::new(HttpDiscoveryMethod::Path);
    svc.id = Some(3);
    svc.begin_request(false);
    assert_eq!(svc.id, Some(3));
    svc.begin_request(true);
    assert_eq!(svc.id, None);
}
