use bytes::Bytes;
use enterprise_http3::accepting::{
    begin_accepting, continue_accepting, worker_notices, AcceptAction, AcceptEvent, AcceptState,
};
use enterprise_http3::certificate::{CertificateFiles, OutputFile};
use enterprise_http3::client::EnterpriseHttp3Client;
use enterprise_http3::config::{create_client_config, create_server_config, TlsRole};
use enterprise_http3::error::TquicError;
use enterprise_http3::handler::Notice;
use enterprise_http3::message::Http3Request;
use enterprise_http3::sending::{continue_sending, SendAction, SendEvent, SendState};
use enterprise_http3::server::EnterpriseHttp3Server;
use enterprise_http3::service::{EnterpriseHttp3, ServiceAction};

type Server = EnterpriseHttp3Server<u16>;
type Client = EnterpriseHttp3Client<u16>;

fn files() -> CertificateFiles {
    CertificateFiles {
        certificate: OutputFile { path: "c".to_string(), contents: vec![1] },
        key: OutputFile { path: "k".to_string(), contents: vec![2] },
    }
}

fn io_error() -> std::io::Error {
    std::io::Error::new(std::io::ErrorKind::Other, "disk full")
}

fn connected_client() -> Client {
    let mut client = Client::new(4433, Ok(())).unwrap();
    client.start();
    client.tried(Ok(()));
    client.tried(Ok(()));
    client.tried(Ok(()));
    client.told();
    client
}

fn request() -> Http3Request {
    Http3Request::new("GET".to_string(), "/".to_string())
}

fn config_text(result: Result<(SendState, SendAction), TquicError>) -> String {
    match result {
        Err(e) => e.to_string(),
        Ok(_) => panic!("accepted"),
    }
}

#[test]
fn error_texts_say_what_kind_of_error_it_is() {
    assert_eq!(TquicError::Tquic("t".to_string()).to_string(), "TQUIC错误: t");
    assert_eq!(TquicError::from(io_error()).to_string(), "IO错误: disk full");
    assert_eq!(TquicError::Config("c".to_string()).to_string(), "配置错误: c");
    assert_eq!(TquicError::Certificate("x".to_string()).to_string(), "证书错误: x");
    assert_eq!(TquicError::Connection("n".to_string()).to_string(), "连接错误: n");
    assert_eq!(TquicError::Http3("h".to_string()).to_string(), "HTTP/3错误: h");
}

#[test]
fn server_configuration() {
    let config = create_server_config();
    assert_eq!(config.limits.max_idle_timeout, 30_000);
    assert_eq!(config.limits.recv_udp_payload_size, 1350);
    assert_eq!(config.limits.initial_max_data, 10_000_000);
    assert_eq!(config.limits.initial_max_stream_data_bidi_local, 1_000_000);
    assert_eq!(config.limits.initial_max_stream_data_bidi_remote, 1_000_000);
    assert_eq!(config.limits.initial_max_streams_bidi, 100);
    assert_eq!(config.limits.initial_max_streams_uni, 100);
    assert_eq!(config.protocols, vec![b"h3".to_vec()]);
    assert!(!config.early_data);
    match config.tls {
        TlsRole::Server { certificate_path, key_path } => {
            assert_eq!(certificate_path, "temp_cert.der");
            assert_eq!(key_path, "temp_key.der");
        }
        _ => panic!("not a server"),
    }
}

#[test]
fn client_configuration_agrees_with_the_server() {
    let config = create_client_config();
    assert_eq!(config.limits, create_server_config().limits);
    assert_eq!(config.protocols, create_server_config().protocols);
    assert!(!config.early_data);
    assert!(matches!(config.tls, TlsRole::Client { verify: false }));
}

#[test]
fn a_server_starts_step_by_step() {
    let mut server = Server::new(8080, Ok(())).unwrap();
    assert!(!server.is_running());
    assert_eq!(server.local_addr(), Some(8080));
    match server.start_with(Ok(files())) {
        ServiceAction::WriteFile(file) => assert_eq!(file.path, "c"),
        _ => panic!("no certificate"),
    }
    match server.file_written(Ok(())) {
        ServiceAction::WriteFile(file) => assert_eq!(file.contents, vec![2]),
        _ => panic!("no key"),
    }
    match server.file_written(Ok(())) {
        ServiceAction::BuildConfig(config) => {
            assert!(matches!(config.tls, TlsRole::Server { .. }));
        }
        _ => panic!("no configuration"),
    }
    assert!(matches!(server.tried(Ok(())), ServiceAction::OpenEndpoint));
    assert!(matches!(server.tried(Ok(())), ServiceAction::Listen(8080)));
    assert!(matches!(server.tried(Ok(())), ServiceAction::AskLocalAddress));
    assert!(!server.is_running());
    assert!(matches!(server.tried(Ok(())), ServiceAction::Serve));
    assert!(server.is_running());
    assert!(matches!(server.tried(Ok(())), ServiceAction::Wait));
    assert!(server.stop().is_empty());
    assert!(!server.is_running());
}

#[test]
fn a_server_start_makes_a_certificate() {
    let mut server = Server::new(1, Err("unused".to_string())).unwrap();
    match server.start() {
        ServiceAction::WriteFile(file) => {
            assert_eq!(file.path, "temp_cert.der");
            assert_eq!(file.contents[0], 0x30);
        }
        _ => panic!("no certificate"),
    }
    match server.file_written(Ok(())) {
        ServiceAction::WriteFile(file) => {
            assert_eq!(file.path, "temp_key.der");
            assert_eq!(file.contents[0], 0x30);
        }
        _ => panic!("no key"),
    }
}

#[test]
fn a_server_that_cannot_make_a_certificate_gives_up() {
    let mut server = Server::new(1, Ok(())).unwrap();
    let failed = Err(TquicError::Certificate("no".to_string()));
    match server.start_with(failed) {
        ServiceAction::Finish(Err(e)) => assert_eq!(e.to_string(), "证书错误: no"),
        _ => panic!("no error"),
    }
    assert!(!server.is_running());
}

#[test]
fn a_server_that_cannot_write_gives_up() {
    for writes in 0..2 {
        let mut server = Server::new(1, Ok(())).unwrap();
        server.start_with(Ok(files()));
        for _ in 0..writes {
            server.file_written(Ok(()));
        }
        match server.file_written(Err(io_error())) {
            ServiceAction::Finish(Err(TquicError::Io(e))) => {
                assert_eq!(e.to_string(), "disk full");
            }
            _ => panic!("no error"),
        }
        assert!(matches!(server.file_written(Ok(())), ServiceAction::Wait));
        assert!(!server.is_running());
    }
}

#[test]
fn a_server_whose_endpoint_fails_gives_up() {
    for steps in 0..4 {
        let mut server = Server::new(1, Ok(())).unwrap();
        server.start_with(Ok(files()));
        server.file_written(Ok(()));
        server.file_written(Ok(()));
        for _ in 0..steps {
            server.tried(Ok(()));
        }
        match server.tried(Err("in use".to_string())) {
            ServiceAction::Finish(Err(e)) => assert_eq!(e.to_string(), "TQUIC错误: in use"),
            _ => panic!("no error"),
        }
        assert!(!server.is_running());
    }
}

#[test]
fn a_server_sends_no_requests() {
    let server = Server::new(1, Ok(())).unwrap();
    assert_eq!(config_text(server.send_request(request())), "配置错误: 服务器不支持发送请求");
}

#[test]
fn a_client_needs_an_endpoint() {
    let made = Client::new(1, Err("no socket".to_string()));
    assert_eq!(made.unwrap_err().to_string(), "TQUIC错误: no socket");
}

#[test]
fn a_client_starts_step_by_step() {
    let mut client = Client::new(4433, Ok(())).unwrap();
    assert!(!client.is_running());
    assert_eq!(client.local_addr(), None);
    match client.start() {
        ServiceAction::Connect { addr, server_name } => {
            assert_eq!(addr, 4433);
            assert_eq!(server_name, "localhost");
        }
        _ => panic!("no connection"),
    }
    assert!(matches!(client.told(), ServiceAction::Wait));
    assert!(matches!(client.tried(Ok(())), ServiceAction::AwaitConnection));
    assert!(matches!(client.tried(Ok(())), ServiceAction::AskPeerAddress));
    assert!(matches!(client.tried(Ok(())), ServiceAction::Notify(Notice::Established)));
    assert!(!client.is_running());
    assert!(matches!(client.told(), ServiceAction::Finish(Ok(()))));
    assert!(client.is_running());
}

#[test]
fn a_client_that_cannot_connect_gives_up() {
    for steps in 0..3 {
        let mut client = Client::new(1, Ok(())).unwrap();
        client.start();
        for _ in 0..steps {
            client.tried(Ok(()));
        }
        match client.tried(Err("refused".to_string())) {
            ServiceAction::Finish(Err(e)) => assert_eq!(e.to_string(), "TQUIC错误: refused"),
            _ => panic!("no error"),
        }
        assert!(!client.is_running());
        assert!(client.stop().is_empty());
    }
}

#[test]
fn a_client_is_stopped_once() {
    let mut client = connected_client();
    let actions = client.stop();
    assert_eq!(actions.len(), 2);
    assert!(matches!(actions[0], ServiceAction::Notify(Notice::Closed)));
    match &actions[1] {
        ServiceAction::CloseConnection { app, code, reason } => {
            assert!(!app);
            assert_eq!(*code, 0);
            assert_eq!(reason, b"client_shutdown");
        }
        _ => panic!("not closed"),
    }
    assert!(!client.is_running());
    assert!(client.stop().is_empty());
    assert_eq!(config_text(client.send_request(request())), "配置错误: 客户端未连接");
}

#[test]
fn a_client_that_never_connected_sends_nothing() {
    let client = Client::new(1, Ok(())).unwrap();
    assert_eq!(config_text(client.send_request(request())), "配置错误: 客户端未连接");
}

#[test]
fn a_request_without_body_ends_with_its_headers() {
    let (state, action) = connected_client().send_request(request()).unwrap();
    assert!(matches!(action, SendAction::CreateConfig));
    let (state, action) = continue_sending(state, SendEvent::Tried(Ok(())));
    assert!(matches!(action, SendAction::CreateHttp3));
    let (state, action) = continue_sending(state, SendEvent::Tried(Ok(())));
    assert!(matches!(action, SendAction::OpenStream));
    let (state, action) = continue_sending(state, SendEvent::StreamOpened(Ok(12)));
    match action {
        SendAction::SendHeaders { stream_id, headers, fin } => {
            assert_eq!(stream_id, 12);
            assert_eq!(headers.len(), 4);
            assert_eq!(headers[3].value, b"/");
            assert!(fin);
        }
        _ => panic!("no headers"),
    }
    let (state, action) = continue_sending(state, SendEvent::Tried(Ok(())));
    assert!(matches!(action, SendAction::Finish(Ok(()))));
    let (_, action) = continue_sending(state, SendEvent::Tried(Ok(())));
    assert!(matches!(action, SendAction::Wait));
}

#[test]
fn a_body_follows_the_headers_and_ends_the_stream() {
    let request = request().with_body(Bytes::from_static(b"data"));
    let (state, _) = connected_client().send_request(request).unwrap();
    let (state, _) = continue_sending(state, SendEvent::Tried(Ok(())));
    let (state, _) = continue_sending(state, SendEvent::Tried(Ok(())));
    let (state, action) = continue_sending(state, SendEvent::StreamOpened(Ok(0)));
    assert!(matches!(action, SendAction::SendHeaders { fin: false, .. }));
    let (state, action) = continue_sending(state, SendEvent::Tried(Ok(())));
    match action {
        SendAction::SendBody { stream_id, body, fin } => {
            assert_eq!(stream_id, 0);
            assert_eq!(body.as_ref(), b"data");
            assert!(fin);
        }
        _ => panic!("no body"),
    }
    let (_, action) = continue_sending(state, SendEvent::Tried(Ok(())));
    assert!(matches!(action, SendAction::Finish(Ok(()))));
}

#[test]
fn each_failure_of_a_sending_has_its_text() {
    let texts = [
        "HTTP/3错误: 创建HTTP/3配置失败: E",
        "HTTP/3错误: 创建HTTP/3连接失败: E",
        "HTTP/3错误: 创建流失败: E",
        "HTTP/3错误: 发送头部失败: E",
        "HTTP/3错误: 发送请求体失败: E",
    ];
    for (steps, text) in texts.iter().enumerate() {
        let request = request().with_body(Bytes::from_static(b"data"));
        let (mut state, _) = connected_client().send_request(request).unwrap();
        for step in 0..steps {
            let event = if step == 2 {
                SendEvent::StreamOpened(Ok(0))
            } else {
                SendEvent::Tried(Ok(()))
            };
            state = continue_sending(state, event).0;
        }
        let event = if steps == 2 {
            SendEvent::StreamOpened(Err("E".to_string()))
        } else {
            SendEvent::Tried(Err("E".to_string()))
        };
        let (state, action) = continue_sending(state, event);
        assert!(matches!(state, SendState::Finished));
        match action {
            SendAction::Finish(Err(e)) => assert_eq!(e.to_string(), *text),
            _ => panic!("no error"),
        }
    }
}

#[test]
fn connections_are_accepted_while_the_server_runs() {
    let (state, action) = begin_accepting();
    assert!(matches!(action, AcceptAction::TestRunning));
    let (state, action) = continue_accepting(state, AcceptEvent::Running(true));
    assert!(matches!(action, AcceptAction::Accept));
    let (state, action) = continue_accepting(state, AcceptEvent::Accepted(true));
    assert!(matches!(action, AcceptAction::AskPeerAddress));
    let (state, action) = continue_accepting(state, AcceptEvent::PeerKnown(true));
    assert!(matches!(action, AcceptAction::Notify(Notice::Established)));
    let (state, action) = continue_accepting(state, AcceptEvent::Done);
    assert!(matches!(action, AcceptAction::SpawnWorker));
    let (state, action) = continue_accepting(state, AcceptEvent::Done);
    assert!(matches!(action, AcceptAction::TestRunning));
    let (state, action) = continue_accepting(state, AcceptEvent::Running(false));
    assert!(matches!(state, AcceptState::Stopped));
    assert!(matches!(action, AcceptAction::Finish));
    let (_, action) = continue_accepting(state, AcceptEvent::Running(true));
    assert!(matches!(action, AcceptAction::Wait));
}

#[test]
fn a_connection_from_nowhere_is_passed_over() {
    let (state, action) = continue_accepting(AcceptState::Asking, AcceptEvent::PeerKnown(false));
    assert!(matches!(state, AcceptState::Testing));
    assert!(matches!(action, AcceptAction::TestRunning));
    let (state, action) = continue_accepting(AcceptState::Accepting, AcceptEvent::Accepted(false));
    assert!(matches!(state, AcceptState::Testing));
    assert!(matches!(action, AcceptAction::TestRunning));
}

#[test]
fn a_worker_ends_with_closed() {
    let notices = worker_notices(Ok(()));
    assert_eq!(notices.len(), 1);
    assert!(matches!(notices[0], Notice::Closed));
    let notices = worker_notices(Err(TquicError::Http3("bad".to_string())));
    assert_eq!(notices.len(), 2);
    match &notices[0] {
        Notice::Error(text) => assert_eq!(text, "HTTP/3错误: bad"),
        _ => panic!("no error"),
    }
    assert!(matches!(notices[1], Notice::Closed));
}
