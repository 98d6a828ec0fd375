use bytes::Bytes;
use enterprise_http3::accepting::worker_notices;
use enterprise_http3::connection::{
    answer_request, begin_connection, handle_connection, ConnectionAction, ConnectionEvent,
    ConnectionState, PollOutcome,
};
use enterprise_http3::error::TquicError;
use enterprise_http3::handler::{tell, Http3EventHandler, Notice};
use enterprise_http3::message::{Http3Request, Http3Response};
use enterprise_http3::wire::request_headers;
use std::sync::Mutex;

struct Recorder {
    heard: Mutex<Vec<String>>,
}

impl Recorder {
    fn new() -> Recorder {
        Recorder { heard: Mutex::new(vec![]) }
    }

    fn hear(&self, what: &str) {
        self.heard.lock().unwrap().push(what.to_string());
    }
}

impl Http3EventHandler for Recorder {
    fn on_request(&self, request: Http3Request) -> Http3Response {
        self.hear(&request.path);
        Http3Response::new(418).text("short and stout")
    }

    fn on_connection_established(&self) {
        self.hear("established");
    }

    fn on_connection_closed(&self) {
        self.hear("closed");
    }

    fn on_error(&self, error: String) {
        self.hear(&error);
    }
}

fn polling() -> ConnectionState {
    let (state, action) = begin_connection();
    assert!(matches!(action, ConnectionAction::Notify(Notice::Established)));
    let (state, action) = handle_connection(state, ConnectionEvent::Done);
    assert!(matches!(action, ConnectionAction::CreateConfig));
    let (state, action) = handle_connection(state, ConnectionEvent::Tried(Ok(())));
    assert!(matches!(action, ConnectionAction::CreateHttp3));
    let (state, action) = handle_connection(state, ConnectionEvent::Tried(Ok(())));
    assert!(matches!(action, ConnectionAction::CheckClosed));
    let (state, action) = handle_connection(state, ConnectionEvent::Closed(false));
    assert!(matches!(action, ConnectionAction::Poll));
    state
}

fn error_text(action: ConnectionAction) -> String {
    match action {
        ConnectionAction::Finish(Err(e)) => e.to_string(),
        _ => panic!("not an error"),
    }
}

#[test]
fn a_handler_is_told() {
    let handler = Recorder::new();
    tell(&handler, Notice::Established);
    tell(&handler, Notice::Error("broken".to_string()));
    tell(&handler, Notice::Closed);
    handler.on_response(Http3Response::new(200));
    assert_eq!(*handler.heard.lock().unwrap(), vec!["established", "broken", "closed"]);
}

#[test]
fn a_handler_behind_a_trait_object_is_told() {
    let handler: Box<dyn Http3EventHandler> = Box::new(Recorder::new());
    tell(handler.as_ref(), Notice::Closed);
}

#[test]
fn a_failed_configuration_ends_the_connection() {
    let (state, _) = begin_connection();
    let (state, _) = handle_connection(state, ConnectionEvent::Done);
    let (state, action) =
        handle_connection(state, ConnectionEvent::Tried(Err("Oops".to_string())));
    assert!(matches!(state, ConnectionState::Finished));
    assert!(matches!(action, ConnectionAction::Finish(Err(TquicError::Http3(_)))));
    assert_eq!(error_text(action), "HTTP/3错误: 创建HTTP/3配置失败: Oops");
}

#[test]
fn a_failed_set_up_ends_the_connection() {
    let (state, _) = begin_connection();
    let (state, _) = handle_connection(state, ConnectionEvent::Done);
    let (state, _) = handle_connection(state, ConnectionEvent::Tried(Ok(())));
    let (state, action) =
        handle_connection(state, ConnectionEvent::Tried(Err("Oops".to_string())));
    assert!(matches!(state, ConnectionState::Finished));
    assert_eq!(error_text(action), "HTTP/3错误: 创建HTTP/3连接失败: Oops");
    let (state, action) = handle_connection(state, ConnectionEvent::Tried(Ok(())));
    assert!(matches!(state, ConnectionState::Finished));
    assert!(matches!(action, ConnectionAction::Wait));
}

#[test]
fn a_request_is_answered_on_its_stream() {
    let sent = Http3Request::new("GET".to_string(), "/tea".to_string());
    let polled = PollOutcome::Headers { stream_id: 8, headers: request_headers(&sent) };
    let (state, action) = handle_connection(polling(), ConnectionEvent::Polled(polled));
    let request = match action {
        ConnectionAction::HandleRequest(request) => request,
        _ => panic!("no request"),
    };
    assert_eq!(request.path, "/tea");
    let handler = Recorder::new();
    let (state, action) = answer_request(&handler, state, request);
    assert_eq!(*handler.heard.lock().unwrap(), vec!["/tea"]);
    match action {
        ConnectionAction::SendHeaders { stream_id, headers, fin } => {
            assert_eq!(stream_id, 8);
            assert_eq!(headers[0].name, b":status");
            assert_eq!(headers[0].value, b"418");
            assert_eq!(headers.len(), 2);
            assert!(!fin);
        }
        _ => panic!("no headers"),
    }
    let failed = ConnectionEvent::Tried(Err("stream limit".to_string()));
    let (state, action) = handle_connection(state, failed);
    match action {
        ConnectionAction::SendBody { stream_id, body, fin } => {
            assert_eq!(stream_id, 8);
            assert_eq!(body.as_ref(), b"short and stout");
            assert!(fin);
        }
        _ => panic!("no body"),
    }
    let (state, action) = handle_connection(state, ConnectionEvent::Tried(Ok(())));
    assert!(matches!(state, ConnectionState::Checking));
    assert!(matches!(action, ConnectionAction::CheckClosed));
}

#[test]
fn an_answer_without_body_is_its_headers() {
    let state = ConnectionState::Handling { stream_id: 4 };
    let (state, _) =
        handle_connection(state, ConnectionEvent::Answered(Http3Response::new(204)));
    let (state, action) = handle_connection(state, ConnectionEvent::Tried(Ok(())));
    assert!(matches!(state, ConnectionState::Checking));
    assert!(matches!(action, ConnectionAction::CheckClosed));
}

#[test]
fn an_empty_body_is_sent() {
    let state = ConnectionState::Handling { stream_id: 4 };
    let response = Http3Response::new(200).with_body(Bytes::new());
    let (state, _) = handle_connection(state, ConnectionEvent::Answered(response));
    let (_, action) = handle_connection(state, ConnectionEvent::Tried(Ok(())));
    assert!(matches!(action, ConnectionAction::SendBody { stream_id: 4, fin: true, .. }));
}

#[test]
fn other_events_are_passed_over() {
    let (state, action) =
        handle_connection(polling(), ConnectionEvent::Polled(PollOutcome::Other));
    assert!(matches!(state, ConnectionState::Checking));
    assert!(matches!(action, ConnectionAction::CheckClosed));
}

#[test]
fn a_moment_passes_when_there_is_nothing_to_do() {
    let (state, action) =
        handle_connection(polling(), ConnectionEvent::Polled(PollOutcome::Idle));
    assert!(matches!(action, ConnectionAction::Sleep(1)));
    let (_, action) = handle_connection(state, ConnectionEvent::Done);
    assert!(matches!(action, ConnectionAction::CheckClosed));
}

#[test]
fn a_fetching_error_is_reported_and_ends_the_connection() {
    let failed = PollOutcome::Failed("FrameError".to_string());
    let (state, action) = handle_connection(polling(), ConnectionEvent::Polled(failed));
    match action {
        ConnectionAction::Notify(Notice::Error(text)) => {
            assert_eq!(text, "HTTP/3事件处理错误: FrameError");
        }
        _ => panic!("no report"),
    }
    let (state, action) = handle_connection(state, ConnectionEvent::Done);
    assert!(matches!(action, ConnectionAction::Notify(Notice::Closed)));
    let (state, action) = handle_connection(state, ConnectionEvent::Done);
    assert!(matches!(action, ConnectionAction::Finish(Ok(()))));
    let (_, action) = handle_connection(state, ConnectionEvent::Done);
    assert!(matches!(action, ConnectionAction::Wait));
}

#[test]
fn a_closed_connection_is_told_and_over() {
    let (state, _) = handle_connection(polling(), ConnectionEvent::Polled(PollOutcome::Other));
    let (state, action) = handle_connection(state, ConnectionEvent::Closed(true));
    assert!(matches!(action, ConnectionAction::Notify(Notice::Closed)));
    let (state, action) = handle_connection(state, ConnectionEvent::Done);
    assert!(matches!(state, ConnectionState::Finished));
    assert!(matches!(action, ConnectionAction::Finish(Ok(()))));
}

#[test]
fn a_report_that_was_not_asked_for_changes_nothing() {
    let (state, action) = handle_connection(polling(), ConnectionEvent::Closed(true));
    assert!(matches!(state, ConnectionState::Polling));
    assert!(matches!(action, ConnectionAction::Wait));
}

#[test]
fn a_handler_hears_twice_of_both_ends() {
    let handler = Recorder::new();
    tell(&handler, Notice::Established);
    let (mut state, mut action) = begin_connection();
    let result = loop {
        let event = match action {
            ConnectionAction::Notify(notice) => {
                tell(&handler, notice);
                ConnectionEvent::Done
            }
            ConnectionAction::CreateConfig | ConnectionAction::CreateHttp3 => {
                ConnectionEvent::Tried(Ok(()))
            }
            ConnectionAction::CheckClosed => ConnectionEvent::Closed(true),
            ConnectionAction::Finish(result) => break result,
            _ => panic!("nothing else is asked for"),
        };
        (state, action) = handle_connection(state, event);
    };
    for notice in worker_notices(result) {
        tell(&handler, notice);
    }
    assert_eq!(
        *handler.heard.lock().unwrap(),
        vec!["established", "established", "closed", "closed"]
    );
}

#[test]
fn a_handler_hears_once_of_the_end_of_a_failed_connection() {
    let (state, _) = begin_connection();
    let (state, _) = handle_connection(state, ConnectionEvent::Done);
    let (_, action) = handle_connection(state, ConnectionEvent::Tried(Err("E".to_string())));
    let handler = Recorder::new();
    match action {
        ConnectionAction::Finish(result) => {
            for notice in worker_notices(result) {
                tell(&handler, notice);
            }
        }
        _ => panic!("not over"),
    }
    assert_eq!(
        *handler.heard.lock().unwrap(),
        vec!["HTTP/3错误: 创建HTTP/3配置失败: E", "closed"]
    );
}

fn trace(rounds: &[&str]) -> Vec<String> {
    let handler = Recorder::new();
    let mut shown = vec![];
    let mut rounds = rounds.iter();
    let (mut state, mut action) = begin_connection();
    loop {
        if let ConnectionAction::HandleRequest(request) = action {
            shown.push(format!("request {}", request.path));
            (state, action) = answer_request(&handler, state, request);
            continue;
        }
        let event = match action {
            ConnectionAction::Notify(notice) => {
                shown.push(format!("{:?}", notice));
                ConnectionEvent::Done
            }
            ConnectionAction::CreateConfig | ConnectionAction::CreateHttp3 => {
                ConnectionEvent::Tried(Ok(()))
            }
            ConnectionAction::CheckClosed => ConnectionEvent::Closed(rounds.len() == 0),
            ConnectionAction::Poll => ConnectionEvent::Polled(match *rounds.next().unwrap() {
                "idle" => PollOutcome::Idle,
                "other" => PollOutcome::Other,
                path => PollOutcome::Headers {
                    stream_id: 4,
                    headers: request_headers(&Http3Request::new(
                        "GET".to_string(),
                        path.to_string(),
                    )),
                },
            }),
            ConnectionAction::SendHeaders { stream_id, headers, fin } => {
                shown.push(format!("headers {} {:?} {}", stream_id, headers, fin));
                ConnectionEvent::Tried(Ok(()))
            }
            ConnectionAction::SendBody { stream_id, body, fin } => {
                shown.push(format!("body {} {:?} {}", stream_id, body, fin));
                ConnectionEvent::Tried(Err("full".to_string()))
            }
            ConnectionAction::Sleep(_) => ConnectionEvent::Done,
            ConnectionAction::Finish(result) => {
                shown.push(format!("{:?}", result));
                return shown;
            }
            _ => panic!("nothing else is asked for"),
        };
        (state, action) = handle_connection(state, event);
    }
}

#[test]
fn idle_rounds_leave_no_trace() {
    let plain = trace(&["/a", "/b"]);
    assert_eq!(plain.len(), 9);
    assert_eq!(plain, trace(&["idle", "/a", "other", "other", "idle", "/b", "idle"]));
    assert_ne!(plain, trace(&["/a", "idle"]));
}
