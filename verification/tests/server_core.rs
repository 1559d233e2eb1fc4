use std::cell::RefCell;
use std::path::PathBuf;
use std::rc::Rc;

use rls::actions::{get_root_path, InitFields, InitializedState, ServerState};
use rls::json::{JsonNum, JsonValue};
use rls::message::{ProtocolError, RawId};
use rls::server::{ActionHandlers, LsService, MessageReader, Output, ServerStateChange};

struct VecReader {
    msgs: Vec<String>,
    pos: usize,
}

impl VecReader {
    fn new(msgs: &[&str]) -> VecReader {
        VecReader { msgs: msgs.iter().map(|m| m.to_string()).collect(), pos: 0 }
    }
}

impl MessageReader for VecReader {
    fn read_message(&mut self) -> Option<String> {
        if self.pos < self.msgs.len() {
            let m = self.msgs[self.pos].clone();
            self.pos += 1;
            Some(m)
        } else {
            None
        }
    }
}

#[derive(Debug, Clone, PartialEq)]
enum Wire {
    Success(u64, String),
    Failure(RawId, ProtocolError),
}

#[derive(Clone)]
struct SharedOutput {
    log: Rc<RefCell<Vec<Wire>>>,
}

impl SharedOutput {
    fn new() -> SharedOutput {
        SharedOutput { log: Rc::new(RefCell::new(Vec::new())) }
    }
}

impl Output for SharedOutput {
    fn success(&mut self, id: u64, result: &JsonValue) {
        self.log.borrow_mut().push(Wire::Success(id, format!("{:?}", result)));
    }

    fn failure(&mut self, id: &RawId, error: &ProtocolError) {
        self.log.borrow_mut().push(Wire::Failure(id.dup(), *error));
    }
}

struct TestHandlers {
    counter: u64,
    requests: Vec<(u64, String)>,
    notifications: Vec<String>,
    fail_requests: bool,
}

impl TestHandlers {
    fn new() -> TestHandlers {
        TestHandlers { counter: 0, requests: Vec::new(), notifications: Vec::new(), fail_requests: false }
    }
}

impl ActionHandlers for TestHandlers {
    fn handle_notification(
        &mut self,
        method: &String,
        _params: JsonValue,
        _ctx: &ServerState,
    ) -> Result<(), ()> {
        self.notifications.push(method.clone());
        Ok(())
    }

    fn handle_request(
        &mut self,
        id: u64,
        method: &String,
        _params: JsonValue,
        _ctx: &InitializedState,
    ) -> Result<JsonValue, ()> {
        self.counter += 1;
        self.requests.push((id, method.clone()));
        if self.fail_requests {
            Err(())
        } else {
            Ok(JsonValue::Num(JsonNum::Uint(self.counter)))
        }
    }
}

const INIT: &str =
    r#"{"jsonrpc":"2.0","id":0,"method":"initialize","params":{"rootPath":"/work","capabilities":{}}}"#;
const SHUTDOWN: &str = r#"{"jsonrpc":"2.0","id":2,"method":"shutdown"}"#;
const EXIT: &str = r#"{"jsonrpc":"2.0","method":"exit"}"#;

fn run_stream(msgs: &[&str]) -> (Vec<Wire>, LsService<VecReader, SharedOutput, TestHandlers>) {
    let out = SharedOutput::new();
    let log = out.log.clone();
    let mut svc = LsService::new(VecReader::new(msgs), out, TestHandlers::new());
    svc.run();
    let wires = log.borrow().clone();
    (wires, svc)
}

fn null_debug() -> String {
    format!("{:?}", JsonValue::Null)
}

#[test]
fn initialize_answers_with_capabilities() {
    let (wires, svc) = run_stream(&[INIT, EXIT]);
    assert_eq!(wires.len(), 1);
    match &wires[0] {
        Wire::Success(id, payload) => {
            assert_eq!(*id, 0);
            assert!(payload.contains("capabilities"));
            assert!(payload.contains("hoverProvider"));
            assert!(payload.contains("rls.applySuggestion"));
        }
        other => panic!("expected the initialize response, got {:?}", other),
    }
    match &svc.ctx {
        ServerState::Initialized(st) => {
            assert_eq!(PathBuf::from(&st.root_path), PathBuf::from("/work"));
            assert_eq!(st.shut_down, false);
        }
        ServerState::Uninitialized => panic!("server did not initialize"),
    }
}

#[test]
fn initialize_prefers_root_uri() {
    let init = r#"{"id":0,"method":"initialize","params":{"rootPath":"/path/a","rootUri":"file:///path/b","capabilities":{}}}"#;
    let (_wires, svc) = run_stream(&[init, EXIT]);
    match &svc.ctx {
        ServerState::Initialized(st) => {
            assert_eq!(PathBuf::from(&st.root_path), PathBuf::from("/path/b"));
        }
        ServerState::Uninitialized => panic!("server did not initialize"),
    }
}

#[test]
fn reinitialize_gets_no_second_response() {
    let (wires, _svc) = run_stream(&[INIT, INIT, EXIT]);
    let successes = wires
        .iter()
        .filter(|w| matches!(w, Wire::Success(0, _)))
        .count();
    assert_eq!(successes, 1);
}

#[test]
fn nonblocking_request_answered_before_blocking_one() {
    let hover = r#"{"id":1,"method":"textDocument/hover","params":{}}"#;
    let (wires, svc) = run_stream(&[INIT, hover, SHUTDOWN, EXIT]);
    // The hover handler ran exactly once, at the drain, before the
    // shutdown response was written.
    assert_eq!(svc.handlers.requests, vec![(1, "textDocument/hover".to_string())]);
    assert_eq!(wires.len(), 3);
    assert_eq!(
        wires[1],
        Wire::Success(1, format!("{:?}", JsonValue::Num(JsonNum::Uint(1))))
    );
    assert_eq!(wires[2], Wire::Success(2, null_debug()));
    assert_eq!(svc.exit_code, Some(0));
}

#[test]
fn every_request_gets_exactly_one_response() {
    let a = r#"{"id":10,"method":"textDocument/definition","params":{}}"#;
    let b = r#"{"id":11,"method":"textDocument/references","params":{}}"#;
    let (wires, _svc) = run_stream(&[INIT, a, b, SHUTDOWN, EXIT]);
    let for_10 = wires.iter().filter(|w| matches!(w, Wire::Success(10, _))).count();
    let for_11 = wires.iter().filter(|w| matches!(w, Wire::Success(11, _))).count();
    assert_eq!(for_10, 1);
    assert_eq!(for_11, 1);
    // Dispatch order is kept by the drain.
    let pos_10 = wires.iter().position(|w| matches!(w, Wire::Success(10, _))).unwrap();
    let pos_11 = wires.iter().position(|w| matches!(w, Wire::Success(11, _))).unwrap();
    assert!(pos_10 < pos_11);
}

#[test]
fn failed_nonblocking_handler_is_contained() {
    let hover = r#"{"id":1,"method":"textDocument/hover","params":{}}"#;
    let out = SharedOutput::new();
    let log = out.log.clone();
    let mut handlers = TestHandlers::new();
    handlers.fail_requests = true;
    let mut svc = LsService::new(VecReader::new(&[INIT, hover, SHUTDOWN, EXIT]), out, handlers);
    svc.run();
    let wires = log.borrow().clone();
    // No response for the failed request, but the loop went on and the
    // shutdown request was still acknowledged.
    assert!(wires.iter().all(|w| !matches!(w, Wire::Success(1, _))));
    assert!(wires.iter().any(|w| matches!(w, Wire::Success(2, _))));
    assert_eq!(svc.exit_code, Some(0));
}

#[test]
fn notifications_never_get_responses() {
    let did_open = r#"{"method":"textDocument/didOpen","params":{}}"#;
    let cancel = r#"{"method":"$/cancelRequest","params":{}}"#;
    let (wires, svc) = run_stream(&[INIT, did_open, cancel, EXIT]);
    assert_eq!(wires.len(), 1);
    assert!(matches!(wires[0], Wire::Success(0, _)));
    // The cancel notification is the server's own no-op; only the business
    // notification reaches the handlers, and neither gets a response.
    assert_eq!(svc.handlers.notifications, vec!["textDocument/didOpen".to_string()]);
    assert_eq!(svc.exit_code, Some(1));
}

#[test]
fn shutdown_with_params_is_invalid() {
    let bad = r#"{"id":2,"method":"shutdown","params":{}}"#;
    let (wires, svc) = run_stream(&[INIT, bad, EXIT]);
    assert_eq!(wires.len(), 2);
    assert_eq!(wires[1], Wire::Failure(RawId::Num(2), ProtocolError::InvalidRequest));
    // The loop broke before the exit notification; no exit code was set,
    // and the server never entered shutdown mode.
    assert_eq!(svc.exit_code, None);
    match &svc.ctx {
        ServerState::Initialized(st) => assert!(!st.shut_down),
        ServerState::Uninitialized => panic!("server lost its state"),
    }
}

#[test]
fn exit_with_params_is_invalid() {
    let bad = r#"{"method":"exit","params":{}}"#;
    let (wires, svc) = run_stream(&[INIT, bad, EXIT]);
    assert_eq!(wires.len(), 2);
    assert_eq!(wires[1], Wire::Failure(RawId::Null, ProtocolError::InvalidRequest));
    assert_eq!(svc.exit_code, None);
}

#[test]
fn string_id_request_is_answered_under_its_number() {
    let req = r#"{"id":"42","method":"textDocument/hover","params":{}}"#;
    let (wires, _svc) = run_stream(&[INIT, req, SHUTDOWN, EXIT]);
    assert!(wires.iter().any(|w| matches!(w, Wire::Success(42, _))));
}

#[test]
fn unparseable_string_id_is_invalid_before_any_handler() {
    let req = r#"{"id":"abc","method":"textDocument/hover","params":{}}"#;
    let (wires, svc) = run_stream(&[INIT, req]);
    assert_eq!(svc.handlers.requests.len(), 0);
    assert_eq!(wires.len(), 2);
    assert_eq!(
        wires[1],
        Wire::Failure(RawId::Str("abc".to_string()), ProtocolError::InvalidRequest)
    );
}

#[test]
fn shutdown_twice_is_harmless() {
    let shutdown_again = r#"{"jsonrpc":"2.0","id":3,"method":"shutdown"}"#;
    let (wires, svc) = run_stream(&[INIT, SHUTDOWN, shutdown_again, EXIT]);
    // The first shutdown is acknowledged; the second arrives in shutdown
    // mode and is dropped without any response or error.
    assert!(wires.iter().any(|w| matches!(w, Wire::Success(2, _))));
    assert!(wires.iter().all(|w| !matches!(w, Wire::Success(3, _))));
    assert!(!wires.iter().any(|w| matches!(w, Wire::Failure(_, _))));
    match &svc.ctx {
        ServerState::Initialized(st) => assert!(st.shut_down),
        ServerState::Uninitialized => panic!("server lost its state"),
    }
    assert_eq!(svc.exit_code, Some(0));
}

#[test]
fn exit_code_is_one_without_shutdown() {
    let (_wires, svc) = run_stream(&[INIT, EXIT]);
    assert_eq!(svc.exit_code, Some(1));
}

#[test]
fn exit_code_is_zero_after_shutdown() {
    let (_wires, svc) = run_stream(&[INIT, SHUTDOWN, EXIT]);
    assert_eq!(svc.exit_code, Some(0));
}

#[test]
fn after_shutdown_requests_are_dropped_silently() {
    let hover = r#"{"id":7,"method":"textDocument/hover","params":{}}"#;
    let (wires, svc) = run_stream(&[INIT, SHUTDOWN, hover, EXIT]);
    // No response, no failure, and the handler never ran.
    assert_eq!(svc.handlers.requests.len(), 0);
    assert!(wires.iter().all(|w| !matches!(w, Wire::Success(7, _))));
    assert!(!wires.iter().any(|w| matches!(w, Wire::Failure(_, _))));
    assert_eq!(svc.exit_code, Some(0));
}

#[test]
fn malformed_json_answers_parse_error_and_stops() {
    let hover = r#"{"id":1,"method":"textDocument/hover","params":{}}"#;
    let (wires, svc) = run_stream(&[INIT, "not json", hover]);
    assert_eq!(wires.len(), 2);
    assert_eq!(wires[1], Wire::Failure(RawId::Null, ProtocolError::ParseError));
    // The loop broke: the following request never ran.
    assert_eq!(svc.handlers.requests.len(), 0);
}

#[test]
fn bare_number_params_are_rejected_before_any_handler() {
    let bad = r#"{"id":1,"method":"textDocument/hover","params":5}"#;
    let (wires, svc) = run_stream(&[INIT, bad]);
    assert_eq!(svc.handlers.requests.len(), 0);
    // The wire failure carries the parse-error shape the reader emits for
    // any unusable envelope, under a null id, and the loop stops.
    assert_eq!(wires.len(), 2);
    assert_eq!(wires[1], Wire::Failure(RawId::Null, ProtocolError::ParseError));
}

#[test]
fn unknown_methods_are_skipped() {
    let unknown = r#"{"id":1,"method":"no/suchMethod","params":{}}"#;
    let (wires, svc) = run_stream(&[INIT, unknown, EXIT]);
    assert_eq!(wires.len(), 1);
    assert_eq!(svc.handlers.requests.len(), 0);
    assert_eq!(svc.exit_code, Some(1));
}

#[test]
fn replies_to_the_server_are_ignored() {
    let reply = r#"{"jsonrpc":"2.0","id":0,"result":{}}"#;
    let (wires, svc) = run_stream(&[INIT, reply, EXIT]);
    assert_eq!(wires.len(), 1);
    assert_eq!(svc.exit_code, Some(1));
}

#[test]
fn end_of_input_answers_parse_error() {
    let (wires, svc) = run_stream(&[]);
    assert_eq!(wires, vec![Wire::Failure(RawId::Null, ProtocolError::ParseError)]);
    assert_eq!(svc.exit_code, None);
}

#[test]
fn requests_before_initialize_are_invalid() {
    let hover = r#"{"id":1,"method":"textDocument/hover","params":{}}"#;
    let (wires, svc) = run_stream(&[hover]);
    assert_eq!(svc.handlers.requests.len(), 0);
    assert_eq!(wires[0], Wire::Failure(RawId::Num(1), ProtocolError::InvalidRequest));
}

#[test]
fn single_step_reports_state_changes() {
    let out = SharedOutput::new();
    let mut svc = LsService::new(VecReader::new(&[INIT]), out, TestHandlers::new());
    assert_eq!(svc.handle_message(), ServerStateChange::Continue);
    assert_eq!(svc.handle_message(), ServerStateChange::Break);
}

#[test]
fn test_use_root_uri() {
    let root_path = format!("/{}", "path/a");
    let root_uri = format!("/{}", "path/b");
    let params = InitFields {
        root_path: Some(root_path),
        root_uri: Some(url::Url::from_directory_path(PathBuf::from(&root_uri)).unwrap()),
        options: None,
        capabilities: JsonValue::Object(Vec::new()),
    };

    assert_eq!(
        PathBuf::from(get_root_path(&params).unwrap()),
        PathBuf::from(root_uri)
    );
}

#[test]
fn test_use_root_path() {
    let root_path = format!("/{}", "path/a");
    let params = InitFields {
        root_path: Some(root_path.clone()),
        root_uri: None,
        options: None,
        capabilities: JsonValue::Object(Vec::new()),
    };

    assert_eq!(
        PathBuf::from(get_root_path(&params).unwrap()),
        PathBuf::from(root_path)
    );
}

#[test]
fn exit_before_initialize_exits_with_failure_code() {
    let (wires, svc) = run_stream(&[EXIT]);
    assert!(wires.is_empty());
    assert_eq!(svc.exit_code, Some(1));
}
