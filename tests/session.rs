use rustbus::connection::{ConnectionParams, TcpParams};
use rustbus::modbus::{Request, Response};
use rustbus::session::{
    advance, begin, call_outcome, connect_outcome, Commands, Step, Target, WorkerEvent,
    WorkerState,
};

// The loop's three opaque values, as plain stand-ins: sender, receiver, handle.
type Tx = &'static str;
type Rx = u32;
type Ctx = u64;

fn localhost() -> ConnectionParams {
    ConnectionParams::Tcp(TcpParams::new([127, 0, 0, 1], 502, 1))
}

/// One pass of the loop, with canned transport outcomes.
fn pass(
    state: WorkerState<Rx, Ctx>,
    received: Option<Commands>,
    opened: Result<Ctx, String>,
    replied: Result<Response, String>,
) -> (Option<WorkerEvent<Tx>>, WorkerState<Rx, Ctx>) {
    match advance::<Tx, Rx, Ctx>(state, received) {
        Step::OpenChannel => begin("sender", 7),
        Step::Emit(ev, next) => (ev, next),
        Step::Open(rx, _params) => connect_outcome(rx, opened),
        Step::Execute(rx, ctx, target, req) => call_outcome(rx, ctx, target, req, replied),
    }
}

fn error_text(ev: &Option<WorkerEvent<Tx>>) -> Option<String> {
    match ev {
        Some(WorkerEvent::Error(m)) => Some(m.clone()),
        _ => None,
    }
}

#[test]
fn first_step_hands_out_the_sender() {
    let (ev, next) = pass(WorkerState::Disconnected, None, Ok(0), Ok(Response::ReadCoils(vec![])));
    assert!(matches!(ev, Some(WorkerEvent::WorkerHandle("sender"))));
    assert!(matches!(next, WorkerState::Ready(7)));
}

#[test]
fn failed_connect_reports_error_and_stays_ready() {
    let refused = Err("Connection refused (os error 111)".to_string());
    let (ev, next) = pass(
        WorkerState::Ready(3),
        Some(Commands::Connect(localhost())),
        refused,
        Ok(Response::ReadCoils(vec![])),
    );
    assert_eq!(error_text(&ev), Some("Connection refused (os error 111)".to_string()));
    assert!(matches!(next, WorkerState::Ready(3)));
}

#[test]
fn failed_connect_then_retry_succeeds() {
    let any = || Ok(Response::ReadCoils(vec![]));
    let (ev, s) = pass(WorkerState::Ready(3), Some(Commands::Connect(localhost())), Err("timed out".to_string()), any());
    assert_eq!(error_text(&ev), Some("timed out".to_string()));
    let (ev, s) = pass(s, Some(Commands::Connect(localhost())), Ok(99), any());
    assert!(matches!(ev, Some(WorkerEvent::Connected)));
    assert!(matches!(s, WorkerState::Connected(3, 99)));
}

#[test]
fn device_read_emits_device_response() {
    let req = Request::ReadHoldingRegisters(10, 1);
    let (ev, next) = pass(
        WorkerState::Connected(1, 2),
        Some(Commands::DeviceCommand(req.clone())),
        Ok(0),
        Ok(Response::ReadHoldingRegisters(vec![42])),
    );
    match ev {
        Some(WorkerEvent::DeviceResponse(q, p)) => {
            assert_eq!(q, req);
            assert_eq!(p, Response::ReadHoldingRegisters(vec![42]));
        }
        other => panic!("unexpected event {:?}", other),
    }
    assert!(matches!(next, WorkerState::Connected(1, 2)));
}

#[test]
fn probe_request_emits_request_response_and_failure_keeps_connection() {
    let req = Request::WriteSingleRegister(5, 6);
    let (ev, next) = pass(
        WorkerState::Connected(1, 2),
        Some(Commands::RequestCommand(req.clone())),
        Ok(0),
        Ok(Response::WriteSingleRegister(5, 6)),
    );
    assert!(matches!(ev, Some(WorkerEvent::RequestResponse(_, Response::WriteSingleRegister(5, 6)))));
    let (ev, next) = pass(next, Some(Commands::RequestCommand(req)), Ok(0), Err("Timeout".to_string()));
    assert_eq!(error_text(&ev), Some("Timeout".to_string()));
    assert!(matches!(next, WorkerState::Connected(1, 2)));
}

#[test]
fn call_outcome_routes_by_target() {
    let (ev, _) = call_outcome::<Tx, Rx, Ctx>(1, 2, Target::Device, Request::ReadCoils(0, 1), Ok(Response::ReadCoils(vec![true])));
    assert!(matches!(ev, Some(WorkerEvent::DeviceResponse(..))));
    let (ev, _) = call_outcome::<Tx, Rx, Ctx>(1, 2, Target::Probe, Request::ReadCoils(0, 1), Ok(Response::ReadCoils(vec![true])));
    assert!(matches!(ev, Some(WorkerEvent::RequestResponse(..))));
}

#[test]
fn connect_while_connected_halts_for_good() {
    let any = || Ok(Response::ReadCoils(vec![]));
    let (ev, s) = pass(WorkerState::Connected(1, 2), Some(Commands::Connect(localhost())), Ok(5), any());
    assert_eq!(error_text(&ev), Some("Invalid Command".to_string()));
    assert!(matches!(s, WorkerState::Error));
    let mut s = s;
    let inputs = vec![
        None,
        Some(Commands::Nothing),
        Some(Commands::Disconnect),
        Some(Commands::Connect(localhost())),
        Some(Commands::DeviceCommand(Request::ReadCoils(0, 1))),
    ];
    for received in inputs {
        let (ev, next) = pass(s, received, Ok(5), any());
        assert_eq!(error_text(&ev), Some("error".to_string()));
        assert!(matches!(next, WorkerState::Error));
        s = next;
    }
}

#[test]
fn ready_ignores_other_commands_and_closed_channel() {
    let any = || Ok(Response::ReadCoils(vec![]));
    for received in [None, Some(Commands::Nothing), Some(Commands::Disconnect), Some(Commands::DeviceCommand(Request::ReadCoils(0, 1)))] {
        let (ev, next) = pass(WorkerState::Ready(4), received, Ok(1), any());
        assert!(matches!(ev, Some(WorkerEvent::Idle)));
        assert!(matches!(next, WorkerState::Ready(4)));
    }
}

#[test]
fn connected_noop_disconnect_and_closed_channel() {
    let any = || Ok(Response::ReadCoils(vec![]));
    let (ev, s) = pass(WorkerState::Connected(4, 5), Some(Commands::Nothing), Ok(1), any());
    assert!(ev.is_none());
    assert!(matches!(s, WorkerState::Connected(4, 5)));
    let (ev, s) = pass(s, None, Ok(1), any());
    assert!(matches!(ev, Some(WorkerEvent::Idle)));
    let (ev, s) = pass(s, Some(Commands::Disconnect), Ok(1), any());
    assert!(matches!(ev, Some(WorkerEvent::Disconnected)));
    assert!(matches!(s, WorkerState::Ready(4)));
}

#[test]
fn events_follow_commands_one_to_one() {
    let commands = vec![
        Some(Commands::DeviceCommand(Request::ReadCoils(0, 1))),
        Some(Commands::Connect(localhost())),
        Some(Commands::Nothing),
        Some(Commands::DeviceCommand(Request::ReadCoils(3, 1))),
        Some(Commands::Nothing),
        Some(Commands::RequestCommand(Request::ReadInputRegisters(4, 1))),
        Some(Commands::Disconnect),
        None,
    ];
    let mut s: WorkerState<Rx, Ctx> = WorkerState::Ready(1);
    let mut kinds = Vec::new();
    for received in commands {
        let (ev, next) = pass(s, received, Ok(8), Ok(Response::ReadCoils(vec![true])));
        if let Some(e) = ev {
            kinds.push(match e {
                WorkerEvent::Idle => "idle",
                WorkerEvent::Connected => "connected",
                WorkerEvent::DeviceResponse(Request::ReadCoils(3, 1), _) => "device",
                WorkerEvent::RequestResponse(Request::ReadInputRegisters(4, 1), _) => "request",
                WorkerEvent::Disconnected => "disconnected",
                _ => "other",
            });
        }
        s = next;
    }
    assert_eq!(kinds, vec!["idle", "connected", "device", "request", "disconnected", "idle"]);
}
