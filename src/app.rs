//! The controlling actor's state: the session document (connection
//! parameters and register table), the request form, and what it knows of
//! the session; and its reaction to each message, user edits and session
//! events alike.

use vstd::prelude::*;
use crate::connection::ConnectionParams;
use crate::modbus::Request;
use crate::registers::{Register, Table, TableCommand, RegisterError, command_applied, reconcile_all};
use crate::request::{RequestParams, RequestType, RequestUpdate, request_update_applied};
use crate::session::{Commands, WorkerEvent};

verus! {

/// The page on show.
#[derive(Debug, Clone, Copy, PartialEq, Eq, Structural)]
pub enum AppState {
    HomePage,
    ControlPage,
}

impl Default for AppState {
    fn default() -> (r: Self)
        ensures
            r == AppState::HomePage,
    {
        AppState::HomePage
    }
}

/// The actor's state; `S` is the sender half of the command channel.
pub struct App<S> {
    pub state: AppState,
    pub connection: ConnectionParams,
    pub connected: bool,
    pub tx_handle: Option<S>,
    pub table: Table,
    pub config_file: Option<String>,
    pub request_params: RequestParams,
    pub is_error: bool,
    pub error_text: String,
}

/// A message to the actor.
pub enum Protocol<S> {
    Debug,
    ConnectionChanged(ConnectionParams),
    Connect(ConnectionParams),
    Disconnect,
    WorkerEvent(WorkerEvent<S>),
    TableCommand(TableCommand),
    ModbusRequest(Request),
    ExecuteRequest,
    RequestChanged(RequestParams),
    ReqChanged(Request),
    RequestUpdate(RequestUpdate),
    SaveFile,
    LoadFile,
    OpenFileDialog,
    SaveFileDialog,
    CloseModal,
    ApplyApp(App<S>),
    SaveFileWithPath(String),
    Nothing,
    Error(String),
}

/// The outside work a message asks of whoever runs the actor.
#[derive(Debug, Clone)]
pub enum Effect {
    Nothing,
    /// Submit the command to the session loop.
    Send(Commands),
    /// Store the session document.
    Save,
    /// Ask the user for a document to load.
    PickFileToOpen,
    /// Ask the user where to store the document.
    PickFileToSave,
}

/// A table edit that the table refuses: a delete out of range.
pub open spec fn rejects(tc: TableCommand, regs: Seq<Register>) -> bool {
    tc matches TableCommand::Delete(i) && i >= regs.len()
}

impl<S> App<S> {
    /// The command goes out where a channel to the session exists.
    pub open spec fn sends(self, cmd: Commands) -> Effect {
        if self.tx_handle is Some {
            Effect::Send(cmd)
        } else {
            Effect::Nothing
        }
    }

    /// What `update` does: `self` and `after` are the state around the call,
    /// `r` its result.
    pub open spec fn updated(self, msg: Protocol<S>, after: App<S>, r: Effect) -> bool {
        match msg {
            Protocol::ConnectionChanged(p) => after == (App { connection: p, ..self }) && r
                == Effect::Nothing,
            Protocol::Connect(p) => after == self && r == self.sends(Commands::Connect(p)),
            Protocol::TableCommand(tc) => {
                &&& r == Effect::Nothing
                &&& command_applied(
                    tc,
                    self.table.registers@,
                    after.table.registers@,
                    if rejects(tc, self.table.registers@) {
                        Err(RegisterError::IndexOutOfRange)
                    } else {
                        Ok(())
                    },
                )
                &&& if rejects(tc, self.table.registers@) {
                    &&& after == (App {
                        table: after.table,
                        is_error: true,
                        error_text: after.error_text,
                        ..self
                    })
                    &&& after.error_text@ == "Index out of range"@
                } else {
                    after == (App { table: after.table, ..self })
                }
            },
            Protocol::WorkerEvent(ev) => r == Effect::Nothing && match ev {
                WorkerEvent::WorkerHandle(tx) => after == (App { tx_handle: Some(tx), ..self }),
                WorkerEvent::DeviceResponse(q, p) => {
                    &&& after == (App { table: after.table, ..self })
                    &&& after.table.registers@ == reconcile_all(self.table.registers@, q, p)
                },
                WorkerEvent::RequestResponse(_, p) => after == (App {
                    request_params: (RequestParams { response: Some(p), ..self.request_params }),
                    ..self
                }),
                WorkerEvent::Error(e) => after == (App { is_error: true, error_text: e, ..self }),
                WorkerEvent::Connected => after == (App { connected: true, ..self }),
                _ => after == self,
            },
            Protocol::Disconnect => after == (App { connected: false, ..self }) && r == self.sends(
                Commands::Disconnect,
            ),
            Protocol::ModbusRequest(q) => after == self && r == self.sends(
                Commands::DeviceCommand(q),
            ),
            Protocol::ExecuteRequest => after == self && if self.tx_handle is Some {
                r matches Effect::Send(Commands::RequestCommand(q)) && self.request_params.request.same_as(q)
            } else {
                r == Effect::Nothing
            },
            Protocol::RequestChanged(p) => after == (App { request_params: p, ..self }) && r
                == Effect::Nothing,
            Protocol::ReqChanged(q) => after == (App {
                request_params: (RequestParams { request: q, ..self.request_params }),
                ..self
            }) && r == Effect::Nothing,
            Protocol::RequestUpdate(m) => {
                &&& after == (App { request_params: after.request_params, ..self })
                &&& request_update_applied(self.request_params, m, after.request_params)
                &&& r == Effect::Nothing
            },
            Protocol::SaveFile => after == self && r == Effect::Save,
            Protocol::CloseModal => after == (App { is_error: false, ..self }) && r
                == Effect::Nothing,
            Protocol::OpenFileDialog => after == self && r == Effect::PickFileToOpen,
            Protocol::SaveFileDialog => after == self && r == Effect::PickFileToSave,
            Protocol::SaveFileWithPath(f) => after == (App { config_file: Some(f), ..self }) && r
                == Effect::Save,
            Protocol::Error(e) => after == (App { is_error: true, error_text: e, ..self }) && r
                == Effect::Nothing,
            Protocol::ApplyApp(a) => after == (App {
                connection: a.connection,
                table: a.table,
                config_file: a.config_file,
                ..self
            }) && r == Effect::Nothing,
            _ => after == self && r == Effect::Nothing,
        }
    }

    /// The state before any document is loaded: home page, initial serial
    /// parameters, no session, an empty table, the default request form.
    pub fn new() -> (r: Self)
        ensures
            r.state == AppState::HomePage,
            r.connection matches ConnectionParams::Serial(p) && p.is_initial(),
            !r.connected,
            r.tx_handle is None,
            r.table.registers@.len() == 0,
            r.config_file is None,
            r.request_params.request == Request::ReadCoils(0, 0),
            r.request_params.request_type == RequestType::ReadCoils,
            r.request_params.response is None,
            r.request_params.poll_ms == 1000,
            !r.request_params.polling,
            !r.is_error,
            r.error_text@.len() == 0,
    {
        App {
            state: AppState::HomePage,
            connection: ConnectionParams::new(),
            connected: false,
            tx_handle: None,
            table: Table::default(),
            config_file: None,
            request_params: RequestParams::default(),
            is_error: false,
            error_text: String::new(),
        }
    }

    fn send_message(&self, cmd: Commands) -> (r: Effect)
        ensures
            r == self.sends(cmd),
    {
        match &self.tx_handle {
            Some(_) => Effect::Send(cmd),
            None => Effect::Nothing,
        }
    }

    /// Reacts to one message and says what outside work it asks for.
    pub fn update(&mut self, message: Protocol<S>) -> (r: Effect)
        ensures
            old(self).updated(message, *final(self), r),
    {
        match message {
            Protocol::ConnectionChanged(params) => {
                self.connection = params;
                Effect::Nothing
            },
            Protocol::Connect(params) => self.send_message(Commands::Connect(params)),
            Protocol::TableCommand(tc) => {
                match self.table.handle_commmand(tc) {
                    Ok(()) => {},
                    Err(_) => {
                        self.is_error = true;
                        self.error_text = String::from_str("Index out of range");
                    },
                }
                Effect::Nothing
            },
            Protocol::WorkerEvent(ev) => {
                match ev {
                    WorkerEvent::WorkerHandle(tx_handle) => {
                        self.tx_handle = Some(tx_handle);
                    },
                    WorkerEvent::DeviceResponse(req, res) => {
                        self.table.handle_response(req, res);
                    },
                    WorkerEvent::RequestResponse(_req, res) => {
                        self.request_params.response = Some(res);
                    },
                    WorkerEvent::Error(e) => {
                        self.is_error = true;
                        self.error_text = e;
                    },
                    WorkerEvent::Connected => {
                        self.connected = true;
                    },
                    _ => {},
                }
                Effect::Nothing
            },
            Protocol::Disconnect => {
                let effect = self.send_message(Commands::Disconnect);
                self.connected = false;
                effect
            },
            Protocol::ModbusRequest(req) => self.send_message(Commands::DeviceCommand(req)),
            Protocol::ExecuteRequest => {
                let req = self.request_params.request.clone();
                self.send_message(Commands::RequestCommand(req))
            },
            Protocol::RequestChanged(params) => {
                self.request_params = params;
                Effect::Nothing
            },
            Protocol::ReqChanged(req) => {
                self.request_params.request = req;
                Effect::Nothing
            },
            Protocol::RequestUpdate(msg) => {
                self.request_params.update(msg);
                Effect::Nothing
            },
            Protocol::SaveFile => Effect::Save,
            Protocol::CloseModal => {
                self.is_error = false;
                Effect::Nothing
            },
            Protocol::OpenFileDialog => Effect::PickFileToOpen,
            Protocol::SaveFileDialog => Effect::PickFileToSave,
            Protocol::SaveFileWithPath(filename) => {
                self.config_file = Some(filename);
                Effect::Save
            },
            Protocol::Error(e) => {
                self.is_error = true;
                self.error_text = e;
                Effect::Nothing
            },
            Protocol::ApplyApp(app) => {
                self.connection = app.connection;
                self.table = app.table;
                self.config_file = app.config_file;
                Effect::Nothing
            },
            _ => Effect::Nothing,
        }
    }
}

} // verus!
