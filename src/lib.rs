//! A Modbus master: the session state machine that owns the transport and
//! turns commands into protocol requests and events, and the register model
//! that absorbs responses into named registers.

pub mod app;
pub mod connection;
pub mod modbus;
pub mod registers;
pub mod request;
pub mod session;
