//! The ad-hoc request form: a request of a chosen shape, edited field by
//! field, and the response it last received.

use vstd::prelude::*;
use crate::modbus::{Request, Response, address_of};

verus! {

/// The eight request shapes the form offers.
#[derive(Debug, PartialEq, Eq, Copy, Clone, Structural)]
pub enum RequestType {
    ReadCoils,
    ReadDiscreteInputs,
    WriteSingleCoil,
    WriteMultipleCoils,
    ReadInputRegisters,
    ReadHoldingRegisters,
    WriteSingleRegister,
    WriteMultipleRegisters,
}

impl RequestType {
    /// `req` is the blank request of this shape: address 0, a count or value
    /// of 0 (`false`), no values for the multiple writes.
    pub open spec fn is_blank(self, req: Request) -> bool {
        match self {
            RequestType::ReadCoils => req == Request::ReadCoils(0, 0),
            RequestType::ReadDiscreteInputs => req == Request::ReadDiscreteInputs(0, 0),
            RequestType::WriteSingleCoil => req == Request::WriteSingleCoil(0, false),
            RequestType::WriteMultipleCoils => req matches Request::WriteMultipleCoils(a, v) && a
                == 0 && v@.len() == 0,
            RequestType::ReadInputRegisters => req == Request::ReadInputRegisters(0, 0),
            RequestType::ReadHoldingRegisters => req == Request::ReadHoldingRegisters(0, 0),
            RequestType::WriteSingleRegister => req == Request::WriteSingleRegister(0, 0),
            RequestType::WriteMultipleRegisters => req matches Request::WriteMultipleRegisters(
                a,
                v,
            ) && a == 0 && v@.len() == 0,
        }
    }

    /// The blank request of this shape.
    pub fn new_request(&self) -> (r: Request)
        ensures
            self.is_blank(r),
    {
        match self {
            RequestType::ReadCoils => Request::ReadCoils(0, 0),
            RequestType::ReadDiscreteInputs => Request::ReadDiscreteInputs(0, 0),
            RequestType::WriteSingleCoil => Request::WriteSingleCoil(0, false),
            RequestType::WriteMultipleCoils => Request::WriteMultipleCoils(0, Vec::new()),
            RequestType::ReadInputRegisters => Request::ReadInputRegisters(0, 0),
            RequestType::ReadHoldingRegisters => Request::ReadHoldingRegisters(0, 0),
            RequestType::WriteSingleRegister => Request::WriteSingleRegister(0, 0),
            RequestType::WriteMultipleRegisters => Request::WriteMultipleRegisters(0, Vec::new()),
        }
    }

    pub open spec fn spec_label(self) -> Seq<char> {
        match self {
            RequestType::ReadCoils => "Read Coils (0x01)"@,
            RequestType::ReadDiscreteInputs => "Read Discrete Inputs (0x02)"@,
            RequestType::WriteSingleCoil => "Write Single Coil (0x05)"@,
            RequestType::WriteMultipleCoils => "Write Multiple Coils (0x0F)"@,
            RequestType::ReadInputRegisters => "Read Input Registers (0x04)"@,
            RequestType::ReadHoldingRegisters => "Read Holding Registers (0x03)"@,
            RequestType::WriteSingleRegister => "Write Single Register (0x06)"@,
            RequestType::WriteMultipleRegisters => "Write Multiple Registers (0x10)"@,
        }
    }

    /// The shape's name with its function code.
    pub fn label(&self) -> (r: &'static str)
        ensures
            r@ == self.spec_label(),
    {
        match self {
            RequestType::ReadCoils => "Read Coils (0x01)",
            RequestType::ReadDiscreteInputs => "Read Discrete Inputs (0x02)",
            RequestType::WriteSingleCoil => "Write Single Coil (0x05)",
            RequestType::WriteMultipleCoils => "Write Multiple Coils (0x0F)",
            RequestType::ReadInputRegisters => "Read Input Registers (0x04)",
            RequestType::ReadHoldingRegisters => "Read Holding Registers (0x03)",
            RequestType::WriteSingleRegister => "Write Single Register (0x06)",
            RequestType::WriteMultipleRegisters => "Write Multiple Registers (0x10)",
        }
    }
}

/// An edit of the request form.
#[derive(Debug, Clone)]
pub enum RequestUpdate {
    Nothing,
    RequestType(RequestType),
    SetAddress(u16),
    Request(Request),
    UpdateVecU16(usize, u16),
    UpdateVecBool(usize, bool),
    /// A new polling period, in milliseconds.
    SetPoll(u64),
}

/// The state of the request form.
#[derive(Debug, Clone)]
pub struct RequestParams {
    pub request: Request,
    pub request_type: RequestType,
    pub response: Option<Response>,
    /// Polling period, in milliseconds.
    pub poll_ms: u64,
    pub polling: bool,
}

/// `req` with its address replaced by `a`, for the eight supported shapes;
/// any other request unchanged.
pub open spec fn with_address(req: Request, a: u16) -> Request {
    match req {
        Request::ReadCoils(_, n) => Request::ReadCoils(a, n),
        Request::ReadDiscreteInputs(_, n) => Request::ReadDiscreteInputs(a, n),
        Request::WriteSingleCoil(_, b) => Request::WriteSingleCoil(a, b),
        Request::WriteMultipleCoils(_, v) => Request::WriteMultipleCoils(a, v),
        Request::ReadInputRegisters(_, n) => Request::ReadInputRegisters(a, n),
        Request::ReadHoldingRegisters(_, n) => Request::ReadHoldingRegisters(a, n),
        Request::WriteSingleRegister(_, w) => Request::WriteSingleRegister(a, w),
        Request::WriteMultipleRegisters(_, v) => Request::WriteMultipleRegisters(a, v),
        _ => req,
    }
}

/// What `RequestParams::update` does: `before` and `after` are the form
/// around the call.
pub open spec fn request_update_applied(
    before: RequestParams,
    msg: RequestUpdate,
    after: RequestParams,
) -> bool {
    &&& after.response == before.response
    &&& after.polling == before.polling
    &&& match msg {
        RequestUpdate::RequestType(t) => after.request_type == t && t.is_blank(after.request),
        _ => after.request_type == before.request_type,
    }
    &&& match msg {
        RequestUpdate::SetPoll(ms) => after.poll_ms == ms,
        _ => after.poll_ms == before.poll_ms,
    }
    &&& match msg {
        RequestUpdate::Nothing => after.request == before.request,
        RequestUpdate::RequestType(_) => true,
        RequestUpdate::SetAddress(a) => after.request == with_address(before.request, a),
        RequestUpdate::Request(req) => after.request == req,
        RequestUpdate::UpdateVecU16(i, w) => match before.request {
            Request::WriteMultipleRegisters(a, vals) => if i < vals@.len() {
                after.request matches Request::WriteMultipleRegisters(a2, vals2) && a2 == a
                    && vals2@ == vals@.update(i as int, w)
            } else {
                after.request == before.request
            },
            _ => after.request == before.request,
        },
        RequestUpdate::UpdateVecBool(i, b) => match before.request {
            Request::WriteMultipleCoils(a, vals) => if i < vals@.len() {
                after.request matches Request::WriteMultipleCoils(a2, vals2) && a2 == a
                    && vals2@ == vals@.update(i as int, b)
            } else {
                after.request == before.request
            },
            _ => after.request == before.request,
        },
        RequestUpdate::SetPoll(_) => after.request == before.request,
    }
}

impl RequestParams {
    /// Applies one edit. Choosing a shape starts a blank request of it; an
    /// address edit leaves a request of an unsupported shape alone; an edit of
    /// a value outside the request's values does nothing.
    pub fn update(&mut self, msg: RequestUpdate)
        ensures
            request_update_applied(*old(self), msg, *final(self)),
    {
        match msg {
            RequestUpdate::Nothing => (),
            RequestUpdate::RequestType(req_type) => {
                let req = req_type.new_request();
                self.request_type = req_type;
                self.request = req;
            },
            RequestUpdate::SetAddress(new_addr) => match &mut self.request {
                Request::ReadCoils(addr, _val) => *addr = new_addr,
                Request::ReadDiscreteInputs(addr, _val) => *addr = new_addr,
                Request::WriteSingleCoil(addr, _val) => *addr = new_addr,
                Request::WriteMultipleCoils(addr, _val) => *addr = new_addr,
                Request::ReadInputRegisters(addr, _val) => *addr = new_addr,
                Request::ReadHoldingRegisters(addr, _val) => *addr = new_addr,
                Request::WriteSingleRegister(addr, _val) => *addr = new_addr,
                Request::WriteMultipleRegisters(addr, _val) => *addr = new_addr,
                _ => (),
            },
            RequestUpdate::Request(req) => self.request = req,
            RequestUpdate::UpdateVecU16(idx, val) => {
                match &mut self.request {
                    Request::WriteMultipleRegisters(_addr, vals) => {
                        if idx < vals.len() {
                            vals[idx] = val;
                        }
                    },
                    _ => (),
                };
            },
            RequestUpdate::UpdateVecBool(idx, val) => match &mut self.request {
                Request::WriteMultipleCoils(_addr, vals) => {
                    if idx < vals.len() {
                        vals[idx] = val;
                    }
                },
                _ => (),
            },
            RequestUpdate::SetPoll(duration) => self.poll_ms = duration,
        }
    }

    /// The address of the request, which has one of the eight supported shapes.
    pub fn get_address(&self) -> (r: u16)
        requires
            address_of(self.request) is Some,
        ensures
            address_of(self.request) == Some(r),
    {
        crate::modbus::get_address(&self.request)
    }
}

impl Default for RequestParams {
    fn default() -> (r: Self)
        ensures
            r.request == Request::ReadCoils(0, 0),
            r.request_type == RequestType::ReadCoils,
            r.response is None,
            r.poll_ms == 1000,
            !r.polling,
    {
        RequestParams {
            request: Request::ReadCoils(0, 0),
            request_type: RequestType::ReadCoils,
            response: None,
            poll_ms: 1000,
            polling: false,
        }
    }
}

/// The request form: it holds the form's state and the way to report a
/// change of it.
pub struct RequestComponent<F> {
    pub params: RequestParams,
    pub on_change: F,
}

impl<F> RequestComponent<F> {
    pub fn new(request_params: RequestParams, on_change: F) -> (r: Self)
        ensures
            r.params == request_params,
            r.on_change == on_change,
    {
        RequestComponent { params: request_params, on_change: on_change }
    }
}

} // verus!
