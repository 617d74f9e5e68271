//! The register model: an ordered collection of named, typed registers,
//! the requests derived from them, and the reconciliation of responses.

use vstd::prelude::*;
use crate::modbus::{Request, Response, address_of, get_address_from_request};

verus! {

/// The kind of item a register stands for on the device.
#[derive(Debug, Clone, Copy, PartialEq, Eq, Structural)]
pub enum RegisterType {
    Coil,
    DiscreteInputs,
    InputRegister,
    HoldingRegister,
}

impl RegisterType {
    pub open spec fn spec_label(self) -> Seq<char> {
        match self {
            RegisterType::Coil => "COIL"@,
            RegisterType::DiscreteInputs => "DISCRETE"@,
            RegisterType::InputRegister => "INPUT"@,
            RegisterType::HoldingRegister => "HOLDING"@,
        }
    }

    /// The upper-case name shown for the type.
    pub fn label(&self) -> (r: &'static str)
        ensures
            r@ == self.spec_label(),
    {
        match self {
            RegisterType::Coil => "COIL",
            RegisterType::DiscreteInputs => "DISCRETE",
            RegisterType::InputRegister => "INPUT",
            RegisterType::HoldingRegister => "HOLDING",
        }
    }
}

/// A named binding of a device address to a locally held value.
#[derive(Debug, Clone)]
pub struct Register {
    pub register_type: RegisterType,
    pub address: u16,
    pub length: u8,
    pub name: String,
    pub value: u16,
    pub description: String,
}

/// The word that a coil or discrete input state stands for.
pub open spec fn bool_word(b: bool) -> u16 {
    if b {
        1
    } else {
        0
    }
}

/// The value that `resp`, the answer to `req`, carries for the register it
/// answers: the first element of a read; the echoed value of a single write;
/// for the acknowledgement of a multiple write, which carries only the number
/// of items written, the first value that `req` wrote. `None` for a shape that
/// carries no such value.
pub open spec fn response_value(req: Request, resp: Response) -> Option<u16> {
    match resp {
        Response::ReadCoils(v) => if v@.len() > 0 { Some(bool_word(v@[0])) } else { None },
        Response::ReadDiscreteInputs(v) => if v@.len() > 0 {
            Some(bool_word(v@[0]))
        } else {
            None
        },
        Response::WriteSingleCoil(_, b) => Some(bool_word(b)),
        Response::ReadInputRegisters(v) => if v@.len() > 0 { Some(v@[0]) } else { None },
        Response::ReadHoldingRegisters(v) => if v@.len() > 0 { Some(v@[0]) } else { None },
        Response::WriteSingleRegister(_, w) => Some(w),
        Response::WriteMultipleRegisters(_, _) => match req {
            Request::WriteMultipleRegisters(_, ws) => if ws@.len() > 0 {
                Some(ws@[0])
            } else {
                None
            },
            _ => None,
        },
        Response::WriteMultipleCoils(_, _) => match req {
            Request::WriteMultipleCoils(_, bs) => if bs@.len() > 0 {
                Some(bool_word(bs@[0]))
            } else {
                None
            },
            _ => None,
        },
        _ => None,
    }
}

impl Register {
    pub open spec fn is_default(self) -> bool {
        &&& self.register_type == RegisterType::Coil
        &&& self.address == 0
        &&& self.length == 1
        &&& self.name@.len() == 0
        &&& self.value == 0
        &&& self.description@.len() == 0
    }

    /// The register after absorbing `resp`, the answer to `req`: only the
    /// value changes, and only where the exchange carries one.
    pub open spec fn reconciled(self, req: Request, resp: Response) -> Register {
        match response_value(req, resp) {
            Some(v) => Register { value: v, ..self },
            None => self,
        }
    }

    fn apply_response(&mut self, req: &Request, resp: &Response)
        ensures
            *final(self) == old(self).reconciled(*req, *resp),
    {
        match resp {
            Response::ReadCoils(v) => {
                if v.len() > 0 {
                    self.value = if v[0] { 1 } else { 0 };
                }
            },
            Response::ReadDiscreteInputs(v) => {
                if v.len() > 0 {
                    self.value = if v[0] { 1 } else { 0 };
                }
            },
            Response::WriteSingleCoil(_addr, val) => {
                self.value = if *val { 1 } else { 0 };
            },
            Response::ReadInputRegisters(v) => {
                if v.len() > 0 {
                    self.value = v[0];
                }
            },
            Response::ReadHoldingRegisters(v) => {
                if v.len() > 0 {
                    self.value = v[0];
                }
            },
            Response::WriteSingleRegister(_addr, val) => self.value = *val,
            Response::WriteMultipleRegisters(_addr, _quantity) => {
                if let Request::WriteMultipleRegisters(_a, vals) = req {
                    if vals.len() > 0 {
                        self.value = vals[0];
                    }
                }
            },
            Response::WriteMultipleCoils(_addr, _quantity) => {
                if let Request::WriteMultipleCoils(_a, vals) = req {
                    if vals.len() > 0 {
                        self.value = if vals[0] { 1 } else { 0 };
                    }
                }
            },
            _ => {},
        }
    }
}

impl Default for Register {
    fn default() -> (r: Self)
        ensures
            r.is_default(),
    {
        Register {
            register_type: RegisterType::Coil,
            address: 0,
            length: 1,
            name: String::new(),
            value: 0,
            description: String::new(),
        }
    }
}

/// Why a register-model operation was refused.
#[derive(Debug, Clone, Copy, PartialEq, Eq, Structural)]
pub enum RegisterError {
    /// The index names no register of the table.
    IndexOutOfRange,
    /// The register's type has no request of the asked kind.
    UnsupportedOperation,
}

/// An edit of the register table.
#[derive(Debug, Clone)]
pub enum TableCommand {
    AddRegister(Option<usize>),
    SetAddress(usize, u16),
    SetType(usize, RegisterType),
    SetName(usize, String),
    SetDescription(usize, String),
    SetValue(usize, u16),
    Delete(usize),
    Nothing,
}

/// The register model: registers in insertion order; addresses may repeat.
#[derive(Debug, Clone)]
pub struct Table {
    pub registers: Vec<Register>,
}

/// `regs` with the register at `i` replaced by `r`, where `i` is an index of
/// `regs`; `regs` itself otherwise.
pub open spec fn edited(regs: Seq<Register>, i: usize, r: Register) -> Seq<Register> {
    if i < regs.len() {
        regs.update(i as int, r)
    } else {
        regs
    }
}

/// What `handle_commmand` does: `before` and `after` are the registers
/// around the call and `r` its result.
pub open spec fn command_applied(
    tc: TableCommand,
    before: Seq<Register>,
    after: Seq<Register>,
    r: Result<(), RegisterError>,
) -> bool {
    match tc {
        TableCommand::AddRegister(None) => {
            &&& r is Ok
            &&& after.len() == before.len() + 1
            &&& after.drop_last() == before
            &&& after.last().is_default()
        },
        TableCommand::AddRegister(Some(i)) => {
            &&& r is Ok
            &&& if i < before.len() {
                &&& after.len() == before.len() + 1
                &&& after.remove(i + 1) == before
                &&& after[i + 1].is_default()
            } else {
                after == before
            }
        },
        TableCommand::SetAddress(i, a) => r is Ok && after == edited(
            before,
            i,
            (Register { address: a, ..before[i as int] }),
        ),
        TableCommand::SetType(i, t) => r is Ok && after == edited(
            before,
            i,
            (Register { register_type: t, ..before[i as int] }),
        ),
        TableCommand::SetName(i, n) => r is Ok && after == edited(
            before,
            i,
            (Register { name: n, ..before[i as int] }),
        ),
        TableCommand::SetDescription(i, d) => r is Ok && after == edited(
            before,
            i,
            (Register { description: d, ..before[i as int] }),
        ),
        TableCommand::SetValue(i, v) => r is Ok && after == edited(
            before,
            i,
            (Register { value: v, ..before[i as int] }),
        ),
        TableCommand::Delete(i) => if i < before.len() {
            r is Ok && after == before.remove(i as int)
        } else {
            r == Err::<(), RegisterError>(RegisterError::IndexOutOfRange) && after == before
        },
        TableCommand::Nothing => r is Ok && after == before,
    }
}

/// The registers after absorbing `resp` as the answer to `req`: every
/// register at the request's address takes the response's value; the others,
/// and all of them where the request has no address, stay as they were.
pub open spec fn reconcile_all(regs: Seq<Register>, req: Request, resp: Response) -> Seq<Register> {
    match address_of(req) {
        Some(a) => regs.map_values(
            |r: Register|
                if r.address == a {
                    r.reconciled(req, resp)
                } else {
                    r
                },
        ),
        None => regs,
    }
}

impl Table {
    /// Applies one edit. Insertion after, or an edit of, an index that is out
    /// of range does nothing; deleting at such an index is an error.
    pub fn handle_commmand(&mut self, tc: TableCommand) -> (r: Result<(), RegisterError>)
        ensures
            command_applied(tc, old(self).registers@, final(self).registers@, r),
    {
        let len = self.registers.len();
        match tc {
            TableCommand::AddRegister(idx) => {
                match idx {
                    Some(index) => {
                        if index < len {
                            self.registers.insert(index + 1, Register::default());
                            proof {
                                assert(self.registers@.remove(index + 1) =~= old(self).registers@);
                            }
                        }
                    },
                    None => {
                        self.registers.push(Register::default());
                        proof {
                            assert(self.registers@.drop_last() =~= old(self).registers@);
                        }
                    },
                }
                Ok(())
            },
            TableCommand::SetAddress(idx, addr) => {
                if idx < len {
                    self.registers[idx].address = addr;
                }
                Ok(())
            },
            TableCommand::SetType(idx, rtype) => {
                if idx < len {
                    self.registers[idx].register_type = rtype;
                }
                Ok(())
            },
            TableCommand::SetName(idx, name) => {
                if idx < len {
                    self.registers[idx].name = name;
                }
                Ok(())
            },
            TableCommand::SetDescription(idx, desc) => {
                if idx < len {
                    self.registers[idx].description = desc;
                }
                Ok(())
            },
            TableCommand::SetValue(idx, val) => {
                if idx < len {
                    self.registers[idx].value = val;
                }
                Ok(())
            },
            TableCommand::Delete(idx) => {
                if idx < len {
                    self.registers.remove(idx);
                    Ok(())
                } else {
                    Err(RegisterError::IndexOutOfRange)
                }
            },
            TableCommand::Nothing => Ok(()),
        }
    }

    /// Absorbs `resp`, the answer to `req`, into every register at the
    /// request's address.
    pub fn handle_response(&mut self, req: Request, resp: Response)
        ensures
            final(self).registers@ == reconcile_all(old(self).registers@, req, resp),
    {
        let target = get_address_from_request(req.clone());
        match target {
            Some(addr) => {
                let n = self.registers.len();
                let mut i: usize = 0;
                while i < n
                    invariant
                        n == self.registers@.len(),
                        n == old(self).registers@.len(),
                        0 <= i <= n,
                        address_of(req) == Some(addr),
                        forall|j: int|
                            0 <= j < i ==> #[trigger] self.registers@[j] == (if old(
                                self,
                            ).registers@[j].address == addr {
                                old(self).registers@[j].reconciled(req, resp)
                            } else {
                                old(self).registers@[j]
                            }),
                        forall|j: int| i <= j < n ==> #[trigger] self.registers@[j] == old(self).registers@[j],
                    decreases n - i,
                {
                    if self.registers[i].address == addr {
                        self.registers[i].apply_response(&req, &resp);
                    }
                    i += 1;
                }
                proof {
                    assert(self.registers@ =~= reconcile_all(old(self).registers@, req, resp));
                }
            },
            None => {},
        }
    }
}

impl Default for Table {
    fn default() -> (r: Self)
        ensures
            r.registers@.len() == 0,
    {
        Table { registers: Vec::new() }
    }
}

/// A register together with the direction of the exchange asked for it.
#[derive(Debug, Clone)]
pub enum RegisterRequest {
    Read(Register),
    Write(Register),
}

impl RegisterRequest {
    pub open spec fn register(self) -> Register {
        match self {
            RegisterRequest::Read(reg) => reg,
            RegisterRequest::Write(reg) => reg,
        }
    }

    /// A write of a discrete input, which the protocol cannot express.
    pub open spec fn is_unsupported(self) -> bool {
        self matches RegisterRequest::Write(reg) && reg.register_type == RegisterType::DiscreteInputs
    }

    /// `req` is the request derived for `self`: each type reads one item with
    /// its read shape, and writes the register's value with its write shape.
    pub open spec fn derives(self, req: Request) -> bool {
        match self {
            RegisterRequest::Read(reg) => req == match reg.register_type {
                RegisterType::Coil => Request::ReadCoils(reg.address, 1),
                RegisterType::DiscreteInputs => Request::ReadDiscreteInputs(reg.address, 1),
                RegisterType::InputRegister => Request::ReadInputRegisters(reg.address, 1),
                RegisterType::HoldingRegister => Request::ReadHoldingRegisters(reg.address, 1),
            },
            RegisterRequest::Write(reg) => match reg.register_type {
                RegisterType::Coil => req == Request::WriteSingleCoil(reg.address, reg.value != 0),
                RegisterType::InputRegister => req == Request::WriteSingleRegister(
                    reg.address,
                    reg.value,
                ),
                RegisterType::HoldingRegister => {
                    &&& req matches Request::WriteMultipleRegisters(a, vals)
                    &&& a == reg.address
                    &&& vals@ == seq![reg.value]
                },
                RegisterType::DiscreteInputs => false,
            },
        }
    }

    /// The protocol request for this exchange; a write of a discrete input
    /// is refused.
    pub fn to_request(&self) -> (r: Result<Request, RegisterError>)
        ensures
            match r {
                Ok(req) => self.derives(req),
                Err(e) => e == RegisterError::UnsupportedOperation,
            },
            r is Err <==> self.is_unsupported(),
    {
        match self {
            RegisterRequest::Read(reg) => match reg.register_type {
                RegisterType::Coil => Ok(Request::ReadCoils(reg.address, 1)),
                RegisterType::DiscreteInputs => Ok(Request::ReadDiscreteInputs(reg.address, 1)),
                RegisterType::InputRegister => Ok(Request::ReadInputRegisters(reg.address, 1)),
                RegisterType::HoldingRegister => Ok(Request::ReadHoldingRegisters(reg.address, 1)),
            },
            RegisterRequest::Write(reg) => match reg.register_type {
                RegisterType::Coil => Ok(Request::WriteSingleCoil(reg.address, reg.value != 0)),
                RegisterType::InputRegister => Ok(
                    Request::WriteSingleRegister(reg.address, reg.value),
                ),
                RegisterType::HoldingRegister => {
                    let mut vals: Vec<u16> = Vec::new();
                    vals.push(reg.value);
                    proof {
                        assert(vals@ =~= seq![reg.value]);
                    }
                    Ok(Request::WriteMultipleRegisters(reg.address, vals))
                },
                RegisterType::DiscreteInputs => Err(RegisterError::UnsupportedOperation),
            },
        }
    }
}

/// `resp` is what a device answers to `req` when the addressed item holds
/// `value`: a read returns that value first; the acknowledgement of a single
/// write echoes its address and value; that of a multiple write echoes its
/// address and the number of items written.
pub open spec fn answers(req: Request, value: u16, resp: Response) -> bool {
    match req {
        Request::ReadCoils(_, _) => resp matches Response::ReadCoils(v) && v@.len() > 0 && v@[0]
            == (value != 0),
        Request::ReadDiscreteInputs(_, _) => resp matches Response::ReadDiscreteInputs(v)
            && v@.len() > 0 && v@[0] == (value != 0),
        Request::ReadInputRegisters(_, _) => resp matches Response::ReadInputRegisters(v)
            && v@.len() > 0 && v@[0] == value,
        Request::ReadHoldingRegisters(_, _) => resp matches Response::ReadHoldingRegisters(v)
            && v@.len() > 0 && v@[0] == value,
        Request::WriteSingleCoil(a, b) => resp == Response::WriteSingleCoil(a, b),
        Request::WriteSingleRegister(a, w) => resp == Response::WriteSingleRegister(a, w),
        Request::WriteMultipleRegisters(a, ws) => resp matches Response::WriteMultipleRegisters(
            a2,
            n,
        ) && a2 == a && n == ws@.len(),
        Request::WriteMultipleCoils(a, bs) => resp matches Response::WriteMultipleCoils(a2, n) && a2
            == a && n == bs@.len(),
        _ => false,
    }
}

/// Reconciliation is idempotent: absorbing the same response a second time
/// changes no register.
pub proof fn lemma_reconcile_idempotent(regs: Seq<Register>, req: Request, resp: Response)
    ensures
        reconcile_all(reconcile_all(regs, req, resp), req, resp) == reconcile_all(regs, req, resp),
{
    let once = reconcile_all(regs, req, resp);
    assert(reconcile_all(once, req, resp) =~= once);
}

/// Round trip: the request derived for a register, answered by a device that
/// holds the register's value, gives every register at that address that
/// value back and leaves the others alone. A coil or discrete input holds
/// 0 or 1.
pub proof fn lemma_request_round_trip(
    regs: Seq<Register>,
    rr: RegisterRequest,
    req: Request,
    resp: Response,
)
    requires
        rr.derives(req),
        answers(req, rr.register().value, resp),
        rr.register().register_type == RegisterType::Coil || rr.register().register_type
            == RegisterType::DiscreteInputs ==> rr.register().value <= 1,
    ensures
        reconcile_all(regs, req, resp).len() == regs.len(),
        forall|j: int|
            0 <= j < regs.len() ==> (#[trigger] reconcile_all(regs, req, resp)[j]).value == if regs[j].address
                == rr.register().address {
                rr.register().value
            } else {
                regs[j].value
            },
{
    let reg = rr.register();
    assert(address_of(req) == Some(reg.address));
    assert(response_value(req, resp) == Some(reg.value)) by {
        if let Request::WriteMultipleRegisters(a, ws) = req {
            assert(ws@[0] == reg.value);
        }
    }
}

} // verus!
