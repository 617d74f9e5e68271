//! Protocol request and response frames, as plain values.

use vstd::prelude::*;

verus! {

/// An outbound protocol operation: a function code with its register address
/// and either a count (reads) or the value(s) to write.
#[derive(Debug, PartialEq, Eq)]
pub enum Request {
    ReadCoils(u16, u16),
    ReadDiscreteInputs(u16, u16),
    WriteSingleCoil(u16, bool),
    WriteMultipleCoils(u16, Vec<bool>),
    ReadInputRegisters(u16, u16),
    ReadHoldingRegisters(u16, u16),
    WriteSingleRegister(u16, u16),
    WriteMultipleRegisters(u16, Vec<u16>),
    MaskWriteRegister(u16, u16, u16),
    ReadWriteMultipleRegisters(u16, u16, u16, Vec<u16>),
    Custom(u8, Vec<u8>),
    Disconnect,
}

impl Request {
    /// `other` is a copy of `self`: the same shape, the same numbers, the
    /// same values in the same order.
    pub open spec fn same_as(self, other: Request) -> bool {
        match self {
            Request::WriteMultipleCoils(a, v) => other matches Request::WriteMultipleCoils(a2, v2)
                && a2 == a && v2@ == v@,
            Request::WriteMultipleRegisters(a, v) => other matches Request::WriteMultipleRegisters(
                a2,
                v2,
            ) && a2 == a && v2@ == v@,
            Request::ReadWriteMultipleRegisters(r, n, w, v) => other matches Request::ReadWriteMultipleRegisters(
                r2,
                n2,
                w2,
                v2,
            ) && r2 == r && n2 == n && w2 == w && v2@ == v@,
            Request::Custom(f, b) => other matches Request::Custom(f2, b2) && f2 == f && b2@ == b@,
            _ => other == self,
        }
    }
}

fn copy_values<T: Copy>(v: &Vec<T>) -> (r: Vec<T>)
    ensures
        r@ == v@,
{
    let mut r: Vec<T> = Vec::new();
    let mut i: usize = 0;
    while i < v.len()
        invariant
            i <= v@.len(),
            r@ == v@.subrange(0, i as int),
        decreases v@.len() - i,
    {
        r.push(v[i]);
        i += 1;
        proof {
            assert(r@ =~= v@.subrange(0, i as int));
        }
    }
    proof {
        assert(r@ =~= v@);
    }
    r
}

impl Clone for Request {
    fn clone(&self) -> (r: Self)
        ensures
            self.same_as(r),
    {
        match self {
            Request::ReadCoils(a, n) => Request::ReadCoils(*a, *n),
            Request::ReadDiscreteInputs(a, n) => Request::ReadDiscreteInputs(*a, *n),
            Request::WriteSingleCoil(a, b) => Request::WriteSingleCoil(*a, *b),
            Request::WriteMultipleCoils(a, v) => Request::WriteMultipleCoils(*a, copy_values(v)),
            Request::ReadInputRegisters(a, n) => Request::ReadInputRegisters(*a, *n),
            Request::ReadHoldingRegisters(a, n) => Request::ReadHoldingRegisters(*a, *n),
            Request::WriteSingleRegister(a, w) => Request::WriteSingleRegister(*a, *w),
            Request::WriteMultipleRegisters(a, v) => Request::WriteMultipleRegisters(
                *a,
                copy_values(v),
            ),
            Request::MaskWriteRegister(a, m, o) => Request::MaskWriteRegister(*a, *m, *o),
            Request::ReadWriteMultipleRegisters(r, n, w, v) => Request::ReadWriteMultipleRegisters(
                *r,
                *n,
                *w,
                copy_values(v),
            ),
            Request::Custom(f, b) => Request::Custom(*f, copy_values(b)),
            Request::Disconnect => Request::Disconnect,
        }
    }
}

/// The data that a device returned for a request.
#[derive(Debug, Clone, PartialEq, Eq)]
pub enum Response {
    ReadCoils(Vec<bool>),
    ReadDiscreteInputs(Vec<bool>),
    WriteSingleCoil(u16, bool),
    WriteMultipleCoils(u16, u16),
    ReadInputRegisters(Vec<u16>),
    ReadHoldingRegisters(Vec<u16>),
    WriteSingleRegister(u16, u16),
    WriteMultipleRegisters(u16, u16),
    MaskWriteRegister(u16, u16, u16),
    ReadWriteMultipleRegisters(Vec<u16>),
    Custom(u8, Vec<u8>),
}

/// The register address that a request of one of the eight supported shapes
/// targets; `None` for every other request.
pub open spec fn address_of(req: Request) -> Option<u16> {
    match req {
        Request::ReadCoils(a, _) => Some(a),
        Request::ReadDiscreteInputs(a, _) => Some(a),
        Request::WriteSingleCoil(a, _) => Some(a),
        Request::WriteMultipleCoils(a, _) => Some(a),
        Request::ReadInputRegisters(a, _) => Some(a),
        Request::ReadHoldingRegisters(a, _) => Some(a),
        Request::WriteSingleRegister(a, _) => Some(a),
        Request::WriteMultipleRegisters(a, _) => Some(a),
        _ => None,
    }
}

/// The address encoded in `req`, where it has one of the eight supported shapes.
pub fn get_address_from_request(req: Request) -> (r: Option<u16>)
    ensures
        r == address_of(req),
{
    match req {
        Request::ReadCoils(addr, _) => Some(addr),
        Request::ReadDiscreteInputs(addr, _) => Some(addr),
        Request::WriteSingleCoil(addr, _) => Some(addr),
        Request::WriteMultipleCoils(addr, _) => Some(addr),
        Request::ReadInputRegisters(addr, _) => Some(addr),
        Request::ReadHoldingRegisters(addr, _) => Some(addr),
        Request::WriteSingleRegister(addr, _) => Some(addr),
        Request::WriteMultipleRegisters(addr, _) => Some(addr),
        _ => None,
    }
}

/// The address of a request of one of the eight supported shapes.
pub fn get_address(req: &Request) -> (r: u16)
    requires
        address_of(*req) is Some,
    ensures
        address_of(*req) == Some(r),
{
    match req {
        Request::ReadCoils(addr, _) => *addr,
        Request::ReadDiscreteInputs(addr, _) => *addr,
        Request::WriteSingleCoil(addr, _) => *addr,
        Request::WriteMultipleCoils(addr, _) => *addr,
        Request::ReadInputRegisters(addr, _) => *addr,
        Request::ReadHoldingRegisters(addr, _) => *addr,
        Request::WriteSingleRegister(addr, _) => *addr,
        Request::WriteMultipleRegisters(addr, _) => *addr,
        _ => 0,
    }
}

} // verus!
