use rustbus::modbus::{get_address, get_address_from_request, Request, Response};
use rustbus::registers::{
    Register, RegisterError, RegisterRequest, RegisterType, Table, TableCommand,
};

fn register(register_type: RegisterType, address: u16, value: u16, name: &str) -> Register {
    Register {
        register_type,
        address,
        length: 1,
        name: name.to_string(),
        value,
        description: String::new(),
    }
}

fn three_registers() -> Table {
    Table {
        registers: vec![
            register(RegisterType::Coil, 1, 0, "a"),
            register(RegisterType::HoldingRegister, 2, 7, "b"),
            register(RegisterType::InputRegister, 3, 9, "c"),
        ],
    }
}

fn names(t: &Table) -> Vec<String> {
    t.registers.iter().map(|r| r.name.clone()).collect()
}

#[test]
fn delete_out_of_range_fails_and_keeps_table() {
    let mut t = three_registers();
    let r = t.handle_commmand(TableCommand::Delete(5));
    assert_eq!(r, Err(RegisterError::IndexOutOfRange));
    assert_eq!(names(&t), vec!["a", "b", "c"]);
}

#[test]
fn delete_in_range_removes_entry() {
    let mut t = three_registers();
    assert_eq!(t.handle_commmand(TableCommand::Delete(1)), Ok(()));
    assert_eq!(names(&t), vec!["a", "c"]);
}

#[test]
fn insert_after_index_places_default_register() {
    let mut t = three_registers();
    assert_eq!(t.handle_commmand(TableCommand::AddRegister(Some(1))), Ok(()));
    assert_eq!(t.registers.len(), 4);
    assert_eq!(names(&t), vec!["a", "b", "", "c"]);
    let d = &t.registers[2];
    assert_eq!(d.register_type, RegisterType::Coil);
    assert_eq!(d.address, 0);
    assert_eq!(d.length, 1);
    assert_eq!(d.value, 0);
    assert_eq!(d.description, "");
    assert_eq!(t.registers[3].address, 3);
}

#[test]
fn insert_after_out_of_range_index_does_nothing() {
    let mut t = three_registers();
    assert_eq!(t.handle_commmand(TableCommand::AddRegister(Some(3))), Ok(()));
    assert_eq!(names(&t), vec!["a", "b", "c"]);
    assert_eq!(t.handle_commmand(TableCommand::AddRegister(Some(usize::MAX))), Ok(()));
    assert_eq!(t.registers.len(), 3);
}

#[test]
fn append_adds_default_register_at_end() {
    let mut t = Table::default();
    assert_eq!(t.handle_commmand(TableCommand::AddRegister(None)), Ok(()));
    assert_eq!(t.handle_commmand(TableCommand::AddRegister(None)), Ok(()));
    assert_eq!(t.registers.len(), 2);
    assert_eq!(t.registers[1].length, 1);
}

#[test]
fn setters_update_existing_index_only() {
    let mut t = three_registers();
    t.handle_commmand(TableCommand::SetAddress(0, 40)).unwrap();
    t.handle_commmand(TableCommand::SetType(0, RegisterType::HoldingRegister)).unwrap();
    t.handle_commmand(TableCommand::SetName(1, "speed".to_string())).unwrap();
    t.handle_commmand(TableCommand::SetDescription(2, "rpm".to_string())).unwrap();
    t.handle_commmand(TableCommand::SetValue(2, 1234)).unwrap();
    t.handle_commmand(TableCommand::SetValue(9, 1)).unwrap();
    t.handle_commmand(TableCommand::Nothing).unwrap();
    assert_eq!(t.registers[0].address, 40);
    assert_eq!(t.registers[0].register_type, RegisterType::HoldingRegister);
    assert_eq!(t.registers[1].name, "speed");
    assert_eq!(t.registers[2].description, "rpm");
    assert_eq!(t.registers[2].value, 1234);
    assert_eq!(t.registers.len(), 3);
}

#[test]
fn holding_read_response_updates_matching_registers() {
    let mut t = Table {
        registers: vec![
            register(RegisterType::HoldingRegister, 10, 0, "x"),
            register(RegisterType::HoldingRegister, 11, 5, "y"),
            register(RegisterType::InputRegister, 10, 3, "z"),
        ],
    };
    t.handle_response(
        Request::ReadHoldingRegisters(10, 1),
        Response::ReadHoldingRegisters(vec![42]),
    );
    assert_eq!(t.registers[0].value, 42);
    assert_eq!(t.registers[1].value, 5);
    assert_eq!(t.registers[2].value, 42);
}

#[test]
fn reconcile_twice_equals_once() {
    let mut t = three_registers();
    let req = Request::ReadCoils(1, 1);
    let resp = Response::ReadCoils(vec![true, false]);
    t.handle_response(req.clone(), resp.clone());
    let once: Vec<u16> = t.registers.iter().map(|r| r.value).collect();
    t.handle_response(req, resp);
    let twice: Vec<u16> = t.registers.iter().map(|r| r.value).collect();
    assert_eq!(once, vec![1, 7, 9]);
    assert_eq!(once, twice);
}

#[test]
fn response_shapes_set_expected_values() {
    let mut t = Table { registers: vec![register(RegisterType::Coil, 4, 9, "r")] };
    t.handle_response(Request::ReadDiscreteInputs(4, 1), Response::ReadDiscreteInputs(vec![false]));
    assert_eq!(t.registers[0].value, 0);
    t.handle_response(Request::WriteSingleCoil(4, true), Response::WriteSingleCoil(4, true));
    assert_eq!(t.registers[0].value, 1);
    t.handle_response(Request::ReadInputRegisters(4, 1), Response::ReadInputRegisters(vec![77, 1]));
    assert_eq!(t.registers[0].value, 77);
    t.handle_response(Request::WriteSingleRegister(4, 300), Response::WriteSingleRegister(4, 300));
    assert_eq!(t.registers[0].value, 300);
    t.handle_response(
        Request::WriteMultipleRegisters(4, vec![12]),
        Response::WriteMultipleRegisters(4, 1),
    );
    assert_eq!(t.registers[0].value, 12);
    t.handle_response(
        Request::WriteMultipleCoils(4, vec![true, false]),
        Response::WriteMultipleCoils(4, 2),
    );
    assert_eq!(t.registers[0].value, 1);
    t.handle_response(
        Request::WriteMultipleCoils(4, vec![false, true]),
        Response::WriteMultipleCoils(4, 2),
    );
    assert_eq!(t.registers[0].value, 0);
}

#[test]
fn unrecognised_or_empty_responses_leave_values() {
    let mut t = Table { registers: vec![register(RegisterType::HoldingRegister, 4, 9, "r")] };
    t.handle_response(Request::ReadHoldingRegisters(4, 1), Response::ReadHoldingRegisters(vec![]));
    assert_eq!(t.registers[0].value, 9);
    t.handle_response(Request::ReadHoldingRegisters(4, 1), Response::Custom(0x41, vec![1, 2]));
    assert_eq!(t.registers[0].value, 9);
    t.handle_response(Request::Custom(0x41, vec![]), Response::ReadHoldingRegisters(vec![5]));
    assert_eq!(t.registers[0].value, 9);
    t.handle_response(
        Request::MaskWriteRegister(4, 1, 2),
        Response::MaskWriteRegister(4, 1, 2),
    );
    assert_eq!(t.registers[0].value, 9);
}

#[test]
fn read_requests_per_type() {
    let cases = [
        (RegisterType::Coil, Request::ReadCoils(8, 1)),
        (RegisterType::DiscreteInputs, Request::ReadDiscreteInputs(8, 1)),
        (RegisterType::InputRegister, Request::ReadInputRegisters(8, 1)),
        (RegisterType::HoldingRegister, Request::ReadHoldingRegisters(8, 1)),
    ];
    for (ty, expected) in cases {
        let rr = RegisterRequest::Read(register(ty, 8, 3, "r"));
        assert_eq!(rr.to_request(), Ok(expected));
    }
}

#[test]
fn write_requests_per_type() {
    let w = |ty, v| RegisterRequest::Write(register(ty, 8, v, "r")).to_request();
    assert_eq!(w(RegisterType::Coil, 1), Ok(Request::WriteSingleCoil(8, true)));
    assert_eq!(w(RegisterType::Coil, 0), Ok(Request::WriteSingleCoil(8, false)));
    assert_eq!(w(RegisterType::InputRegister, 513), Ok(Request::WriteSingleRegister(8, 513)));
    assert_eq!(
        w(RegisterType::HoldingRegister, 513),
        Ok(Request::WriteMultipleRegisters(8, vec![513]))
    );
    assert_eq!(w(RegisterType::DiscreteInputs, 1), Err(RegisterError::UnsupportedOperation));
}

#[test]
fn request_round_trip_restores_value() {
    let cases = [
        (RegisterType::Coil, 1u16),
        (RegisterType::InputRegister, 4321),
        (RegisterType::HoldingRegister, 65535),
    ];
    for (ty, value) in cases {
        for write in [false, true] {
            let reg = register(ty, 20, value, "r");
            let rr = if write {
                RegisterRequest::Write(reg.clone())
            } else {
                RegisterRequest::Read(reg.clone())
            };
            let req = rr.to_request().unwrap();
            let resp = match &req {
                Request::ReadCoils(_, _) => Response::ReadCoils(vec![value != 0]),
                Request::ReadInputRegisters(_, _) => Response::ReadInputRegisters(vec![value]),
                Request::ReadHoldingRegisters(_, _) => Response::ReadHoldingRegisters(vec![value]),
                Request::WriteSingleCoil(a, b) => Response::WriteSingleCoil(*a, *b),
                Request::WriteSingleRegister(a, w) => Response::WriteSingleRegister(*a, *w),
                Request::WriteMultipleRegisters(a, ws) => {
                    Response::WriteMultipleRegisters(*a, ws.len() as u16)
                }
                other => panic!("unexpected request {:?}", other),
            };
            let mut t = Table {
                registers: vec![register(ty, 20, 0, "stale"), register(ty, 21, 6, "other")],
            };
            t.handle_response(req, resp);
            assert_eq!(t.registers[0].value, value);
            assert_eq!(t.registers[1].value, 6);
        }
    }
}

#[test]
fn register_type_labels() {
    assert_eq!(RegisterType::Coil.label(), "COIL");
    assert_eq!(RegisterType::DiscreteInputs.label(), "DISCRETE");
    assert_eq!(RegisterType::InputRegister.label(), "INPUT");
    assert_eq!(RegisterType::HoldingRegister.label(), "HOLDING");
}

#[test]
fn request_addresses() {
    assert_eq!(get_address_from_request(Request::WriteMultipleCoils(77, vec![true])), Some(77));
    assert_eq!(get_address_from_request(Request::ReadWriteMultipleRegisters(1, 2, 3, vec![])), None);
    assert_eq!(get_address_from_request(Request::Disconnect), None);
    assert_eq!(get_address(&Request::WriteSingleRegister(513, 4)), 513);
}

#[test]
fn default_register_fields() {
    let r = Register::default();
    assert_eq!(r.register_type, RegisterType::Coil);
    assert_eq!((r.address, r.length, r.value), (0, 1, 0));
    assert!(r.name.is_empty() && r.description.is_empty());
}

#[test]
fn holding_write_acknowledgement_keeps_written_value() {
    let reg = register(RegisterType::HoldingRegister, 30, 42, "h");
    let req = RegisterRequest::Write(reg).to_request().unwrap();
    let mut t = Table { registers: vec![register(RegisterType::HoldingRegister, 30, 7, "h")] };
    t.handle_response(req, Response::WriteMultipleRegisters(30, 1));
    assert_eq!(t.registers[0].value, 42);
}

#[test]
fn multiple_write_ack_without_matching_request_leaves_value() {
    let mut t = Table { registers: vec![register(RegisterType::HoldingRegister, 30, 7, "h")] };
    t.handle_response(Request::WriteSingleRegister(30, 5), Response::WriteMultipleRegisters(30, 1));
    assert_eq!(t.registers[0].value, 7);
    t.handle_response(Request::WriteMultipleRegisters(30, vec![]), Response::WriteMultipleRegisters(30, 0));
    assert_eq!(t.registers[0].value, 7);
}
