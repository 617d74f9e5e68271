//! Connection parameters for the two transports, and the forms that edit them.

use vstd::prelude::*;

verus! {

/// Parity checking of a serial line.
#[derive(Debug, Clone, Copy, PartialEq, Eq, Structural)]
pub enum Parity {
    NoParity,
    Odd,
    Even,
}

/// Number of data bits in a serial character.
#[derive(Debug, Clone, Copy, PartialEq, Eq, Structural)]
pub enum DataBits {
    Five,
    Six,
    Seven,
    Eight,
}

/// Number of stop bits of a serial character.
#[derive(Debug, Clone, Copy, PartialEq, Eq, Structural)]
pub enum StopBits {
    One,
    Two,
}

/// A parity setting as shown and stored: "None", "Odd" or "Even".
#[derive(Debug, Clone, Copy, PartialEq, Eq, Structural)]
pub struct GuiParity(pub Parity);

/// A data-bits setting as shown and stored: "5" to "8".
#[derive(Debug, Clone, Copy, PartialEq, Eq, Structural)]
pub struct GuiDataBits(pub DataBits);

/// A stop-bits setting as shown and stored: "1" or "2".
#[derive(Debug, Clone, Copy, PartialEq, Eq, Structural)]
pub struct GuiStopBits(pub StopBits);

pub open spec fn parity_label(p: Parity) -> Seq<char> {
    match p {
        Parity::NoParity => "None"@,
        Parity::Odd => "Odd"@,
        Parity::Even => "Even"@,
    }
}

pub open spec fn data_bits_label(d: DataBits) -> Seq<char> {
    match d {
        DataBits::Five => "5"@,
        DataBits::Six => "6"@,
        DataBits::Seven => "7"@,
        DataBits::Eight => "8"@,
    }
}

pub open spec fn stop_bits_label(s: StopBits) -> Seq<char> {
    match s {
        StopBits::One => "1"@,
        StopBits::Two => "2"@,
    }
}

impl GuiParity {
    pub fn label(&self) -> (r: String)
        ensures
            r@ == parity_label(self.0),
    {
        match self.0 {
            Parity::NoParity => String::from_str("None"),
            Parity::Odd => String::from_str("Odd"),
            Parity::Even => String::from_str("Even"),
        }
    }
}

impl GuiDataBits {
    pub fn label(&self) -> (r: String)
        ensures
            r@ == data_bits_label(self.0),
    {
        match self.0 {
            DataBits::Five => String::from_str("5"),
            DataBits::Six => String::from_str("6"),
            DataBits::Seven => String::from_str("7"),
            DataBits::Eight => String::from_str("8"),
        }
    }
}

impl GuiStopBits {
    pub fn label(&self) -> (r: String)
        ensures
            r@ == stop_bits_label(self.0),
    {
        match self.0 {
            StopBits::One => String::from_str("1"),
            StopBits::Two => String::from_str("2"),
        }
    }
}

/// The parity whose label is `s`, if any.
pub fn deserialize_parity(s: &String) -> (r: Option<Parity>)
    ensures
        match r {
            Some(p) => parity_label(p) == s@,
            None => forall|p: Parity| parity_label(p) != s@,
        },
{
    if *s == String::from_str("Odd") {
        Some(Parity::Odd)
    } else if *s == String::from_str("Even") {
        Some(Parity::Even)
    } else if *s == String::from_str("None") {
        Some(Parity::NoParity)
    } else {
        None
    }
}

/// The data-bits setting whose label is `s`, if any.
pub fn deserialize_data_bits(s: &String) -> (r: Option<DataBits>)
    ensures
        match r {
            Some(d) => data_bits_label(d) == s@,
            None => forall|d: DataBits| data_bits_label(d) != s@,
        },
{
    if *s == String::from_str("5") {
        Some(DataBits::Five)
    } else if *s == String::from_str("6") {
        Some(DataBits::Six)
    } else if *s == String::from_str("7") {
        Some(DataBits::Seven)
    } else if *s == String::from_str("8") {
        Some(DataBits::Eight)
    } else {
        None
    }
}

/// The stop-bits setting whose label is `s`, if any.
pub fn deserialize_stop_bits(s: &String) -> (r: Option<StopBits>)
    ensures
        match r {
            Some(b) => stop_bits_label(b) == s@,
            None => forall|b: StopBits| stop_bits_label(b) != s@,
        },
{
    if *s == String::from_str("1") {
        Some(StopBits::One)
    } else if *s == String::from_str("2") {
        Some(StopBits::Two)
    } else {
        None
    }
}

/// Parameters of a serial (RTU) transport.
#[derive(Debug)]
pub struct SerialPortParams {
    pub port: String,
    pub baudrate: u32,
    pub parity: Parity,
    pub data_bits: DataBits,
    pub stop_bits: StopBits,
    /// Read timeout, in milliseconds.
    pub timeout_ms: u64,
    pub address: u8,
}

impl SerialPortParams {
    pub open spec fn is_initial(self) -> bool {
        &&& self.port@.len() == 0
        &&& self.baudrate == 115200
        &&& self.parity == Parity::NoParity
        &&& self.data_bits == DataBits::Eight
        &&& self.stop_bits == StopBits::One
        &&& self.timeout_ms == 1000
        &&& self.address == 1
    }

    /// 115200 baud, 8 data bits, no parity, one stop bit, a one-second
    /// timeout, unit 1, no port chosen.
    pub fn new() -> (r: Self)
        ensures
            r.is_initial(),
    {
        SerialPortParams {
            port: String::new(),
            baudrate: 115200,
            parity: Parity::NoParity,
            data_bits: DataBits::Eight,
            stop_bits: StopBits::One,
            timeout_ms: 1000,
            address: 1,
        }
    }
}

impl Default for SerialPortParams {
    fn default() -> (r: Self)
        ensures
            r.is_initial(),
    {
        SerialPortParams::new()
    }
}

impl Clone for SerialPortParams {
    fn clone(&self) -> (r: Self)
        ensures
            r == *self,
    {
        SerialPortParams {
            port: self.port.clone(),
            baudrate: self.baudrate,
            parity: self.parity,
            data_bits: self.data_bits,
            stop_bits: self.stop_bits,
            timeout_ms: self.timeout_ms,
            address: self.address,
        }
    }
}

/// An edit made in the serial-parameters form.
#[derive(Debug, Clone)]
pub enum SerialPortParamsMessage {
    BaudrateChanged(u32),
    ParityChanged(Parity),
    DataBitsChanged(DataBits),
    StopBitsChanged(StopBits),
    /// A new read timeout, in milliseconds.
    TimeoutChanged(u64),
    PortChanged(String),
    AddressChanged(u8),
    Nothing,
}

/// `p` with the edit `ev` made.
pub open spec fn serial_edited(p: SerialPortParams, ev: SerialPortParamsMessage) -> SerialPortParams {
    match ev {
        SerialPortParamsMessage::BaudrateChanged(b) => SerialPortParams { baudrate: b, ..p },
        SerialPortParamsMessage::ParityChanged(x) => SerialPortParams { parity: x, ..p },
        SerialPortParamsMessage::DataBitsChanged(d) => SerialPortParams { data_bits: d, ..p },
        SerialPortParamsMessage::StopBitsChanged(x) => SerialPortParams { stop_bits: x, ..p },
        SerialPortParamsMessage::TimeoutChanged(t) => SerialPortParams { timeout_ms: t, ..p },
        SerialPortParamsMessage::PortChanged(n) => SerialPortParams { port: n, ..p },
        SerialPortParamsMessage::AddressChanged(a) => SerialPortParams { address: a, ..p },
        SerialPortParamsMessage::Nothing => p,
    }
}

/// The serial-parameters form: it holds the parameters being edited and
/// reports each change through `on_change`.
pub struct SerialPortComponent<F> {
    pub params: SerialPortParams,
    pub on_change: F,
}

impl<F> SerialPortComponent<F> {
    pub fn new(params: SerialPortParams, on_change: F) -> (r: Self)
        ensures
            r.params == params,
            r.on_change == on_change,
    {
        SerialPortComponent { params: params, on_change: on_change }
    }

    /// Makes the edit and reports the edited parameters.
    pub fn update<M>(&mut self, event: SerialPortParamsMessage) -> (r: Option<M>) where
        F: Fn(SerialPortParams) -> M,

        requires
            forall|p: SerialPortParams| old(self).on_change.requires((p,)),
        ensures
            final(self).params == serial_edited(old(self).params, event),
            final(self).on_change == old(self).on_change,
            r matches Some(m) && old(self).on_change.ensures((final(self).params,), m),
    {
        match event {
            SerialPortParamsMessage::BaudrateChanged(br) => self.params.baudrate = br,
            SerialPortParamsMessage::ParityChanged(p) => self.params.parity = p,
            SerialPortParamsMessage::DataBitsChanged(db) => self.params.data_bits = db,
            SerialPortParamsMessage::StopBitsChanged(sb) => self.params.stop_bits = sb,
            SerialPortParamsMessage::TimeoutChanged(d) => self.params.timeout_ms = d,
            SerialPortParamsMessage::PortChanged(d) => self.params.port = d,
            SerialPortParamsMessage::AddressChanged(d) => self.params.address = d,
            SerialPortParamsMessage::Nothing => {},
        };
        Some((self.on_change)(self.params.clone()))
    }
}

/// Parameters of a network (TCP) transport.
#[derive(Debug, Clone, Copy)]
pub struct TcpParams {
    pub ip: [u8; 4],
    pub port: u16,
    pub address: u8,
}

impl TcpParams {
    pub fn new(ip: [u8; 4], port: u16, address: u8) -> (r: Self)
        ensures
            r.ip == ip,
            r.port == port,
            r.address == address,
    {
        TcpParams { ip, port, address }
    }
}

/// The parameters handed to the transport when connecting.
#[derive(Debug, Clone)]
pub enum ConnectionParams {
    Serial(SerialPortParams),
    Tcp(TcpParams),
}

impl ConnectionParams {
    /// Serial parameters with their initial settings.
    pub fn new() -> (r: Self)
        ensures
            r matches ConnectionParams::Serial(p) && p.is_initial(),
    {
        ConnectionParams::Serial(SerialPortParams::new())
    }

    /// "SERIAL" or "TCP", after the transport.
    pub fn get_string_option(&self) -> (r: &'static str)
        ensures
            r@ == (if self is Serial {
                "SERIAL"@
            } else {
                "TCP"@
            }),
    {
        match self {
            ConnectionParams::Serial(_p) => "SERIAL",
            ConnectionParams::Tcp(_p) => "TCP",
        }
    }
}

/// An edit made in the network-parameters form.
#[derive(Debug, Clone, PartialEq, Eq, Structural)]
pub enum TcpParamsMessage {
    Ip1Changed(u8),
    Ip2Changed(u8),
    Ip3Changed(u8),
    Ip4Changed(u8),
    AddressChanged(u8),
    PortChanged(u16),
    Nothing,
}

/// `after` is `before` with the edit `ev` made.
pub open spec fn tcp_edited(before: TcpParams, ev: TcpParamsMessage, after: TcpParams) -> bool {
    match ev {
        TcpParamsMessage::Ip1Changed(v) => after.ip@ == before.ip@.update(0, v) && after.port
            == before.port && after.address == before.address,
        TcpParamsMessage::Ip2Changed(v) => after.ip@ == before.ip@.update(1, v) && after.port
            == before.port && after.address == before.address,
        TcpParamsMessage::Ip3Changed(v) => after.ip@ == before.ip@.update(2, v) && after.port
            == before.port && after.address == before.address,
        TcpParamsMessage::Ip4Changed(v) => after.ip@ == before.ip@.update(3, v) && after.port
            == before.port && after.address == before.address,
        TcpParamsMessage::PortChanged(v) => after.ip@ == before.ip@ && after.port == v
            && after.address == before.address,
        TcpParamsMessage::AddressChanged(v) => after.ip@ == before.ip@ && after.port
            == before.port && after.address == v,
        TcpParamsMessage::Nothing => after.ip@ == before.ip@ && after.port == before.port
            && after.address == before.address,
    }
}

/// The network-parameters form: it holds the parameters being edited and
/// reports each change through `on_change`.
pub struct TcpComponent<F> {
    pub params: TcpParams,
    pub on_change: F,
}

impl<F> TcpComponent<F> {
    pub fn new(params: TcpParams, on_change: F) -> (r: Self)
        ensures
            r.params == params,
            r.on_change == on_change,
    {
        TcpComponent { params: params, on_change: on_change }
    }

    /// Makes the edit and reports the edited parameters.
    pub fn update<M>(&mut self, event: TcpParamsMessage) -> (r: Option<M>) where
        F: Fn(TcpParams) -> M,

        requires
            forall|p: TcpParams| old(self).on_change.requires((p,)),
        ensures
            tcp_edited(old(self).params, event, final(self).params),
            final(self).on_change == old(self).on_change,
            r matches Some(m) && old(self).on_change.ensures((final(self).params,), m),
    {
        match event {
            TcpParamsMessage::Ip1Changed(v) => self.params.ip.set(0, v),
            TcpParamsMessage::Ip2Changed(v) => self.params.ip.set(1, v),
            TcpParamsMessage::Ip3Changed(v) => self.params.ip.set(2, v),
            TcpParamsMessage::Ip4Changed(v) => self.params.ip.set(3, v),
            TcpParamsMessage::PortChanged(v) => self.params.port = v,
            TcpParamsMessage::AddressChanged(v) => self.params.address = v,
            TcpParamsMessage::Nothing => {},
        };
        Some((self.on_change)(self.params))
    }
}

} // verus!
