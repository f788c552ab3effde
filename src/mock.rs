//! Simulated devices for bench tests: each answers the request it expects
//! with the frame the real device would send back.
use vstd::prelude::*;

use crate::error::Error;
use crate::power::{float_bits_words, Power, PowerMode};
use crate::protocol::{parse_request_spec, FrameModel, Function, FunctionCode};
use crate::relay::{Relay, RelayMode};
use crate::temperature::{Temperature, TemperatureMode};
use crate::voltage::Voltage;

verus! {

/// A simulated device: the request it expects and the response it gives.
pub trait Mock {
    fn request(&self) -> Function;

    fn response(&self) -> Function;
}

/// The kind of simulated device that answers at an address.
#[derive(Debug, Clone, Copy, PartialEq, Eq, Structural)]
pub enum Slave {
    /// No device.
    Unassigned,
    Temp,
    Relay,
    PowerA,
    PowerB,
    Voltage,
}

impl Slave {
    /// Address 1 is the temperature controller, 2 the relay bank, 3 and 4
    /// the power supplies, and every other address a meter.
    pub fn of_address(address: u8) -> (r: Slave)
        ensures
            address == 1 ==> r == Slave::Temp,
            address == 2 ==> r == Slave::Relay,
            address == 3 ==> r == Slave::PowerA,
            address == 4 ==> r == Slave::PowerB,
            address > 4 || address == 0 ==> r == Slave::Voltage,
    {
        match address {
            1 => Slave::Temp,
            2 => Slave::Relay,
            3 => Slave::PowerA,
            4 => Slave::PowerB,
            _ => Slave::Voltage,
        }
    }
}

/// A copy of a frame.
fn copy_frame(f: &Function) -> (r: Function)
    ensures
        r@ == f@,
{
    Function::new(f.slave(), f.code(), f.data())
}

/// A simulated relay bank holding its mask in `register`.
pub struct RelayMock {
    slave: u8,
    mode: RelayMode,
    req: Option<Function>,
    register: u16,
}

impl RelayMock {
    pub fn new(slave: u8, mode: RelayMode) -> (r: RelayMock)
        ensures
            r.slave() == slave,
            r.mode() == mode,
            r.req() is None,
            r.register() == 0,
    {
        RelayMock { slave, mode, req: None, register: 0 }
    }

    pub closed spec fn slave(&self) -> u8 {
        self.slave
    }

    pub closed spec fn mode(&self) -> RelayMode {
        self.mode
    }

    pub closed spec fn req(&self) -> Option<Function> {
        self.req
    }

    pub closed spec fn register(&self) -> u16 {
        self.register
    }

    /// Records the write request that this mock answers by echoing it.
    pub fn set_req(&mut self, req: Function)
        ensures
            final(self).req() == Some(req),
            final(self).slave() == old(self).slave(),
            final(self).mode() == old(self).mode(),
            final(self).register() == old(self).register(),
    {
        self.req = Some(req);
    }

    /// Sets the mask that a read returns.
    pub fn set_register(&mut self, value: u16)
        ensures
            final(self).register() == value,
            final(self).req() == old(self).req(),
            final(self).slave() == old(self).slave(),
            final(self).mode() == old(self).mode(),
    {
        self.register = value;
    }

    /// The mock for a received request: a read, or a write of the mask,
    /// which becomes the register's new value. A write without a word is
    /// refused.
    pub fn from_request(bytes: &[u8]) -> (r: Result<RelayMock, Error>)
        ensures
            match parse_request_spec(bytes@) {
                Err(e) => r == Err::<RelayMock, Error>(e),
                Ok(f) => if f.code != FunctionCode::ReadHoldingRegisters && f.data.len() == 0 {
                    r == Err::<RelayMock, Error>(Error::DataNull)
                } else {
                    r matches Ok(m) && (m.slave() == f.slave && if f.code
                    == FunctionCode::ReadHoldingRegisters {
                    m.mode() == RelayMode::Read && m.req() is None && m.register() == 0
                } else {
                    &&& m.mode() == RelayMode::ONOFF(0)
                    &&& m.register() == f.data[0]
                    &&& (m.req() matches Some(q) && q@ == f)
                })
                },
            },
    {
        let req = Function::parse_request(bytes)?;
        match req.code() {
            FunctionCode::ReadHoldingRegisters => Ok(RelayMock::new(req.slave(), RelayMode::Read)),
            _ => {
                let data = req.data();
                if data.len() == 0 {
                    return Err(Error::DataNull);
                }
                let value = data[0];
                let mut mock = RelayMock::new(req.slave(), RelayMode::ONOFF(0));
                mock.set_register(value);
                mock.set_req(req);
                Ok(mock)
            },
        }
    }
}

impl Mock for RelayMock {
    fn request(&self) -> Function {
        match &self.req {
            Some(r) => {
                if self.mode == RelayMode::Read {
                    Relay::request(self.slave, &self.mode)
                } else {
                    copy_frame(r)
                }
            },
            None => Relay::request(self.slave, &self.mode),
        }
    }

    fn response(&self) -> Function {
        let (code, _words) = self.mode.params();
        match &self.req {
            Some(r) => {
                if self.mode == RelayMode::Read {
                    Function::new(self.slave, code, vec![self.register])
                } else {
                    copy_frame(r)
                }
            },
            None => Function::new(self.slave, code, vec![self.register]),
        }
    }
}

/// A simulated temperature controller that reads 60.0 degrees.
pub struct TempMock {
    slave: u8,
    mode: TemperatureMode,
    req: Option<Function>,
}

impl TempMock {
    pub fn new(slave: u8, mode: TemperatureMode) -> (r: TempMock)
        ensures
            r.slave() == slave,
            r.mode() == mode,
            r.req() is None,
    {
        TempMock { slave, mode, req: None }
    }

    pub closed spec fn slave(&self) -> u8 {
        self.slave
    }

    pub closed spec fn mode(&self) -> TemperatureMode {
        self.mode
    }

    pub closed spec fn req(&self) -> Option<Function> {
        self.req
    }

    /// Records the write request that this mock answers by echoing it.
    pub fn set_fc(&mut self, req: Function)
        ensures
            final(self).req() == Some(req),
            final(self).slave() == old(self).slave(),
            final(self).mode() == old(self).mode(),
    {
        self.req = Some(req);
    }

    /// The mock for a received request: a read of either temperature, or a
    /// write that is echoed back. A read without a register word is refused.
    pub fn from_request(bytes: &[u8]) -> (r: Result<TempMock, Error>)
        ensures
            match parse_request_spec(bytes@) {
                Err(e) => r == Err::<TempMock, Error>(e),
                Ok(f) => if f.code == FunctionCode::ReadHoldingRegisters && f.data.len() == 0 {
                    r == Err::<TempMock, Error>(Error::DataNull)
                } else if f.code == FunctionCode::ReadHoldingRegisters {
                    r matches Ok(m) && (m.slave() == f.slave && m.req() is None && m.mode() == (
                    if f.data[0] == 10 {
                        TemperatureMode::Temp1
                    } else {
                        TemperatureMode::Temp2
                    }))
                } else if f.code == FunctionCode::WriteSingleRegister {
                    r matches Ok(m) && (m.slave() == f.slave && m.mode() == TemperatureMode::Run(0)
                        && (m.req() matches Some(q) && q@ == f))
                } else {
                    r == Err::<TempMock, Error>(Error::MbParseFail)
                },
            },
    {
        let req = Function::parse_request(bytes)?;
        match req.code() {
            FunctionCode::ReadHoldingRegisters => {
                let data = req.data();
                if data.len() == 0 {
                    return Err(Error::DataNull);
                }
                if data[0] == 10 {
                    Ok(TempMock::new(req.slave(), TemperatureMode::Temp1))
                } else {
                    Ok(TempMock::new(req.slave(), TemperatureMode::Temp2))
                }
            },
            FunctionCode::WriteSingleRegister => {
                let mut mock = TempMock::new(req.slave(), TemperatureMode::Run(0));
                mock.set_fc(req);
                Ok(mock)
            },
            _ => Err(Error::MbParseFail),
        }
    }
}

impl Mock for TempMock {
    fn request(&self) -> Function {
        Temperature::request(self.slave, &self.mode)
    }

    fn response(&self) -> Function {
        let (code, _words) = self.mode.params();
        if code == FunctionCode::ReadHoldingRegisters {
            Function::new(self.slave, code, vec![60 * 10])
        } else {
            match &self.req {
                Some(r) => copy_frame(r),
                None => Temperature::request(self.slave, &self.mode),
            }
        }
    }
}

/// Fifteen (volt, milliamp) pairs of a fixed meter response.
pub open spec fn static_pairs() -> Seq<u16> {
    seq![
        0u16, 0, 10, 10, 20, 20, 30, 30, 40, 40, 50, 50, 0, 10, 20, 40, 50, 0, 0, 0, 25, 10, 0, 0,
        0, 0, 0, 0, 0, 0,
    ]
}

/// Thirty words of a fixed meter response: the voltages of `static_pairs`
/// in millivolts (each fits a word), the currents as they stand.
pub fn static_response() -> (r: Vec<u16>)
    ensures
        r@.len() == 30,
        forall|j: int|
            0 <= j < 30 ==> r@[j] == if j % 2 == 0 {
                (static_pairs()[j] * 1000) as u16
            } else {
                static_pairs()[j]
            },
{
    let pairs: Vec<u16> = vec![
        0, 0, 10, 10, 20, 20, 30, 30, 40, 40, 50, 50, 0, 10, 20, 40, 50, 0, 0, 0, 25, 10, 0, 0, 0, 0, 0, 0, 0, 0,
    ];
    proof {
        assert(pairs@ =~= static_pairs());
    }
    let mut data: Vec<u16> = Vec::new();
    let mut i: usize = 0;
    while i < pairs.len()
        invariant
            i <= pairs@.len(),
            pairs@ == static_pairs(),
            pairs@.len() == 30,
            data@.len() == i,
            forall|j: int|
                0 <= j < i ==> data@[j] == if j % 2 == 0 {
                    (pairs@[j] * 1000) as u16
                } else {
                    pairs@[j]
                },
        decreases pairs@.len() - i,
    {
        let x = pairs[i];
        if i % 2 == 0 {
            data.push((x as u32 * 1000) as u16);
        } else {
            data.push(x);
        }
        i = i + 1;
    }
    data
}

/// A simulated meter that answers with the words it holds.
pub struct VoltageMock {
    slave: u8,
    data: Vec<u16>,
}

impl VoltageMock {
    /// A meter at `slave` that answers with the fixed response.
    pub fn new(slave: u8) -> (r: VoltageMock)
        ensures
            r.slave() == slave,
            r.data().len() == 30,
            forall|j: int|
                0 <= j < 30 ==> r.data()[j] == if j % 2 == 0 {
                    (static_pairs()[j] * 1000) as u16
                } else {
                    static_pairs()[j]
                },
    {
        VoltageMock { slave, data: static_response() }
    }

    /// A meter at `slave` that answers with `data`.
    pub fn with_data(slave: u8, data: Vec<u16>) -> (r: VoltageMock)
        ensures
            r.slave() == slave,
            r.data() == data@,
    {
        VoltageMock { slave, data }
    }

    pub closed spec fn slave(&self) -> u8 {
        self.slave
    }

    pub closed spec fn data(&self) -> Seq<u16> {
        self.data@
    }
}

impl Mock for VoltageMock {
    fn request(&self) -> Function {
        Voltage::request(self.slave)
    }

    fn response(&self) -> Function {
        Function::new(self.slave, FunctionCode::ReadInputRegisters, self.data.clone())
    }
}

/// A simulated power supply whose set point reads as `value`, the bits of
/// a single float.
pub struct PowerMock {
    slave: u8,
    mode: PowerMode,
    value: u32,
}

impl PowerMock {
    pub fn new(slave: u8, mode: PowerMode, value: u32) -> (r: PowerMock)
        ensures
            r.slave() == slave,
            r.mode() == mode,
            r.value() == value,
    {
        PowerMock { slave, mode, value }
    }

    pub closed spec fn slave(&self) -> u8 {
        self.slave
    }

    pub closed spec fn mode(&self) -> PowerMode {
        self.mode
    }

    pub closed spec fn value(&self) -> u32 {
        self.value
    }
}

impl Mock for PowerMock {
    fn request(&self) -> Function {
        Power::request(self.slave, &self.mode)
    }

    fn response(&self) -> Function {
        let (code, _words) = self.mode.params();
        let f = float_bits_words(self.value);
        Function::new(self.slave, code, vec![f[0], f[1]])
    }
}

} // verus!
