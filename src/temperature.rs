//! The dual temperature controller. Temperatures are held in tenths of a degree,
//! as the controller's registers hold them.
use vstd::prelude::*;

use crate::error::Error;
use crate::protocol::{FrameModel, Function, FunctionCode};

verus! {

/// The temperature controller.
pub struct Temperature;

/// What to ask of the controller.
#[derive(Debug, Clone, Copy, PartialEq, Eq, Structural)]
pub enum TemperatureMode {
    /// Read temperature 1.
    Temp1,
    /// Read temperature 2.
    Temp2,
    /// Write set point 1.
    Set1(u16),
    /// Write set point 2.
    Set2(u16),
    /// Write the run state: 0 stop, 1 run, 2 pause.
    Run(u16),
    /// Press key 1: 0 on, 1 off.
    KeyA(u16),
    /// Press key 2: 0 on, 1 off.
    KeyB(u16),
}

/// The function code and the two words of a controller request. An
/// out-of-range run state or key value is sent as 0.
pub open spec fn temperature_params(mode: TemperatureMode) -> (FunctionCode, Seq<u16>) {
    match mode {
        TemperatureMode::Temp1 => (FunctionCode::ReadHoldingRegisters, seq![10u16, 1u16]),
        TemperatureMode::Temp2 => (FunctionCode::ReadHoldingRegisters, seq![14u16, 1u16]),
        TemperatureMode::Set1(n) => (FunctionCode::WriteSingleRegister, seq![60u16, n]),
        TemperatureMode::Set2(n) => (FunctionCode::WriteSingleRegister, seq![61u16, n]),
        TemperatureMode::Run(n) => (
            FunctionCode::WriteSingleRegister,
            seq![63u16, if n < 3 { n } else { 0u16 }],
        ),
        TemperatureMode::KeyA(n) => (
            FunctionCode::WriteSingleRegister,
            seq![46u16, if n < 2 { n } else { 0u16 }],
        ),
        TemperatureMode::KeyB(n) => (
            FunctionCode::WriteSingleRegister,
            seq![47u16, if n < 2 { n } else { 0u16 }],
        ),
    }
}

impl Temperature {
    /// The request that carries out `mode` on the controller at `slave`.
    pub fn request(slave: u8, mode: &TemperatureMode) -> (r: Function)
        ensures
            r@ == (FrameModel {
                slave,
                code: temperature_params(*mode).0,
                data: temperature_params(*mode).1,
            }),
    {
        let (code, words) = mode.params();
        let data: Vec<u16> = vec![words[0], words[1]];
        proof {
            assert(data@ =~= temperature_params(*mode).1);
        }
        Function::new(slave, code, data)
    }
}

impl TemperatureMode {
    /// The function code and the two words (register, value) of the request.
    pub fn params(&self) -> (r: (FunctionCode, [u16; 2]))
        ensures
            r.0 == temperature_params(*self).0,
            r.1@ == temperature_params(*self).1,
    {
        let r = match self {
            TemperatureMode::Temp1 => (FunctionCode::ReadHoldingRegisters, [10, 1]),
            TemperatureMode::Temp2 => (FunctionCode::ReadHoldingRegisters, [14, 1]),
            TemperatureMode::Set1(n) => (FunctionCode::WriteSingleRegister, [60, *n]),
            TemperatureMode::Set2(n) => (FunctionCode::WriteSingleRegister, [61, *n]),
            TemperatureMode::Run(n) => {
                let v = if *n < 3 {
                    *n
                } else {
                    0
                };
                (FunctionCode::WriteSingleRegister, [63, v])
            },
            TemperatureMode::KeyA(n) => {
                let v = if *n < 2 {
                    *n
                } else {
                    0
                };
                (FunctionCode::WriteSingleRegister, [46, v])
            },
            TemperatureMode::KeyB(n) => {
                let v = if *n < 2 {
                    *n
                } else {
                    0
                };
                (FunctionCode::WriteSingleRegister, [47, v])
            },
        };
        proof {
            assert(r.1@ =~= temperature_params(*self).1);
        }
        r
    }
}

/// A temperature in tenths of a degree, at a time in seconds.
#[derive(Debug, Clone, Copy, PartialEq, Eq, Structural)]
pub struct TemperatureData {
    pub time: u64,
    pub value: u16,
}

impl TemperatureData {
    /// Decodes a temperature read, received at `time`: the first word.
    pub fn from_response(response: &Function, time: u64) -> (r: Result<TemperatureData, Error>)
        ensures
            response@.data.len() == 0 ==> r == Err::<TemperatureData, Error>(Error::DataNull),
            response@.data.len() > 0 ==> r == Ok::<TemperatureData, Error>(
                TemperatureData { time, value: response@.data[0] },
            ),
    {
        let data = response.data();
        if data.len() == 0 {
            return Err(Error::DataNull);
        }
        Ok(TemperatureData { time, value: data[0] })
    }
}

} // verus!
