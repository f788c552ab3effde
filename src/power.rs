//! The programmable power supply. Its set points are IEEE-754 single floats
//! sent as two registers; here a float is held as its bit pattern.
use vstd::prelude::*;

use crate::error::Error;
use crate::protocol::{FrameModel, Function, FunctionCode};

verus! {

/// The power supply.
pub struct Power;

/// What to ask of the power supply.
#[derive(Debug, Clone, Copy, PartialEq, Eq, Structural)]
pub enum PowerMode {
    /// Read the temperature.
    Temp,
    /// Read the output voltage.
    Voltage,
    /// Read the output current.
    Current,
    /// Read whether the output is on.
    GetOnOff,
    /// Read the voltage set point.
    GetVoltage,
    /// Read the current set point.
    GetCurrent,
    /// Switch the output on remotely.
    SetOnOff,
    /// Write the voltage set point, given as the bits of a single float.
    SetVoltage(u32),
    /// Write the current set point, given as the bits of a single float.
    SetCurrent(u32),
}

/// The high and low halves of a 32-bit pattern, in that order.
pub open spec fn halves(bits: u32) -> Seq<u16> {
    seq![(bits / 0x10000) as u16, (bits % 0x10000) as u16]
}

/// The 32-bit pattern of a high and a low half.
pub open spec fn joined(high: u16, low: u16) -> u32 {
    (high * 0x10000 + low) as u32
}

/// The function code and the words of a power supply request.
pub open spec fn power_params(mode: PowerMode) -> (FunctionCode, Seq<u16>) {
    match mode {
        PowerMode::Temp => (FunctionCode::ReadHoldingRegisters, seq![2u16, 0u16]),
        PowerMode::Voltage => (FunctionCode::ReadHoldingRegisters, seq![4u16, 0u16]),
        PowerMode::Current => (FunctionCode::ReadHoldingRegisters, seq![6u16, 0xC000u16]),
        PowerMode::GetOnOff => (FunctionCode::ReadHoldingRegisters, seq![9u16, 0x0003u16]),
        PowerMode::GetVoltage => (FunctionCode::ReadHoldingRegisters, seq![0x000Au16, 0u16]),
        PowerMode::GetCurrent => (FunctionCode::ReadHoldingRegisters, seq![0x000Cu16, 0u16]),
        PowerMode::SetOnOff => (FunctionCode::WriteMultipleRegisters, seq![9u16, 0x0003u16]),
        PowerMode::SetVoltage(bits) => (
            FunctionCode::WriteMultipleRegisters,
            seq![0x000Au16] + halves(bits),
        ),
        PowerMode::SetCurrent(bits) => (
            FunctionCode::WriteMultipleRegisters,
            seq![0x000Cu16] + halves(bits),
        ),
    }
}

/// Splits the bit pattern of a single float into its big-endian halves.
pub fn float_bits_words(bits: u32) -> (r: [u16; 2])
    ensures
        r@ == halves(bits),
{
    let r = [(bits / 0x10000) as u16, (bits % 0x10000) as u16];
    proof {
        assert(r@ =~= halves(bits));
    }
    r
}

/// Joins big-endian halves into the bit pattern of a single float.
pub fn words_float_bits(high: u16, low: u16) -> (r: u32)
    ensures
        r == joined(high, low),
{
    (high as u32) * 0x10000 + (low as u32)
}

/// Splitting a bit pattern and joining the halves gives it back, and the
/// other way round.
pub proof fn lemma_halves_round_trip(bits: u32, high: u16, low: u16)
    ensures
        joined(halves(bits)[0], halves(bits)[1]) == bits,
        halves(joined(high, low)) == seq![high, low],
{
    assert(halves(joined(high, low)) =~= seq![high, low]);
}

impl Power {
    /// The request that carries out `mode` on the supply at `slave`.
    pub fn request(slave: u8, mode: &PowerMode) -> (r: Function)
        ensures
            r@ == (FrameModel {
                slave,
                code: power_params(*mode).0,
                data: power_params(*mode).1,
            }),
    {
        let (code, data) = mode.params();
        Function::new(slave, code, data)
    }
}

impl PowerMode {
    /// The function code and the words of the request.
    pub fn params(&self) -> (r: (FunctionCode, Vec<u16>))
        ensures
            r.0 == power_params(*self).0,
            r.1@ == power_params(*self).1,
    {
        let r: (FunctionCode, Vec<u16>) = match self {
            PowerMode::Temp => (FunctionCode::ReadHoldingRegisters, vec![2, 0]),
            PowerMode::Voltage => (FunctionCode::ReadHoldingRegisters, vec![4, 0]),
            PowerMode::Current => (FunctionCode::ReadHoldingRegisters, vec![6, 0xC000]),
            PowerMode::GetOnOff => (FunctionCode::ReadHoldingRegisters, vec![9, 0x0003]),
            PowerMode::GetVoltage => (FunctionCode::ReadHoldingRegisters, vec![0x000A, 0]),
            PowerMode::GetCurrent => (FunctionCode::ReadHoldingRegisters, vec![0x000C, 0]),
            PowerMode::SetOnOff => (FunctionCode::WriteMultipleRegisters, vec![9, 0x0003]),
            PowerMode::SetVoltage(n) => {
                let f = float_bits_words(*n);
                (FunctionCode::WriteMultipleRegisters, vec![0x000A, f[0], f[1]])
            },
            PowerMode::SetCurrent(n) => {
                let f = float_bits_words(*n);
                (FunctionCode::WriteMultipleRegisters, vec![0x000C, f[0], f[1]])
            },
        };
        proof {
            assert(r.1@ =~= power_params(*self).1);
        }
        r
    }
}

/// A reading of the supply: the bits of a single float, at a time in seconds.
#[derive(Debug, Clone, Copy, PartialEq, Eq, Structural)]
pub struct PowerData {
    pub time: u64,
    pub value: u32,
}

impl PowerData {
    /// Decodes a reading received at `time`: the first four payload bytes,
    /// big-endian, are the float.
    pub fn from_response(response: &Function, time: u64) -> (r: Result<PowerData, Error>)
        ensures
            response@.data.len() < 2 ==> r == Err::<PowerData, Error>(Error::DataNull),
            response@.data.len() >= 2 ==> r == Ok::<PowerData, Error>(
                PowerData { time, value: joined(response@.data[0], response@.data[1]) },
            ),
    {
        let data = response.data();
        if data.len() < 2 {
            return Err(Error::DataNull);
        }
        Ok(PowerData { time, value: words_float_bits(data[0], data[1]) })
    }
}

} // verus!
