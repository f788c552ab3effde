//! The relay bank: eight outputs held as the low bits of one register.
use vstd::prelude::*;

use crate::error::Error;
use crate::protocol::{FrameModel, Function, FunctionCode};

verus! {

/// The relay bank.
pub struct Relay;

/// What to do with the relay bank.
#[derive(Debug, Clone, Copy, PartialEq, Eq, Structural)]
pub enum RelayMode {
    /// Write the whole mask.
    ONOFF(u16),
    /// Switch one output on: the mask last read, and the output's position.
    ON(u16, u8),
    /// Switch one output off: the mask last read, and the output's position.
    OFF(u16, u8),
    /// Read the mask.
    Read,
}

/// A relay position, limited to the eight outputs.
pub open spec fn clamp_position(position: u8) -> u8 {
    if position > 7 {
        7u8
    } else {
        position
    }
}

/// Whether bit `position` (limited to 0..=7) of `value` is set.
pub open spec fn bit_state(value: u16, position: u8) -> bool {
    value & (1u16 << clamp_position(position)) != 0
}

/// `value` with bit `position` (limited to 0..=7) set or cleared.
pub open spec fn with_bit(value: u16, position: u8, state: bool) -> u16 {
    if state {
        value | (1u16 << clamp_position(position))
    } else {
        value & !(1u16 << clamp_position(position))
    }
}

/// The function code and the two words of a relay request.
pub open spec fn relay_params(mode: RelayMode) -> (FunctionCode, Seq<u16>) {
    match mode {
        RelayMode::ONOFF(n) => (FunctionCode::WriteSingleRegister, seq![0u16, n]),
        RelayMode::Read => (FunctionCode::ReadHoldingRegisters, seq![0u16, 1u16]),
        RelayMode::ON(value, position) => (
            FunctionCode::WriteSingleRegister,
            seq![0u16, with_bit(value, position, true)],
        ),
        RelayMode::OFF(value, position) => (
            FunctionCode::WriteSingleRegister,
            seq![0u16, with_bit(value, position, false)],
        ),
    }
}

impl Relay {
    /// The request that carries out `mode` on the bank at `slave`.
    pub fn request(slave: u8, mode: &RelayMode) -> (r: Function)
        ensures
            r@ == (FrameModel {
                slave,
                code: relay_params(*mode).0,
                data: relay_params(*mode).1,
            }),
    {
        let (code, words) = mode.params();
        let data: Vec<u16> = vec![words[0], words[1]];
        proof {
            assert(data@ =~= relay_params(*mode).1);
        }
        Function::new(slave, code, data)
    }
}

impl RelayMode {
    /// The function code and the two words of the request.
    pub fn params(&self) -> (r: (FunctionCode, [u16; 2]))
        ensures
            r.0 == relay_params(*self).0,
            r.1@ == relay_params(*self).1,
    {
        let r = match self {
            RelayMode::ONOFF(n) => (FunctionCode::WriteSingleRegister, [0, *n]),
            RelayMode::Read => (FunctionCode::ReadHoldingRegisters, [0, 1]),
            RelayMode::ON(value, position) => {
                let bit = RelayData::set_bit(*value, *position, true);
                (FunctionCode::WriteSingleRegister, [0, bit])
            },
            RelayMode::OFF(value, position) => {
                let bit = RelayData::set_bit(*value, *position, false);
                (FunctionCode::WriteSingleRegister, [0, bit])
            },
        };
        proof {
            assert(r.1@ =~= relay_params(*self).1);
        }
        r
    }
}

/// The mask read from the bank, at a time in seconds.
#[derive(Debug, Clone, Copy, PartialEq, Eq, Structural)]
pub struct RelayData {
    pub time: u64,
    pub value: u16,
}

impl RelayData {
    /// Whether output `position` is on; positions above 7 read output 7.
    pub fn get_state(&self, position: u8) -> (r: bool)
        ensures
            r == bit_state(self.value, position),
    {
        let position = if position > 7 {
            7
        } else {
            position
        };
        (self.value & (1u16 << position)) != 0
    }

    /// `value` with output `position` switched to `state`; positions above 7
    /// address output 7.
    pub fn set_bit(value: u16, position: u8, state: bool) -> (r: u16)
        ensures
            r == with_bit(value, position, state),
    {
        let position = if position > 7 {
            7
        } else {
            position
        };
        if state {
            value | (1u16 << position)
        } else {
            value & !(1u16 << position)
        }
    }

    /// Decodes a read of the mask, received at `time`.
    pub fn from_response(response: &Function, time: u64) -> (r: Result<RelayData, Error>)
        ensures
            response@.data.len() == 0 ==> r == Err::<RelayData, Error>(Error::DataNull),
            response@.data.len() > 0 ==> r == Ok::<RelayData, Error>(
                RelayData { time, value: response@.data[0] },
            ),
    {
        let data = response.data();
        if data.len() == 0 {
            return Err(Error::DataNull);
        }
        Ok(RelayData { time, value: data[0] })
    }
}

/// Switching an output sets exactly that output and leaves the others as they were.
pub proof fn lemma_set_bit_get_state(value: u16, position: u8, other: u8, state: bool)
    ensures
        bit_state(with_bit(value, position, state), position) == state,
        clamp_position(other) != clamp_position(position) ==> bit_state(
            with_bit(value, position, state),
            other,
        ) == bit_state(value, other),
{
    let p = clamp_position(position);
    let q = clamp_position(other);
    assert(p <= 7 && q <= 7);
    assert((value | (1u16 << p)) & (1u16 << p) != 0) by (bit_vector)
        requires
            p <= 7,
    ;
    assert((value & !(1u16 << p)) & (1u16 << p) == 0) by (bit_vector)
        requires
            p <= 7,
    ;
    assert(p != q ==> (((value | (1u16 << p)) & (1u16 << q) != 0) == (value & (1u16 << q) != 0)))
        by (bit_vector)
        requires
            p <= 7,
            q <= 7,
    ;
    assert(p != q ==> (((value & !(1u16 << p)) & (1u16 << q) != 0) == (value & (1u16 << q)
        != 0))) by (bit_vector)
        requires
            p <= 7,
            q <= 7,
    ;
}

} // verus!
