//! The voltage/current meter bank: its request, the decoding of its fifteen
//! channel pairs, and the threshold classification of a channel.
//!
//! Voltages are held in microvolts and currents in microamps: the meter
//! reports millivolts and milliamps, and averages need finer steps.
use vstd::prelude::*;

use crate::error::Error;
use crate::protocol::{Function, FrameModel, FunctionCode};

verus! {

/// Channels on one meter.
pub const VOLTAGE_CHANNEL: usize = 15;

/// Data words in one meter response: a voltage and a current per channel.
pub const VOLTAGE_WORDS: usize = 30;

/// The meter bank.
pub struct Voltage;

impl Voltage {
    /// Reads the thirty input registers from address zero.
    pub fn request(slave: u8) -> (r: Function)
        ensures
            r@ == (FrameModel {
                slave,
                code: FunctionCode::ReadInputRegisters,
                data: seq![0x00u16, 0x1Eu16],
            }),
    {
        let params: Vec<u16> = vec![0x00, 0x1E];
        proof {
            assert(params@ =~= seq![0x00u16, 0x1Eu16]);
        }
        Function::new(slave, FunctionCode::ReadInputRegisters, params)
    }
}

/// The state of a channel.
#[derive(Debug, Clone, Copy, Default, PartialEq, Eq, Structural)]
pub enum VoltageState {
    #[default]
    NoConnected,
    Vacancy,
    Qualified,
    UnderVoltage,
    OverVoltage,
    UnderCurrent,
    OverCurrent,
    NoOutput,
}

/// Pass/fail bounds: voltages in microvolts, currents in microamps.
#[derive(Debug, Clone, Copy, PartialEq, Eq, Structural)]
pub struct Verify {
    pub voltage_top: u32,
    pub voltage_down: u32,
    pub current_top: u32,
    pub current_down: u32,
}

impl Default for Verify {
    /// 25 V and 1 V for the voltage, 10 A and 1 A for the current.
    fn default() -> (r: Verify)
        ensures
            r == (Verify {
                voltage_top: 25_000_000,
                voltage_down: 1_000_000,
                current_top: 10_000_000,
                current_down: 1_000_000,
            }),
    {
        Verify {
            voltage_top: 25_000_000,
            voltage_down: 1_000_000,
            current_top: 10_000_000,
            current_down: 1_000_000,
        }
    }
}

/// One channel: its index, voltage (µV), current (µA) and state.
#[derive(Debug, Clone, Copy, PartialEq, Eq, Structural)]
pub struct VoltageChannel {
    pub index: usize,
    pub voltage: u32,
    pub current: u32,
    pub state: VoltageState,
}

/// The three-way test of a value against its bounds.
pub open spec fn band_state(
    v: u32,
    down: u32,
    top: u32,
    under: VoltageState,
    over: VoltageState,
) -> VoltageState {
    if down <= v && v <= top {
        VoltageState::Qualified
    } else if v < down && v > 0 {
        under
    } else if v > top {
        over
    } else {
        VoltageState::NoOutput
    }
}

pub open spec fn voltage_state(voltage: u32, verify: Verify) -> VoltageState {
    band_state(
        voltage,
        verify.voltage_down,
        verify.voltage_top,
        VoltageState::UnderVoltage,
        VoltageState::OverVoltage,
    )
}

pub open spec fn current_state(current: u32, verify: Verify) -> VoltageState {
    band_state(
        current,
        verify.current_down,
        verify.current_top,
        VoltageState::UnderCurrent,
        VoltageState::OverCurrent,
    )
}

/// The state of a reading: a voltage fault wins over a current fault.
pub open spec fn mb_state(voltage: u32, current: u32, verify: Verify) -> VoltageState {
    if voltage_state(voltage, verify) != VoltageState::Qualified {
        voltage_state(voltage, verify)
    } else {
        current_state(current, verify)
    }
}

/// The voltage state of a channel.
pub fn get_voltage_state(data: &VoltageChannel, verify: &Verify) -> (r: VoltageState)
    ensures
        r == voltage_state(data.voltage, *verify),
{
    let v = data.voltage;
    if v >= verify.voltage_down && v <= verify.voltage_top {
        VoltageState::Qualified
    } else if v < verify.voltage_down && v > 0 {
        VoltageState::UnderVoltage
    } else if v > verify.voltage_top {
        VoltageState::OverVoltage
    } else {
        VoltageState::NoOutput
    }
}

/// The current state of a channel.
pub fn get_current_state(data: &VoltageChannel, verify: &Verify) -> (r: VoltageState)
    ensures
        r == current_state(data.current, *verify),
{
    let i = data.current;
    if i >= verify.current_down && i <= verify.current_top {
        VoltageState::Qualified
    } else if i < verify.current_down && i > 0 {
        VoltageState::UnderCurrent
    } else if i > verify.current_top {
        VoltageState::OverCurrent
    } else {
        VoltageState::NoOutput
    }
}

/// The state of a channel, the voltage taking precedence.
pub fn get_mb_state(data: &VoltageChannel, verify: &Verify) -> (r: VoltageState)
    ensures
        r == mb_state(data.voltage, data.current, *verify),
{
    let state_voltage = get_voltage_state(data, verify);
    let state_current = get_current_state(data, verify);
    if state_voltage != VoltageState::Qualified {
        state_voltage
    } else {
        state_current
    }
}

impl VoltageChannel {
    /// Sets the state from the channel's own voltage and current.
    pub fn set_state(&mut self, verify: &Verify)
        ensures
            final(self).index == old(self).index,
            final(self).voltage == old(self).voltage,
            final(self).current == old(self).current,
            final(self).state == mb_state(old(self).voltage, old(self).current, *verify),
    {
        self.state = get_mb_state(self, verify);
    }
}

/// One meter's reading of all its channels, at a time in seconds.
#[derive(Debug, Clone)]
pub struct VoltageData {
    pub time: u64,
    pub slave: u8,
    pub data: Vec<VoltageChannel>,
}

/// Channel `i` as decoded from the raw words: millivolts and milliamps scaled
/// to micro units, state `Qualified` until classified.
pub open spec fn decoded_channel(words: Seq<u16>, i: int) -> VoltageChannel {
    VoltageChannel {
        index: i as usize,
        voltage: (words[2 * i] * 1000) as u32,
        current: (words[2 * i + 1] * 1000) as u32,
        state: VoltageState::Qualified,
    }
}

impl VoltageData {
    pub fn new(time: u64, slave: u8, data: Vec<VoltageChannel>) -> (r: VoltageData)
        ensures
            r.time == time,
            r.slave == slave,
            r.data@ == data@,
    {
        VoltageData { time, slave, data }
    }

    pub fn set_slave(&mut self, slave: u8)
        ensures
            final(self).slave == slave,
            final(self).time == old(self).time,
            final(self).data@ == old(self).data@,
    {
        self.slave = slave;
    }

    pub fn set_time(&mut self, time: u64)
        ensures
            final(self).time == time,
            final(self).slave == old(self).slave,
            final(self).data@ == old(self).data@,
    {
        self.time = time;
    }

    /// The fifteen channels of the first thirty words, taken at `time`.
    pub fn from_words(words: &Vec<u16>, time: u64, slave: u8) -> (r: VoltageData)
        requires
            words@.len() >= VOLTAGE_WORDS,
        ensures
            r.time == time,
            r.slave == slave,
            r.data@.len() == VOLTAGE_CHANNEL,
            forall|i: int| 0 <= i < VOLTAGE_CHANNEL ==> r.data@[i] == decoded_channel(words@, i),
    {
        let mut data: Vec<VoltageChannel> = Vec::new();
        let mut i: usize = 0;
        while i < VOLTAGE_CHANNEL
            invariant
                i <= VOLTAGE_CHANNEL,
                words@.len() >= VOLTAGE_WORDS,
                data@.len() == i,
                forall|j: int| 0 <= j < i ==> data@[j] == decoded_channel(words@, j),
            decreases VOLTAGE_CHANNEL - i,
        {
            let v = words[2 * i] as u32;
            let c = words[2 * i + 1] as u32;
            data.push(
                VoltageChannel {
                    index: i,
                    voltage: v * 1000,
                    current: c * 1000,
                    state: VoltageState::Qualified,
                },
            );
            i = i + 1;
        }
        VoltageData { time, slave, data }
    }

    /// Decodes a meter response received at `time`.
    pub fn from_response(response: &Function, time: u64) -> (r: Result<VoltageData, Error>)
        ensures
            response@.data.len() == 0 ==> r == Err::<VoltageData, Error>(Error::DataNull),
            0 < response@.data.len() < VOLTAGE_WORDS ==> r == Err::<VoltageData, Error>(
                Error::DataLenError,
            ),
            response@.data.len() >= VOLTAGE_WORDS ==> r.is_ok(),
            r matches Ok(d) ==> {
                &&& d.time == time
                &&& d.slave == response@.slave
                &&& d.data@.len() == VOLTAGE_CHANNEL
                &&& forall|i: int|
                    0 <= i < VOLTAGE_CHANNEL ==> d.data@[i] == decoded_channel(response@.data, i)
            },
    {
        let words = response.data();
        if words.len() == 0 {
            return Err(Error::DataNull);
        }
        if words.len() < VOLTAGE_WORDS {
            return Err(Error::DataLenError);
        }
        Ok(VoltageData::from_words(&words, time, response.slave()))
    }

    /// Moves the channels of the meter at position `index` of its bank into
    /// the bank's channel space: each channel index grows by `index * 15`.
    pub fn update_channel_index(&mut self, index: usize)
        requires
            forall|j: int|
                0 <= j < old(self).data@.len() ==> old(self).data@[j].index + index
                    * VOLTAGE_CHANNEL <= usize::MAX,
        ensures
            final(self).time == old(self).time,
            final(self).slave == old(self).slave,
            final(self).data@.len() == old(self).data@.len(),
            forall|j: int|
                0 <= j < old(self).data@.len() ==> final(self).data@[j] == (VoltageChannel {
                    index: (old(self).data@[j].index + index * VOLTAGE_CHANNEL) as usize,
                    ..old(self).data@[j]
                }),
    {
        let n = self.data.len();
        let mut j: usize = 0;
        while j < n
            invariant
                n == self.data@.len(),
                n == old(self).data@.len(),
                j <= n,
                self.time == old(self).time,
                self.slave == old(self).slave,
                forall|k: int|
                    0 <= k < n ==> old(self).data@[k].index + index * VOLTAGE_CHANNEL <= usize::MAX,
                forall|k: int|
                    0 <= k < j ==> self.data@[k] == (VoltageChannel {
                        index: (old(self).data@[k].index + index * VOLTAGE_CHANNEL) as usize,
                        ..old(self).data@[k]
                    }),
                forall|k: int| j <= k < n ==> self.data@[k] == old(self).data@[k],
            decreases n - j,
        {
            let mut c = self.data[j];
            proof {
                assert(old(self).data@[j as int].index + index * VOLTAGE_CHANNEL <= usize::MAX);
            }
            c.index = c.index + index * VOLTAGE_CHANNEL;
            self.data.set(j, c);
            j = j + 1;
        }
    }

    /// Classifies every channel against `verify`.
    pub fn update_channel_state(&mut self, verify: &Verify)
        ensures
            final(self).time == old(self).time,
            final(self).slave == old(self).slave,
            final(self).data@.len() == old(self).data@.len(),
            forall|j: int|
                0 <= j < old(self).data@.len() ==> final(self).data@[j] == (VoltageChannel {
                    state: mb_state(old(self).data@[j].voltage, old(self).data@[j].current, *verify),
                    ..old(self).data@[j]
                }),
    {
        let n = self.data.len();
        let mut j: usize = 0;
        while j < n
            invariant
                n == self.data@.len(),
                n == old(self).data@.len(),
                j <= n,
                self.time == old(self).time,
                self.slave == old(self).slave,
                forall|k: int|
                    0 <= k < j ==> self.data@[k] == (VoltageChannel {
                        state: mb_state(old(self).data@[k].voltage, old(self).data@[k].current, *verify),
                        ..old(self).data@[k]
                    }),
                forall|k: int| j <= k < n ==> self.data@[k] == old(self).data@[k],
            decreases n - j,
        {
            let mut c = self.data[j];
            c.set_state(verify);
            self.data.set(j, c);
            j = j + 1;
        }
    }
}

/// The state that a reading gets is `Qualified` exactly when both values lie
/// within their bounds, and a voltage fault is always the one reported.
pub proof fn lemma_state_precedence(voltage: u32, current: u32, verify: Verify)
    ensures
        (mb_state(voltage, current, verify) == VoltageState::Qualified) <==> (verify.voltage_down
            <= voltage <= verify.voltage_top && verify.current_down <= current
            <= verify.current_top),
        voltage_state(voltage, verify) != VoltageState::Qualified ==> mb_state(
            voltage,
            current,
            verify,
        ) == voltage_state(voltage, verify),
{
}

} // verus!
