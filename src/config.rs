//! Settings of the rig: serial ports, devices, defect rules and history.
use vstd::prelude::*;

use crate::protocol::default_port_name;
use crate::voltage::Verify;

verus! {

/// The baud rates that the serial ports accept.
#[derive(Debug, Clone, Copy, PartialEq, Eq, Structural)]
pub enum Baudrate {
    R1200,
    R2400,
    R4800,
    R9600,
    R19200,
    R38400,
    R57600,
    R115200,
}

/// The rate in bits per second.
pub open spec fn baud_value(b: Baudrate) -> u32 {
    match b {
        Baudrate::R1200 => 1200,
        Baudrate::R2400 => 2400,
        Baudrate::R4800 => 4800,
        Baudrate::R9600 => 9600,
        Baudrate::R19200 => 19200,
        Baudrate::R38400 => 38400,
        Baudrate::R57600 => 57600,
        Baudrate::R115200 => 115200,
    }
}

/// The rate for a number of bits per second; 9600 for one not offered.
pub open spec fn baud_of(value: u32) -> Baudrate {
    if value == 1200 {
        Baudrate::R1200
    } else if value == 2400 {
        Baudrate::R2400
    } else if value == 4800 {
        Baudrate::R4800
    } else if value == 19200 {
        Baudrate::R19200
    } else if value == 38400 {
        Baudrate::R38400
    } else if value == 57600 {
        Baudrate::R57600
    } else if value == 115200 {
        Baudrate::R115200
    } else {
        Baudrate::R9600
    }
}

impl Default for Baudrate {
    fn default() -> (r: Baudrate)
        ensures
            r == Baudrate::R9600,
    {
        Baudrate::R9600
    }
}

impl Baudrate {
    /// The rate in bits per second.
    pub fn value(self) -> (r: u32)
        ensures
            r == baud_value(self),
    {
        match self {
            Baudrate::R1200 => 1200,
            Baudrate::R2400 => 2400,
            Baudrate::R4800 => 4800,
            Baudrate::R9600 => 9600,
            Baudrate::R19200 => 19200,
            Baudrate::R38400 => 38400,
            Baudrate::R57600 => 57600,
            Baudrate::R115200 => 115200,
        }
    }

    /// The rate for `value` bits per second; 9600 for a rate not offered.
    pub fn from_value(value: u32) -> (r: Baudrate)
        ensures
            r == baud_of(value),
    {
        match value {
            1200 => Baudrate::R1200,
            2400 => Baudrate::R2400,
            4800 => Baudrate::R4800,
            19200 => Baudrate::R19200,
            38400 => Baudrate::R38400,
            57600 => Baudrate::R57600,
            115200 => Baudrate::R115200,
            _ => Baudrate::R9600,
        }
    }
}

/// Every offered rate survives the trip through its number.
pub proof fn lemma_baud_round_trip(b: Baudrate)
    ensures
        baud_of(baud_value(b)) == b,
{
}

/// A serial port: a display name, the device path and the rate.
#[derive(Debug, Clone)]
pub struct SerialPortConfig {
    pub name: String,
    pub port: String,
    pub baudrate: Baudrate,
}

impl Default for SerialPortConfig {
    fn default() -> (r: SerialPortConfig)
        ensures
            r.name@ == Seq::<char>::empty(),
            r.port@ == "/dev/ttyUSB0"@,
            r.baudrate == Baudrate::R9600,
    {
        SerialPortConfig { name: String::new(), port: default_port_name(), baudrate: Baudrate::R9600 }
    }
}

/// The meter bank of one side: its port, its range of slave addresses and
/// its pass/fail bounds.
#[derive(Debug, Clone)]
pub struct VoltageConfig {
    pub name: String,
    pub serial_port: SerialPortConfig,
    pub slave_start: u8,
    pub slave_end: u8,
    pub verify: Verify,
}

/// The temperature controller.
#[derive(Debug, Clone)]
pub struct TemperatureConfig {
    pub name: String,
    pub serial_port: SerialPortConfig,
    pub slave: u8,
}

/// The relay bank.
#[derive(Debug, Clone)]
pub struct RelayConfig {
    pub name: String,
    pub serial_port: SerialPortConfig,
    pub slave: u8,
}

/// A power supply.
#[derive(Debug, Clone)]
pub struct PowerConfig {
    pub name: String,
    pub serial_port: SerialPortConfig,
    pub slave: u8,
}

/// How defects are judged: on each reading, or over a window of `dur` seconds.
#[derive(Debug, Clone, Copy, PartialEq, Eq, Structural)]
pub struct DefectiveConfig {
    pub rule: DefectiveRule,
    pub dur: u64,
}

#[derive(Debug, Clone, Copy, PartialEq, Eq, Structural)]
pub enum DefectiveRule {
    RealTime,
    InTime,
}

impl Default for DefectiveRule {
    fn default() -> (r: DefectiveRule)
        ensures
            r == DefectiveRule::RealTime,
    {
        DefectiveRule::RealTime
    }
}

impl DefectiveRule {
    /// The rule's name as shown to the operator.
    pub fn title(self) -> (r: String)
        ensures
            self == DefectiveRule::RealTime ==> r@ == "实时"@,
            self == DefectiveRule::InTime ==> r@ == "时间段"@,
    {
        match self {
            DefectiveRule::RealTime => {
                proof {
                    reveal_strlit("实时");
                }
                "实时".to_string()
            },
            DefectiveRule::InTime => {
                proof {
                    reveal_strlit("时间段");
                }
                "时间段".to_string()
            },
        }
    }
}

/// How history is kept: the logging period and the delay before defect
/// counting, in seconds, and where exports go.
#[derive(Debug, Clone)]
pub struct HistoryConfig {
    pub log_dur: u32,
    pub defective_lazy_dur: u32,
    pub export_dir: String,
}

} // verus!
