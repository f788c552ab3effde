//! The colour palette of the operator screens, and the colour of each
//! channel state.
use vstd::prelude::*;

use crate::voltage::VoltageState;

verus! {

#[derive(Debug, Clone, Copy, PartialEq, Eq, Structural)]
pub enum ColorPlate {
    Bg,
    Black,
    White,
    Grey,
    Grey8,
    Red,
    Blue,
    Yellow,
    Green,
    Puple,
    Cyan,
    LightGreen,
    LightBlue,
    Amber,
    Teal,
}

/// The colour that shows a channel state.
pub open spec fn state_color(state: VoltageState) -> ColorPlate {
    match state {
        VoltageState::NoConnected => ColorPlate::Grey,
        VoltageState::Vacancy => ColorPlate::White,
        VoltageState::Qualified => ColorPlate::Green,
        VoltageState::UnderVoltage => ColorPlate::Red,
        VoltageState::UnderCurrent => ColorPlate::Yellow,
        VoltageState::OverVoltage => ColorPlate::Blue,
        VoltageState::OverCurrent => ColorPlate::Puple,
        VoltageState::NoOutput => ColorPlate::Cyan,
    }
}

/// The red, green, blue and alpha bytes of a palette colour.
pub open spec fn plate_rgba(c: ColorPlate) -> (u8, u8, u8, u8) {
    match c {
        ColorPlate::Bg => (236, 239, 241, 255),
        ColorPlate::Black => (33, 33, 33, 255),
        ColorPlate::White => (250, 250, 250, 255),
        ColorPlate::Grey => (158, 158, 158, 255),
        ColorPlate::Grey8 => (66, 66, 66, 255),
        ColorPlate::Red => (244, 67, 54, 255),
        ColorPlate::Blue => (33, 150, 243, 255),
        ColorPlate::Yellow => (255, 235, 59, 255),
        ColorPlate::Green => (76, 175, 80, 255),
        ColorPlate::Puple => (156, 39, 176, 255),
        ColorPlate::Cyan => (0, 188, 212, 255),
        ColorPlate::LightGreen => (139, 195, 74, 255),
        ColorPlate::LightBlue => (3, 169, 244, 255),
        ColorPlate::Amber => (255, 193, 7, 255),
        ColorPlate::Teal => (0, 150, 136, 255),
    }
}

impl Default for ColorPlate {
    fn default() -> (r: ColorPlate)
        ensures
            r == ColorPlate::White,
    {
        ColorPlate::White
    }
}

impl ColorPlate {
    /// The colour that shows `state`.
    pub fn from_state(state: VoltageState) -> (r: ColorPlate)
        ensures
            r == state_color(state),
    {
        match state {
            VoltageState::NoConnected => ColorPlate::Grey,
            VoltageState::Vacancy => ColorPlate::White,
            VoltageState::Qualified => ColorPlate::Green,
            VoltageState::UnderVoltage => ColorPlate::Red,
            VoltageState::UnderCurrent => ColorPlate::Yellow,
            VoltageState::OverVoltage => ColorPlate::Blue,
            VoltageState::OverCurrent => ColorPlate::Puple,
            VoltageState::NoOutput => ColorPlate::Cyan,
        }
    }

    /// The red, green, blue and alpha bytes.
    pub fn rgba(self) -> (r: (u8, u8, u8, u8))
        ensures
            r == plate_rgba(self),
    {
        match self {
            ColorPlate::Bg => (236, 239, 241, 255),
            ColorPlate::Black => (33, 33, 33, 255),
            ColorPlate::White => (250, 250, 250, 255),
            ColorPlate::Grey => (158, 158, 158, 255),
            ColorPlate::Grey8 => (66, 66, 66, 255),
            ColorPlate::Red => (244, 67, 54, 255),
            ColorPlate::Blue => (33, 150, 243, 255),
            ColorPlate::Yellow => (255, 235, 59, 255),
            ColorPlate::Green => (76, 175, 80, 255),
            ColorPlate::Puple => (156, 39, 176, 255),
            ColorPlate::Cyan => (0, 188, 212, 255),
            ColorPlate::LightGreen => (139, 195, 74, 255),
            ColorPlate::LightBlue => (3, 169, 244, 255),
            ColorPlate::Amber => (255, 193, 7, 255),
            ColorPlate::Teal => (0, 150, 136, 255),
        }
    }
}

/// Distinct states get distinct colours.
pub proof fn lemma_state_colors_distinct(a: VoltageState, b: VoltageState)
    ensures
        a != b ==> state_color(a) != state_color(b),
{
}

} // verus!
