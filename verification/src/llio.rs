//! Plain data types used by clients of the low-level I/O service: wire codes
//! for a few hardware settings and the fixed-width record of one I2C bus
//! transaction. The codes travel as scalar message arguments, so each type
//! converts to and from a word-sized code.

use vstd::prelude::*;

verus! {

/// Which UART the hardware mux routes to the serial port.
#[derive(Clone, Copy, Debug, PartialEq, Eq, Structural)]
pub enum UartType {
    Kernel,
    Log,
    Application,
    Invalid,
}

impl UartType {
    /// Decodes a scalar-message argument; any unknown code is `Invalid`.
    pub fn from_code(code: usize) -> (r: UartType)
        ensures
            r == (match code {
                0usize => UartType::Kernel,
                1usize => UartType::Log,
                2usize => UartType::Application,
                _ => UartType::Invalid,
            }),
    {
        match code {
            0 => UartType::Kernel,
            1 => UartType::Log,
            2 => UartType::Application,
            _ => UartType::Invalid,
        }
    }

    /// The scalar-message argument that stands for this selection.
    pub fn to_code(self) -> (r: usize)
        ensures
            r == (match self {
                UartType::Kernel => 0usize,
                UartType::Log => 1usize,
                UartType::Application => 2usize,
                UartType::Invalid => 3usize,
            }),
    {
        match self {
            UartType::Kernel => 0,
            UartType::Log => 1,
            UartType::Application => 2,
            UartType::Invalid => 3,
        }
    }

    /// The bitmask value written to the hardware mux register.
    pub fn to_hw_code(self) -> (r: u32)
        ensures
            r == (match self {
                UartType::Kernel => 0u32,
                UartType::Log => 1u32,
                UartType::Application => 2u32,
                UartType::Invalid => 3u32,
            }),
    {
        match self {
            UartType::Kernel => 0,
            UartType::Log => 1,
            UartType::Application => 2,
            UartType::Invalid => 3,
        }
    }
}

/// Vibration motor patterns.
#[derive(Clone, Copy, Debug, PartialEq, Eq, Structural)]
pub enum VibePattern {
    Short,
    Long,
    Double,
}

impl VibePattern {
    /// Decodes a scalar-message argument; any unknown code is `Short`.
    pub fn from_code(code: usize) -> (r: VibePattern)
        ensures
            r == (match code {
                0usize => VibePattern::Long,
                1usize => VibePattern::Double,
                _ => VibePattern::Short,
            }),
    {
        match code {
            0 => VibePattern::Long,
            1 => VibePattern::Double,
            _ => VibePattern::Short,
        }
    }

    /// The scalar-message argument that stands for this pattern.
    pub fn to_code(self) -> (r: usize)
        ensures
            r == (match self {
                VibePattern::Long => 0usize,
                VibePattern::Double => 1usize,
                VibePattern::Short => 0xffff_ffffusize,
            }),
    {
        match self {
            VibePattern::Long => 0,
            VibePattern::Double => 1,
            VibePattern::Short => 0xffff_ffff,
        }
    }
}

/// Coarse clock-gating mode of the system clock generator.
#[derive(Clone, Copy, Debug, PartialEq, Eq, Structural)]
pub enum ClockMode {
    Low,
    AllOn,
}

impl ClockMode {
    /// Decodes a scalar-message argument; any non-zero code is `AllOn`.
    pub fn from_code(code: usize) -> (r: ClockMode)
        ensures
            r == (if code == 0 {
                ClockMode::Low
            } else {
                ClockMode::AllOn
            }),
    {
        match code {
            0 => ClockMode::Low,
            _ => ClockMode::AllOn,
        }
    }

    /// The scalar-message argument that stands for this mode.
    pub fn to_code(self) -> (r: usize)
        ensures
            r == (match self {
                ClockMode::Low => 0usize,
                ClockMode::AllOn => 0xffff_ffffusize,
            }),
    {
        match self {
            ClockMode::Low => 0,
            ClockMode::AllOn => 0xffff_ffff,
        }
    }
}

/// Total packet length of one I2C transaction record, write and read
/// addresses included.
pub const I2C_PACKET_LEN: usize = 258;

/// One I2C bus transaction: target bus address, the packet bytes, and how
/// many of them are meaningful. Read or write direction travels beside the
/// record, not in it.
#[derive(Clone, Copy, Debug)]
pub struct I2cTransaction {
    pub bus_addr: u8,
    pub packet: [u8; 258],
    pub length: u8,
}

impl I2cTransaction {
    /// An all-zero transaction record, ready to be filled in.
    pub fn new() -> (r: I2cTransaction)
        ensures
            r.bus_addr == 0,
            r.length == 0,
            forall|i: int| 0 <= i < I2C_PACKET_LEN ==> r.packet[i] == 0,
    {
        I2cTransaction { bus_addr: 0, packet: [0; 258], length: 0 }
    }
}

/// Bookkeeping for writing an `I2cTransaction` into an archive: the position
/// of the record's bytes within the archive being built.
#[derive(Clone, Copy, Debug, PartialEq, Eq, Structural)]
pub struct I2cTransactionResolver {
    pub bytes_pos: usize,
}

} // verus!
