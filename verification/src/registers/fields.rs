//! Enumerated values of register fields.
//!
//! Each type lists the codes that the datasheet defines for one field. A code
//! that the datasheet leaves undefined reads as the type's fallback value.

use vstd::prelude::*;

verus! {

/// Device part number.
#[derive(Debug, Clone, Copy, PartialEq, Eq)]
pub enum DevicePartNumber {
    AT86RF215,
    AT86RF215IQ,
    AT86RF215M,
}

impl DevicePartNumber {
    /// The field value that stands for this part.
    pub open spec fn code(self) -> u8 {
        match self {
            Self::AT86RF215 => 0x34,
            Self::AT86RF215IQ => 0x35,
            Self::AT86RF215M => 0x36,
        }
    }

    /// The part that a field value stands for; an undefined value reads as
    /// `AT86RF215`.
    pub open spec fn decode(value: u8) -> Self {
        if value == 0x35 {
            Self::AT86RF215IQ
        } else if value == 0x36 {
            Self::AT86RF215M
        } else {
            Self::AT86RF215
        }
    }

    /// Decoding a part's code gives the part back.
    pub proof fn lemma_decode_code(self)
        ensures
            Self::decode(self.code()) == self,
    {
    }

    /// The field value of `self`.
    pub fn into_bits(self) -> (bits: u8)
        ensures
            bits == self.code(),
    {
        match self {
            Self::AT86RF215 => 0x34,
            Self::AT86RF215IQ => 0x35,
            Self::AT86RF215M => 0x36,
        }
    }

    /// Reads a field value.
    pub fn from_bits(value: u8) -> (part: Self)
        ensures
            part == Self::decode(value),
    {
        match value {
            0x34 => Self::AT86RF215,
            0x35 => Self::AT86RF215IQ,
            0x36 => Self::AT86RF215M,
            _ => Self::AT86RF215,
        }
    }
}

/// Chip reset command.
#[derive(Debug, Clone, Copy, PartialEq, Eq)]
pub enum ChipResetCmd {
    Reset,
}

impl ChipResetCmd {
    /// The field value that stands for this command.
    pub open spec fn code(self) -> u8 {
        0x07
    }

    /// The command that a field value stands for: every value reads as
    /// `Reset`.
    pub open spec fn decode(value: u8) -> Self {
        Self::Reset
    }

    /// Decoding a command's code gives the command back.
    pub proof fn lemma_decode_code(self)
        ensures
            Self::decode(self.code()) == self,
    {
    }

    /// The field value of `self`.
    pub fn into_bits(self) -> (bits: u8)
        ensures
            bits == self.code(),
    {
        0x07
    }

    /// Reads a field value.
    pub fn from_bits(value: u8) -> (cmd: Self)
        ensures
            cmd == Self::decode(value),
    {
        match value {
            0x07 => Self::Reset,
            _ => Self::Reset,
        }
    }
}

/// Transceiver state.
#[derive(Debug, Clone, Copy, PartialEq, Eq)]
pub enum TransceiverState {
    TrxOff,
    TxPrep,
    Tx,
    Rx,
    Transition,
    Reset,
}

impl TransceiverState {
    /// The field value that stands for this state.
    pub open spec fn code(self) -> u8 {
        match self {
            Self::TrxOff => 2,
            Self::TxPrep => 3,
            Self::Tx => 4,
            Self::Rx => 5,
            Self::Transition => 6,
            Self::Reset => 7,
        }
    }

    /// The state that a field value stands for; an undefined value reads as
    /// `TrxOff`.
    pub open spec fn decode(value: u8) -> Self {
        if value == 3 {
            Self::TxPrep
        } else if value == 4 {
            Self::Tx
        } else if value == 5 {
            Self::Rx
        } else if value == 6 {
            Self::Transition
        } else if value == 7 {
            Self::Reset
        } else {
            Self::TrxOff
        }
    }

    /// Decoding a state's code gives the state back.
    pub proof fn lemma_decode_code(self)
        ensures
            Self::decode(self.code()) == self,
    {
    }

    /// The field value of `self`.
    pub fn into_bits(self) -> (bits: u8)
        ensures
            bits == self.code(),
    {
        match self {
            Self::TrxOff => 2,
            Self::TxPrep => 3,
            Self::Tx => 4,
            Self::Rx => 5,
            Self::Transition => 6,
            Self::Reset => 7,
        }
    }

    /// Reads a field value.
    pub fn from_bits(value: u8) -> (state: Self)
        ensures
            state == Self::decode(value),
    {
        match value {
            2 => Self::TrxOff,
            3 => Self::TxPrep,
            4 => Self::Tx,
            5 => Self::Rx,
            6 => Self::Transition,
            7 => Self::Reset,
            _ => Self::TrxOff,
        }
    }
}

/// Transceiver command.
#[derive(Debug, Clone, Copy, PartialEq, Eq)]
pub enum TransceiverCmd {
    Nop,
    Sleep,
    TrxOff,
    TxPrep,
    Tx,
    Rx,
    Reset,
}

impl TransceiverCmd {
    /// The field value that stands for this command.
    pub open spec fn code(self) -> u8 {
        match self {
            Self::Nop => 0,
            Self::Sleep => 1,
            Self::TrxOff => 2,
            Self::TxPrep => 3,
            Self::Tx => 4,
            Self::Rx => 5,
            Self::Reset => 7,
        }
    }

    /// The command that a field value stands for; an undefined value reads
    /// as `Nop`.
    pub open spec fn decode(value: u8) -> Self {
        if value == 1 {
            Self::Sleep
        } else if value == 2 {
            Self::TrxOff
        } else if value == 3 {
            Self::TxPrep
        } else if value == 4 {
            Self::Tx
        } else if value == 5 {
            Self::Rx
        } else if value == 7 {
            Self::Reset
        } else {
            Self::Nop
        }
    }

    /// Decoding a command's code gives the command back.
    pub proof fn lemma_decode_code(self)
        ensures
            Self::decode(self.code()) == self,
    {
    }

    /// The field value of `self`.
    pub fn into_bits(self) -> (bits: u8)
        ensures
            bits == self.code(),
    {
        match self {
            Self::Nop => 0,
            Self::Sleep => 1,
            Self::TrxOff => 2,
            Self::TxPrep => 3,
            Self::Tx => 4,
            Self::Rx => 5,
            Self::Reset => 7,
        }
    }

    /// Reads a field value.
    pub fn from_bits(value: u8) -> (cmd: Self)
        ensures
            cmd == Self::decode(value),
    {
        match value {
            0 => Self::Nop,
            1 => Self::Sleep,
            2 => Self::TrxOff,
            3 => Self::TxPrep,
            4 => Self::Tx,
            5 => Self::Rx,
            7 => Self::Reset,
            _ => Self::Nop,
        }
    }
}

/// Chip operating mode.
#[derive(Debug, Clone, Copy, PartialEq, Eq)]
pub enum ChipMode {
    /// RF enabled, both basebands enabled, I/Q IF disabled
    BasebandMode,
    /// RF enabled, both basebands disabled, I/Q IF enabled
    IqRadioMode,
    /// RF09 I/Q mode, RF24 baseband mode
    Rf09IqRf24Bb,
    /// RF09 baseband mode, RF24 I/Q mode
    Rf09BbRf24Iq,
}

impl ChipMode {
    /// The field value that stands for this mode.
    pub open spec fn code(self) -> u8 {
        match self {
            Self::BasebandMode => 0,
            Self::IqRadioMode => 1,
            Self::Rf09IqRf24Bb => 4,
            Self::Rf09BbRf24Iq => 5,
        }
    }

    /// The mode that a field value stands for; an undefined value reads as
    /// `BasebandMode`.
    pub open spec fn decode(value: u8) -> Self {
        if value == 1 {
            Self::IqRadioMode
        } else if value == 4 {
            Self::Rf09IqRf24Bb
        } else if value == 5 {
            Self::Rf09BbRf24Iq
        } else {
            Self::BasebandMode
        }
    }

    /// Decoding a mode's code gives the mode back.
    pub proof fn lemma_decode_code(self)
        ensures
            Self::decode(self.code()) == self,
    {
    }

    /// The field value of `self`.
    pub fn into_bits(self) -> (bits: u8)
        ensures
            bits == self.code(),
    {
        match self {
            Self::BasebandMode => 0,
            Self::IqRadioMode => 1,
            Self::Rf09IqRf24Bb => 4,
            Self::Rf09BbRf24Iq => 5,
        }
    }

    /// Reads a field value.
    pub fn from_bits(value: u8) -> (mode: Self)
        ensures
            mode == Self::decode(value),
    {
        match value {
            0 => Self::BasebandMode,
            1 => Self::IqRadioMode,
            4 => Self::Rf09IqRf24Bb,
            5 => Self::Rf09BbRf24Iq,
            _ => Self::BasebandMode,
        }
    }
}

/// Energy detection mode.
#[derive(Debug, Clone, Copy, PartialEq, Eq)]
pub enum EnergyDetectionMode {
    /// Automatic trigger when AGC held
    Auto,
    /// Single measurement
    Single,
    /// Continuous measurements
    Continuous,
    /// Disabled
    Off,
}

impl EnergyDetectionMode {
    /// The field value that stands for this mode.
    pub open spec fn code(self) -> u8 {
        match self {
            Self::Auto => 0,
            Self::Single => 1,
            Self::Continuous => 2,
            Self::Off => 3,
        }
    }

    /// The mode that a field value stands for; an undefined value reads as
    /// `Off`.
    pub open spec fn decode(value: u8) -> Self {
        if value == 0 {
            Self::Auto
        } else if value == 1 {
            Self::Single
        } else if value == 2 {
            Self::Continuous
        } else {
            Self::Off
        }
    }

    /// Decoding a mode's code gives the mode back.
    pub proof fn lemma_decode_code(self)
        ensures
            Self::decode(self.code()) == self,
    {
    }

    /// The field value of `self`.
    pub fn into_bits(self) -> (bits: u8)
        ensures
            bits == self.code(),
    {
        match self {
            Self::Auto => 0,
            Self::Single => 1,
            Self::Continuous => 2,
            Self::Off => 3,
        }
    }

    /// Reads a field value.
    pub fn from_bits(value: u8) -> (mode: Self)
        ensures
            mode == Self::decode(value),
    {
        match value {
            0 => Self::Auto,
            1 => Self::Single,
            2 => Self::Continuous,
            3 => Self::Off,
            _ => Self::Off,
        }
    }
}

} // verus!
