//! Command codec: the closed set of sensor commands, their numeric
//! identifiers for UI round-tripping, and the exact bytes sent on the wire.

use vstd::prelude::*;

verus! {

/// One of the seven standard baud rates the sensor supports.
///
/// Constructed only by lookup from an ordinal storage code (0-6) or from the
/// real bits-per-second value; any other value is rejected with the offending
/// value as the error payload.
#[derive(Clone, Copy, Debug, PartialEq, Eq, Structural)]
pub enum BaudRate {
    Baud1200,
    Baud2400,
    Baud4800,
    Baud9600,
    Baud19200,
    Baud38400,
    Baud57600,
}

/// Ordinal storage code of a baud rate (0-6).
pub open spec fn baud_ordinal(b: BaudRate) -> u8 {
    match b {
        BaudRate::Baud1200 => 0,
        BaudRate::Baud2400 => 1,
        BaudRate::Baud4800 => 2,
        BaudRate::Baud9600 => 3,
        BaudRate::Baud19200 => 4,
        BaudRate::Baud38400 => 5,
        BaudRate::Baud57600 => 6,
    }
}

/// Real bits-per-second value of a baud rate.
pub open spec fn baud_bps(b: BaudRate) -> u16 {
    match b {
        BaudRate::Baud1200 => 1200,
        BaudRate::Baud2400 => 2400,
        BaudRate::Baud4800 => 4800,
        BaudRate::Baud9600 => 9600,
        BaudRate::Baud19200 => 19200,
        BaudRate::Baud38400 => 38400,
        BaudRate::Baud57600 => 57600,
    }
}

/// Lookup of a baud rate from either its ordinal code or its real rate;
/// every other value is rejected and handed back unchanged.
pub open spec fn baud_lookup(value: u16) -> Result<BaudRate, u16> {
    if value == 0 || value == 1200 {
        Ok(BaudRate::Baud1200)
    } else if value == 1 || value == 2400 {
        Ok(BaudRate::Baud2400)
    } else if value == 2 || value == 4800 {
        Ok(BaudRate::Baud4800)
    } else if value == 3 || value == 9600 {
        Ok(BaudRate::Baud9600)
    } else if value == 4 || value == 19200 {
        Ok(BaudRate::Baud19200)
    } else if value == 5 || value == 38400 {
        Ok(BaudRate::Baud38400)
    } else if value == 6 || value == 57600 {
        Ok(BaudRate::Baud57600)
    } else {
        Err(value)
    }
}

impl BaudRate {
    /// The ordinal storage code (0-6).
    pub fn code(self) -> (r: u8)
        ensures
            r == baud_ordinal(self),
    {
        match self {
            BaudRate::Baud1200 => 0,
            BaudRate::Baud2400 => 1,
            BaudRate::Baud4800 => 2,
            BaudRate::Baud9600 => 3,
            BaudRate::Baud19200 => 4,
            BaudRate::Baud38400 => 5,
            BaudRate::Baud57600 => 6,
        }
    }

    /// The real bits-per-second value.
    pub fn rate(self) -> (r: u16)
        ensures
            r == baud_bps(self),
    {
        match self {
            BaudRate::Baud1200 => 1200,
            BaudRate::Baud2400 => 2400,
            BaudRate::Baud4800 => 4800,
            BaudRate::Baud9600 => 9600,
            BaudRate::Baud19200 => 19200,
            BaudRate::Baud38400 => 38400,
            BaudRate::Baud57600 => 57600,
        }
    }

    /// The rate as display text.
    pub fn rate_as_char(self) -> (r: &'static str)
        ensures
            r@ == baud_display(self),
    {
        match self {
            BaudRate::Baud1200 => "1200",
            BaudRate::Baud2400 => "2400",
            BaudRate::Baud4800 => "4800",
            BaudRate::Baud9600 => "9600",
            BaudRate::Baud19200 => "19200",
            BaudRate::Baud38400 => "38400",
            BaudRate::Baud57600 => "57600",
        }
    }

    /// All seven rates, in ascending order.
    pub fn list() -> (r: [BaudRate; 7])
        ensures
            r@ =~= seq![
                BaudRate::Baud1200,
                BaudRate::Baud2400,
                BaudRate::Baud4800,
                BaudRate::Baud9600,
                BaudRate::Baud19200,
                BaudRate::Baud38400,
                BaudRate::Baud57600,
            ],
    {
        [
            BaudRate::Baud1200,
            BaudRate::Baud2400,
            BaudRate::Baud4800,
            BaudRate::Baud9600,
            BaudRate::Baud19200,
            BaudRate::Baud38400,
            BaudRate::Baud57600,
        ]
    }

    /// Lookup from an ordinal code (0-6) or a real rate value.  Any other
    /// value is rejected, with the offending value as the error payload.
    pub fn try_from(value: u16) -> (r: Result<BaudRate, u16>)
        ensures
            r == baud_lookup(value),
    {
        if value == 0 || value == 1200 {
            Ok(BaudRate::Baud1200)
        } else if value == 1 || value == 2400 {
            Ok(BaudRate::Baud2400)
        } else if value == 2 || value == 4800 {
            Ok(BaudRate::Baud4800)
        } else if value == 3 || value == 9600 {
            Ok(BaudRate::Baud9600)
        } else if value == 4 || value == 19200 {
            Ok(BaudRate::Baud19200)
        } else if value == 5 || value == 38400 {
            Ok(BaudRate::Baud38400)
        } else if value == 6 || value == 57600 {
            Ok(BaudRate::Baud57600)
        } else {
            Err(value)
        }
    }
}

/// Display text of a baud rate.
pub open spec fn baud_display(b: BaudRate) -> Seq<char> {
    match b {
        BaudRate::Baud1200 => "1200"@,
        BaudRate::Baud2400 => "2400"@,
        BaudRate::Baud4800 => "4800"@,
        BaudRate::Baud9600 => "9600"@,
        BaudRate::Baud19200 => "19200"@,
        BaudRate::Baud38400 => "38400"@,
        BaudRate::Baud57600 => "57600"@,
    }
}

impl Default for BaudRate {
    /// The sensor's default rate, 9600 bps.
    fn default() -> (r: Self)
        ensures
            r == BaudRate::Baud9600,
    {
        BaudRate::Baud9600
    }
}

/// Both lookups invert the two accessors: a rate found again from its
/// ordinal code or from its bits-per-second value is the rate itself.
pub proof fn lemma_baud_round_trip(b: BaudRate)
    ensures
        baud_lookup(baud_ordinal(b) as u16) == Ok::<BaudRate, u16>(b),
        baud_lookup(baud_bps(b)) == Ok::<BaudRate, u16>(b),
{
}

/// A command understood by the sensor.
///
/// Each variant has a fixed human-readable label, a fixed wire token, and a
/// stable numeric identifier; setting the baud rate is the one parameterized
/// command.
#[derive(Clone, Copy, Debug, PartialEq, Eq, Structural)]
pub enum Command {
    AccumulationData,
    ReadAvailableData,
    Kill,
    BaudRate(BaudRate),
    PollingMode,
    ContinuousMode,
    ForceHighResolution,
    ForceLowResolution,
    ForceImperial,
    ForceMetric,
    UseSwitchValue,
    ResetAccumulationCounter,
    EnableExternalTbInput,
    DisableExternalTbInput,
}

/// Stable numeric identifier of a command.  Simple commands occupy a small
/// fixed low range; a baud-rate command maps to its bits-per-second value
/// plus 3, keeping the two ranges disjoint.
pub open spec fn command_code(c: Command) -> u32 {
    match c {
        Command::AccumulationData => 0,
        Command::ReadAvailableData => 1,
        Command::Kill => 2,
        Command::BaudRate(b) => (baud_bps(b) + 3) as u32,
        Command::PollingMode => 4,
        Command::ContinuousMode => 5,
        Command::ForceHighResolution => 6,
        Command::ForceLowResolution => 7,
        Command::ForceImperial => 8,
        Command::ForceMetric => 9,
        Command::UseSwitchValue => 10,
        Command::ResetAccumulationCounter => 11,
        Command::EnableExternalTbInput => 12,
        Command::DisableExternalTbInput => 13,
    }
}

/// Inverse of [`command_code`]: an unmapped identifier yields no command.
pub open spec fn command_from_code(code: u32) -> Option<Command> {
    if code == 0 {
        Some(Command::AccumulationData)
    } else if code == 1 {
        Some(Command::ReadAvailableData)
    } else if code == 2 {
        Some(Command::Kill)
    } else if code == 1203 {
        Some(Command::BaudRate(BaudRate::Baud1200))
    } else if code == 2403 {
        Some(Command::BaudRate(BaudRate::Baud2400))
    } else if code == 4803 {
        Some(Command::BaudRate(BaudRate::Baud4800))
    } else if code == 9603 {
        Some(Command::BaudRate(BaudRate::Baud9600))
    } else if code == 19203 {
        Some(Command::BaudRate(BaudRate::Baud19200))
    } else if code == 38403 {
        Some(Command::BaudRate(BaudRate::Baud38400))
    } else if code == 57603 {
        Some(Command::BaudRate(BaudRate::Baud57600))
    } else if code == 4 {
        Some(Command::PollingMode)
    } else if code == 5 {
        Some(Command::ContinuousMode)
    } else if code == 6 {
        Some(Command::ForceHighResolution)
    } else if code == 7 {
        Some(Command::ForceLowResolution)
    } else if code == 8 {
        Some(Command::ForceImperial)
    } else if code == 9 {
        Some(Command::ForceMetric)
    } else if code == 10 {
        Some(Command::UseSwitchValue)
    } else if code == 11 {
        Some(Command::ResetAccumulationCounter)
    } else if code == 12 {
        Some(Command::EnableExternalTbInput)
    } else if code == 13 {
        Some(Command::DisableExternalTbInput)
    } else {
        None
    }
}

/// The single-byte wire token of a non-parameterized command; a baud-rate
/// command uses the token `b` followed by the rate's ordinal digit.
pub open spec fn command_token(c: Command) -> u8 {
    match c {
        Command::AccumulationData => 97,  // a
        Command::ReadAvailableData => 114,  // r
        Command::Kill => 107,  // k
        Command::BaudRate(_) => 98,  // b
        Command::PollingMode => 112,  // p
        Command::ContinuousMode => 99,  // c
        Command::ForceHighResolution => 104,  // h
        Command::ForceLowResolution => 108,  // l
        Command::ForceImperial => 105,  // i
        Command::ForceMetric => 109,  // m
        Command::UseSwitchValue => 115,  // s
        Command::ResetAccumulationCounter => 111,  // o
        Command::EnableExternalTbInput => 120,  // x
        Command::DisableExternalTbInput => 121,  // y
    }
}

/// The exact bytes transmitted for a command: its token (for a baud-rate
/// command, `b` and the ordinal digit) followed by the line terminator.
pub open spec fn command_wire(c: Command) -> Seq<u8> {
    match c {
        Command::BaudRate(b) => seq![98u8, (48 + baud_ordinal(b)) as u8, 13u8, 10u8],
        _ => seq![command_token(c), 13u8, 10u8],
    }
}

/// Human-readable label of a command.
pub open spec fn command_label(c: Command) -> Seq<char> {
    match c {
        Command::AccumulationData => "Get Accumulation Data"@,
        Command::ReadAvailableData => "Read Available Data"@,
        Command::Kill => "Kill"@,
        Command::BaudRate(_) => "Set Baud Rate"@,
        Command::PollingMode => "Set Polling Mode"@,
        Command::ContinuousMode => "Set Continuous Mode"@,
        Command::ForceHighResolution => "Force High Resolution"@,
        Command::ForceLowResolution => "Force Low Resolution"@,
        Command::ForceImperial => "Force Imperial Units"@,
        Command::ForceMetric => "Force Metric Units"@,
        Command::UseSwitchValue => "Use Values from Switch"@,
        Command::ResetAccumulationCounter => "Reset Acc Counter"@,
        Command::EnableExternalTbInput => "Enable External TB Input"@,
        Command::DisableExternalTbInput => "Disable External TB Input"@,
    }
}

impl Command {
    /// The non-parameterized commands, for populating a selection list.
    /// Setting the baud rate is excluded on purpose: it needs its own
    /// selection flow for the rate parameter.
    pub fn list() -> (r: &'static [Command])
        ensures
            r@ =~= seq![
                Command::AccumulationData,
                Command::ReadAvailableData,
                Command::Kill,
                Command::PollingMode,
                Command::ContinuousMode,
                Command::ForceHighResolution,
                Command::ForceLowResolution,
                Command::ForceImperial,
                Command::ForceMetric,
                Command::UseSwitchValue,
                Command::ResetAccumulationCounter,
                Command::EnableExternalTbInput,
                Command::DisableExternalTbInput,
            ],
    {
        &[
            Command::AccumulationData,
            Command::ReadAvailableData,
            Command::Kill,
            Command::PollingMode,
            Command::ContinuousMode,
            Command::ForceHighResolution,
            Command::ForceLowResolution,
            Command::ForceImperial,
            Command::ForceMetric,
            Command::UseSwitchValue,
            Command::ResetAccumulationCounter,
            Command::EnableExternalTbInput,
            Command::DisableExternalTbInput,
        ]
    }

    /// The human-readable label.
    pub fn name(self) -> (r: &'static str)
        ensures
            r@ == command_label(self),
    {
        match self {
            Command::AccumulationData => "Get Accumulation Data",
            Command::ReadAvailableData => "Read Available Data",
            Command::Kill => "Kill",
            Command::BaudRate(_) => "Set Baud Rate",
            Command::PollingMode => "Set Polling Mode",
            Command::ContinuousMode => "Set Continuous Mode",
            Command::ForceHighResolution => "Force High Resolution",
            Command::ForceLowResolution => "Force Low Resolution",
            Command::ForceImperial => "Force Imperial Units",
            Command::ForceMetric => "Force Metric Units",
            Command::UseSwitchValue => "Use Values from Switch",
            Command::ResetAccumulationCounter => "Reset Acc Counter",
            Command::EnableExternalTbInput => "Enable External TB Input",
            Command::DisableExternalTbInput => "Disable External TB Input",
        }
    }

    /// The stable numeric identifier.
    pub fn code(&self) -> (r: u32)
        ensures
            r == command_code(*self),
    {
        match self {
            Command::AccumulationData => 0,
            Command::ReadAvailableData => 1,
            Command::Kill => 2,
            Command::BaudRate(b) => b.rate() as u32 + 3,
            Command::PollingMode => 4,
            Command::ContinuousMode => 5,
            Command::ForceHighResolution => 6,
            Command::ForceLowResolution => 7,
            Command::ForceImperial => 8,
            Command::ForceMetric => 9,
            Command::UseSwitchValue => 10,
            Command::ResetAccumulationCounter => 11,
            Command::EnableExternalTbInput => 12,
            Command::DisableExternalTbInput => 13,
        }
    }

    /// Decode a numeric identifier; an unmapped identifier yields `None`,
    /// never a panic.
    pub fn try_from_code(code: u32) -> (r: Option<Command>)
        ensures
            r == command_from_code(code),
    {
        if code == 0 {
            Some(Command::AccumulationData)
        } else if code == 1 {
            Some(Command::ReadAvailableData)
        } else if code == 2 {
            Some(Command::Kill)
        } else if code == 1203 {
            Some(Command::BaudRate(BaudRate::Baud1200))
        } else if code == 2403 {
            Some(Command::BaudRate(BaudRate::Baud2400))
        } else if code == 4803 {
            Some(Command::BaudRate(BaudRate::Baud4800))
        } else if code == 9603 {
            Some(Command::BaudRate(BaudRate::Baud9600))
        } else if code == 19203 {
            Some(Command::BaudRate(BaudRate::Baud19200))
        } else if code == 38403 {
            Some(Command::BaudRate(BaudRate::Baud38400))
        } else if code == 57603 {
            Some(Command::BaudRate(BaudRate::Baud57600))
        } else if code == 4 {
            Some(Command::PollingMode)
        } else if code == 5 {
            Some(Command::ContinuousMode)
        } else if code == 6 {
            Some(Command::ForceHighResolution)
        } else if code == 7 {
            Some(Command::ForceLowResolution)
        } else if code == 8 {
            Some(Command::ForceImperial)
        } else if code == 9 {
            Some(Command::ForceMetric)
        } else if code == 10 {
            Some(Command::UseSwitchValue)
        } else if code == 11 {
            Some(Command::ResetAccumulationCounter)
        } else if code == 12 {
            Some(Command::EnableExternalTbInput)
        } else if code == 13 {
            Some(Command::DisableExternalTbInput)
        } else {
            None
        }
    }

    /// The exact wire bytes for this command: encoding is total and always
    /// succeeds, and every command line ends in the terminator.
    pub fn cmd(&self) -> (r: Vec<u8>)
        ensures
            r@ == command_wire(*self),
    {
        let mut s: Vec<u8> = Vec::new();
        match self {
            Command::AccumulationData => s.push(97),
            Command::ReadAvailableData => s.push(114),
            Command::Kill => s.push(107),
            Command::BaudRate(b) => {
                s.push(98);
                s.push(48 + b.code());
            },
            Command::PollingMode => s.push(112),
            Command::ContinuousMode => s.push(99),
            Command::ForceHighResolution => s.push(104),
            Command::ForceLowResolution => s.push(108),
            Command::ForceImperial => s.push(105),
            Command::ForceMetric => s.push(109),
            Command::UseSwitchValue => s.push(115),
            Command::ResetAccumulationCounter => s.push(111),
            Command::EnableExternalTbInput => s.push(120),
            Command::DisableExternalTbInput => s.push(121),
        }
        s.push(13);
        s.push(10);
        proof {
            assert(s@ =~= command_wire(*self));
        }
        s
    }
}

/// The identifier mapping round-trips: decoding a command's identifier gives
/// back exactly that command, for every variant including every baud rate.
pub proof fn lemma_command_code_round_trip(c: Command)
    ensures
        command_from_code(command_code(c)) == Some(c),
{
}

} // verus!
