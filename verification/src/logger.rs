//! Log levels: their names, their bits, how a requested set of levels is read
//! from a comma separated list, and which lines that set lets through.
use vstd::prelude::*;

use crate::text::{split_on, split_spec, str_eq, trim, trimmed};

verus! {

pub const LOG_LEVEL_NONE: u32 = 0u32;
pub const LOG_LEVEL_ERROR: u32 = 1u32;
pub const LOG_LEVEL_INFO: u32 = 2u32;
pub const LOG_LEVEL_TRACE: u32 = 4u32;
pub const LOG_LEVEL_PACKET: u32 = 8u32;
pub const LOG_LEVEL_ALL: u32 = 0xffff_ffffu32;

#[derive(Debug, Clone, Copy, PartialEq, Eq, Structural)]
pub enum LogLevel {
    Off,
    Error,
    Info,
    Trace,
    Packet,
    All,
}

/// The bits that stand for a level.
pub open spec fn level_bits(level: LogLevel) -> u32 {
    match level {
        LogLevel::Off => LOG_LEVEL_NONE,
        LogLevel::Error => LOG_LEVEL_ERROR,
        LogLevel::Info => LOG_LEVEL_INFO,
        LogLevel::Trace => LOG_LEVEL_TRACE,
        LogLevel::Packet => LOG_LEVEL_PACKET,
        LogLevel::All => LOG_LEVEL_ALL,
    }
}

/// The name of a level.
pub open spec fn level_name(level: LogLevel) -> Seq<char> {
    match level {
        LogLevel::Off => "None"@,
        LogLevel::Error => "Error"@,
        LogLevel::Info => "Info"@,
        LogLevel::Trace => "Trace"@,
        LogLevel::Packet => "Packet"@,
        LogLevel::All => "All"@,
    }
}

/// The level a name stands for, if any.
pub open spec fn level_from_name(name: Seq<char>) -> Option<LogLevel> {
    if name == "None"@ {
        Some(LogLevel::Off)
    } else if name == "Error"@ {
        Some(LogLevel::Error)
    } else if name == "Info"@ {
        Some(LogLevel::Info)
    } else if name == "Trace"@ {
        Some(LogLevel::Trace)
    } else if name == "Packet"@ {
        Some(LogLevel::Packet)
    } else if name == "All"@ {
        Some(LogLevel::All)
    } else {
        None
    }
}

/// A name that is not one of a level.
#[derive(Debug, Clone, Copy, PartialEq, Eq, Structural)]
pub struct InvalidLogLevel;

/// The result of reading a level from a name.
pub open spec fn parse_spec(name: Seq<char>) -> Result<LogLevel, InvalidLogLevel> {
    match level_from_name(name) {
        Some(level) => Ok(level),
        None => Err(InvalidLogLevel),
    }
}

impl TryFrom<&str> for LogLevel {
    type Error = InvalidLogLevel;

    fn try_from(value: &str) -> (r: Result<Self, InvalidLogLevel>) {
        LogLevel::parse(value)
    }
}

impl vstd::std_specs::convert::TryFromSpecImpl<&str> for LogLevel {
    open spec fn obeys_try_from_spec() -> bool {
        true
    }

    open spec fn try_from_spec(v: &str) -> Result<LogLevel, InvalidLogLevel> {
        parse_spec(v@)
    }
}

impl LogLevel {
    /// Reads a level from its exact name.
    pub fn parse(value: &str) -> (r: Result<LogLevel, InvalidLogLevel>)
        ensures
            r == parse_spec(value@),
    {
        if str_eq(value, "None") {
            Ok(LogLevel::Off)
        } else if str_eq(value, "Error") {
            Ok(LogLevel::Error)
        } else if str_eq(value, "Info") {
            Ok(LogLevel::Info)
        } else if str_eq(value, "Trace") {
            Ok(LogLevel::Trace)
        } else if str_eq(value, "Packet") {
            Ok(LogLevel::Packet)
        } else if str_eq(value, "All") {
            Ok(LogLevel::All)
        } else {
            Err(InvalidLogLevel)
        }
    }

    /// The bits that stand for this level.
    pub fn bits(self) -> (b: u32)
        ensures
            b == level_bits(self),
    {
        match self {
            LogLevel::Off => LOG_LEVEL_NONE,
            LogLevel::Error => LOG_LEVEL_ERROR,
            LogLevel::Info => LOG_LEVEL_INFO,
            LogLevel::Trace => LOG_LEVEL_TRACE,
            LogLevel::Packet => LOG_LEVEL_PACKET,
            LogLevel::All => LOG_LEVEL_ALL,
        }
    }
}

impl From<LogLevel> for u32 {
    fn from(value: LogLevel) -> (r: u32) {
        value.bits()
    }
}

impl vstd::std_specs::convert::FromSpecImpl<LogLevel> for u32 {
    open spec fn obeys_from_spec() -> bool {
        true
    }

    open spec fn from_spec(v: LogLevel) -> u32 {
        level_bits(v)
    }
}

/// The bits one piece of the list contributes: its level's, once trimmed, or
/// none when it names no level.
pub open spec fn piece_bits(piece: Seq<char>) -> u32 {
    match level_from_name(trimmed(piece)) {
        Some(level) => level_bits(level),
        None => LOG_LEVEL_NONE,
    }
}

/// The union of the bits of all pieces.
pub open spec fn pieces_bits(pieces: Seq<Seq<char>>) -> u32
    decreases pieces.len(),
{
    if pieces.len() == 0 {
        0u32
    } else {
        pieces_bits(pieces.drop_last()) | piece_bits(pieces.last())
    }
}

/// The levels requested by a comma separated list of level names; errors
/// alone when no list is given.
pub open spec fn requested_bits(list: Option<Seq<char>>) -> u32 {
    match list {
        Some(text) => pieces_bits(split_spec(text, ',')),
        None => LOG_LEVEL_ERROR,
    }
}

/// Reads the set of requested levels from a comma separated list of names;
/// names that stand for no level add nothing, and without a list only errors
/// are requested.
pub fn requested_log_level(list: Option<&str>) -> (bits: u32)
    ensures
        bits == requested_bits(
            match list {
                Some(s) => Some(s@),
                None => None,
            },
        ),
{
    match list {
        None => LogLevel::Error.bits(),
        Some(text) => {
            let pieces = split_on(text, ',');
            let ghost views = pieces@.map_values(|p: &str| p@);
            let mut acc: u32 = 0u32;
            let mut i: usize = 0;
            while i < pieces.len()
                invariant
                    views == pieces@.map_values(|p: &str| p@),
                    i <= pieces.len(),
                    acc == pieces_bits(views.take(i as int)),
                decreases pieces.len() - i,
            {
                let piece = trim(pieces[i]);
                let bits = match LogLevel::parse(piece) {
                    Ok(level) => level.bits(),
                    Err(_) => LogLevel::Off.bits(),
                };
                proof {
                    assert(views.take(i + 1).drop_last() =~= views.take(i as int));
                    assert(views.take(i + 1).last() == pieces@[i as int]@);
                }
                acc = acc | bits;
                i += 1;
            }
            proof {
                assert(views.take(pieces.len() as int) =~= views);
            }
            acc
        },
    }
}

/// Which label, if any, a log line of the given level bits is printed under
/// when `requested` holds the requested levels: the line must not rank above
/// the requested bits, and its bits in common with them must be exactly one level.
pub open spec fn printed_level_spec(log_level: u32, requested: u32) -> Option<LogLevel> {
    if log_level <= requested {
        let common = log_level & requested;
        if common == LOG_LEVEL_ERROR {
            Some(LogLevel::Error)
        } else if common == LOG_LEVEL_INFO {
            Some(LogLevel::Info)
        } else if common == LOG_LEVEL_TRACE {
            Some(LogLevel::Trace)
        } else if common == LOG_LEVEL_PACKET {
            Some(LogLevel::Packet)
        } else {
            None
        }
    } else {
        None
    }
}

/// The label a log line is printed under, or `None` when it is dropped.
pub fn printed_level(log_level: u32, requested: u32) -> (r: Option<LogLevel>)
    ensures
        r == printed_level_spec(log_level, requested),
        log_level == LOG_LEVEL_ERROR || log_level == LOG_LEVEL_INFO || log_level == LOG_LEVEL_TRACE
            || log_level == LOG_LEVEL_PACKET ==> (r is Some <==> log_level & requested != 0),
{
    proof {
        assert((1u32 & requested) != 0 ==> 1u32 <= requested && (1u32 & requested) == 1u32) by (bit_vector);
        assert((2u32 & requested) != 0 ==> 2u32 <= requested && (2u32 & requested) == 2u32) by (bit_vector);
        assert((4u32 & requested) != 0 ==> 4u32 <= requested && (4u32 & requested) == 4u32) by (bit_vector);
        assert((8u32 & requested) != 0 ==> 8u32 <= requested && (8u32 & requested) == 8u32) by (bit_vector);
    }
    if log_level <= requested {
        match log_level & requested {
            LOG_LEVEL_ERROR => Some(LogLevel::Error),
            LOG_LEVEL_INFO => Some(LogLevel::Info),
            LOG_LEVEL_TRACE => Some(LogLevel::Trace),
            LOG_LEVEL_PACKET => Some(LogLevel::Packet),
            _ => None,
        }
    } else {
        None
    }
}

/// Reading a level's name gives the level back.
pub proof fn lemma_level_name_round_trip(level: LogLevel)
    ensures
        level_from_name(level_name(level)) == Some(level),
{
    reveal_strlit("None");
    reveal_strlit("Error");
    reveal_strlit("Info");
    reveal_strlit("Trace");
    reveal_strlit("Packet");
    reveal_strlit("All");
    assert("Error"@ != "None"@) by { assert("Error"@[0] != "None"@[0]); }
    assert("Info"@ != "None"@) by { assert("Info"@[0] != "None"@[0]); }
    assert("Info"@ != "Error"@) by { assert("Info"@[0] != "Error"@[0]); }
    assert("Trace"@ != "None"@) by { assert("Trace"@[0] != "None"@[0]); }
    assert("Trace"@ != "Error"@) by { assert("Trace"@[0] != "Error"@[0]); }
    assert("Trace"@ != "Info"@) by { assert("Trace"@[0] != "Info"@[0]); }
    assert("Packet"@ != "None"@) by { assert("Packet"@[0] != "None"@[0]); }
    assert("Packet"@ != "Error"@) by { assert("Packet"@[0] != "Error"@[0]); }
    assert("Packet"@ != "Info"@) by { assert("Packet"@[0] != "Info"@[0]); }
    assert("Packet"@ != "Trace"@) by { assert("Packet"@[0] != "Trace"@[0]); }
    assert("All"@ != "None"@) by { assert("All"@[0] != "None"@[0]); }
    assert("All"@ != "Error"@) by { assert("All"@[0] != "Error"@[0]); }
    assert("All"@ != "Info"@) by { assert("All"@[0] != "Info"@[0]); }
    assert("All"@ != "Trace"@) by { assert("All"@[0] != "Trace"@[0]); }
    assert("All"@ != "Packet"@) by { assert("All"@[0] != "Packet"@[0]); }
}

/// The logger's filter end to end: with the levels requested by the comma
/// separated list in RICOCHET_REFRESH_LOG_LEVEL (errors alone when it is not
/// set), a line logged at one of the levels Error, Info, Trace or Packet is
/// printed, under its own level's label, exactly when that level's bit is
/// among those requested.
pub proof fn law_line_printed_iff_level_requested(level: LogLevel, list: Option<Seq<char>>)
    requires
        level is Error || level is Info || level is Trace || level is Packet,
    ensures
        printed_level_spec(level_bits(level), requested_bits(list)) == if level_bits(level) & requested_bits(list) != 0 {
            Some(level)
        } else {
            None::<LogLevel>
        },
{
    let r = requested_bits(list);
    assert((1u32 & r) != 0 ==> 1u32 <= r && (1u32 & r) == 1u32) by (bit_vector);
    assert((2u32 & r) != 0 ==> 2u32 <= r && (2u32 & r) == 2u32) by (bit_vector);
    assert((4u32 & r) != 0 ==> 4u32 <= r && (4u32 & r) == 4u32) by (bit_vector);
    assert((8u32 & r) != 0 ==> 8u32 <= r && (8u32 & r) == 8u32) by (bit_vector);
}

} // verus!
