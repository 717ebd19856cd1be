//! Logging: the mapping between the `log` facade's levels and the native
//! ESP-IDF log levels, the filtering decisions and the rendering of a log line.

use vstd::prelude::*;

use crate::error::{EspError, ESP_ERR_INVALID_ARG};
use crate::text::{has_nul, is_c_compatible, push_char, push_decimal, push_str, decimal};

verus! {

/// Native log level: nothing is logged.
pub const ESP_LOG_NONE: u32 = 0;

/// Native log level: errors.
pub const ESP_LOG_ERROR: u32 = 1;

/// Native log level: warnings.
pub const ESP_LOG_WARN: u32 = 2;

/// Native log level: information.
pub const ESP_LOG_INFO: u32 = 3;

/// Native log level: debugging.
pub const ESP_LOG_DEBUG: u32 = 4;

/// Native log level: everything.
pub const ESP_LOG_VERBOSE: u32 = 5;

/// The most verbose native level compiled into the firmware (the SDK's
/// default configuration keeps information and above).
pub const CONFIG_LOG_MAXIMUM_LEVEL: u32 = 3;

/// Whether log lines are coloured with ANSI escapes (the SDK's default).
pub const LOG_COLORS: bool = true;

/// The severity of one log record.
#[derive(Debug, Clone, Copy, PartialEq, Eq, Structural)]
pub enum Level {
    Error,
    Warn,
    Info,
    Debug,
    Trace,
}

/// A maximum severity: records above it are dropped.
#[derive(Debug, Clone, Copy, PartialEq, Eq, Structural)]
pub enum LevelFilter {
    Off,
    Error,
    Warn,
    Info,
    Debug,
    Trace,
}

/// The verbosity rank of a level: `Error` is the least verbose (1).
pub open spec fn level_rank(level: Level) -> int {
    match level {
        Level::Error => 1,
        Level::Warn => 2,
        Level::Info => 3,
        Level::Debug => 4,
        Level::Trace => 5,
    }
}

/// The verbosity rank of a filter: `Off` lets nothing through (0).
pub open spec fn filter_rank(filter: LevelFilter) -> int {
    match filter {
        LevelFilter::Off => 0,
        LevelFilter::Error => 1,
        LevelFilter::Warn => 2,
        LevelFilter::Info => 3,
        LevelFilter::Debug => 4,
        LevelFilter::Trace => 5,
    }
}

/// The filter for a native level code; an unknown code lets everything
/// through.
pub open spec fn filter_of_code(code: u32) -> LevelFilter {
    if code == ESP_LOG_NONE {
        LevelFilter::Off
    } else if code == ESP_LOG_ERROR {
        LevelFilter::Error
    } else if code == ESP_LOG_WARN {
        LevelFilter::Warn
    } else if code == ESP_LOG_INFO {
        LevelFilter::Info
    } else if code == ESP_LOG_DEBUG {
        LevelFilter::Debug
    } else {
        LevelFilter::Trace
    }
}

/// The level for a native level code; `NONE` and unknown codes map to the
/// most verbose level.
pub open spec fn level_of_code(code: u32) -> Level {
    if code == ESP_LOG_ERROR {
        Level::Error
    } else if code == ESP_LOG_WARN {
        Level::Warn
    } else if code == ESP_LOG_INFO {
        Level::Info
    } else if code == ESP_LOG_DEBUG {
        Level::Debug
    } else {
        Level::Trace
    }
}

impl Level {
    /// The native level code of this level: its rank.
    pub fn to_code(self) -> (c: u32)
        ensures
            c == level_rank(self),
    {
        match self {
            Level::Error => ESP_LOG_ERROR,
            Level::Warn => ESP_LOG_WARN,
            Level::Info => ESP_LOG_INFO,
            Level::Debug => ESP_LOG_DEBUG,
            Level::Trace => ESP_LOG_VERBOSE,
        }
    }

    /// The level for a native level code.
    pub fn from_code(code: u32) -> (l: Level)
        ensures
            l == level_of_code(code),
    {
        if code == ESP_LOG_ERROR {
            Level::Error
        } else if code == ESP_LOG_WARN {
            Level::Warn
        } else if code == ESP_LOG_INFO {
            Level::Info
        } else if code == ESP_LOG_DEBUG {
            Level::Debug
        } else {
            Level::Trace
        }
    }
}

impl LevelFilter {
    /// The native level code of this filter: its rank.
    pub fn to_code(self) -> (c: u32)
        ensures
            c == filter_rank(self),
    {
        match self {
            LevelFilter::Off => ESP_LOG_NONE,
            LevelFilter::Error => ESP_LOG_ERROR,
            LevelFilter::Warn => ESP_LOG_WARN,
            LevelFilter::Info => ESP_LOG_INFO,
            LevelFilter::Debug => ESP_LOG_DEBUG,
            LevelFilter::Trace => ESP_LOG_VERBOSE,
        }
    }

    /// The filter for a native level code.
    pub fn from_code(code: u32) -> (f: LevelFilter)
        ensures
            f == filter_of_code(code),
    {
        if code == ESP_LOG_NONE {
            LevelFilter::Off
        } else if code == ESP_LOG_ERROR {
            LevelFilter::Error
        } else if code == ESP_LOG_WARN {
            LevelFilter::Warn
        } else if code == ESP_LOG_INFO {
            LevelFilter::Info
        } else if code == ESP_LOG_DEBUG {
            LevelFilter::Debug
        } else {
            LevelFilter::Trace
        }
    }
}

/// Converting a filter to its native code and back gives the same filter.
pub proof fn lemma_filter_code_round_trip(filter: LevelFilter)
    ensures
        filter_of_code(filter_rank(filter) as u32) == filter,
{
}

/// Converting a level to its native code and back gives the same level.
pub proof fn lemma_level_code_round_trip(level: Level)
    ensures
        level_of_code(level_rank(level) as u32) == level,
{
}

/// A native code in the known range survives the trip to a filter and back.
pub proof fn lemma_code_filter_round_trip(code: u32)
    requires
        code <= ESP_LOG_VERBOSE,
    ensures
        filter_rank(filter_of_code(code)) == code,
{
}

/// Sets the `log` facade's global maximum level (`log::set_max_level`); the
/// facade keeps it in a global, so nothing is stated of the result.
#[verifier::external_body]
fn apply_max_level(level: LevelFilter) {
    ::log::set_max_level(
        match level {
            LevelFilter::Off => ::log::LevelFilter::Off,
            LevelFilter::Error => ::log::LevelFilter::Error,
            LevelFilter::Warn => ::log::LevelFilter::Warn,
            LevelFilter::Info => ::log::LevelFilter::Info,
            LevelFilter::Debug => ::log::LevelFilter::Debug,
            LevelFilter::Trace => ::log::LevelFilter::Trace,
        },
    );
}

/// The logger that writes records to the native console.
pub struct EspLogger;

/// The most verbose filter the firmware was built with.
pub open spec fn max_level_filter() -> LevelFilter {
    filter_of_code(CONFIG_LOG_MAXIMUM_LEVEL)
}

/// The one-letter marker that starts a line of the given level.
pub open spec fn marker_of(level: Level) -> Seq<char> {
    match level {
        Level::Error => seq!['E'],
        Level::Warn => seq!['W'],
        Level::Info => seq!['I'],
        Level::Debug => seq!['D'],
        Level::Trace => seq!['V'],
    }
}

/// The ANSI colour of a line of the given level, when colours are on:
/// red for errors, brown for warnings, green for information.
pub open spec fn color_of(level: Level) -> Option<u8> {
    if !LOG_COLORS {
        None
    } else {
        match level {
            Level::Error => Some(31u8),
            Level::Warn => Some(33u8),
            Level::Info => Some(32u8),
            _ => None,
        }
    }
}

/// The text of one log line, with its final line break.
///
/// Without a colour: `"<marker> (<timestamp>) <target>: <message>\n"`; with a
/// colour `c` the same text is wrapped in `"\x1b[0;<c>m"` and `"\x1b[0m"`,
/// before the line break.
pub open spec fn log_line(marker: Seq<char>, timestamp: u32, target: Seq<char>, message: Seq<char>, color: Option<u8>) -> Seq<char> {
    let body = marker + seq![' ', '('] + decimal(timestamp as nat) + seq![')', ' '] + target + seq![':', ' '] + message;
    match color {
        Some(c) => seq!['\x1b', '[', '0', ';'] + decimal(c as nat) + seq!['m'] + body + seq!['\x1b', '[', '0', 'm', '\n'],
        None => body + seq!['\n'],
    }
}

impl EspLogger {
    /// Completes the registration of the logger with the `log` facade, once
    /// the facade has accepted it as the global logger (`registered`): the
    /// facade's maximum level is set to the firmware's and that level is
    /// returned. A second registration is a fault of the caller (another
    /// logger is installed already), which the caller aborts on before this
    /// is reached.
    pub fn initialize_default(&self, registered: bool) -> (applied: LevelFilter)
        requires
            registered,
        ensures
            applied == max_level_filter(),
    {
        self.initialize()
    }

    /// Sets the facade's maximum level to the firmware's and returns it.
    pub fn initialize(&self) -> (applied: LevelFilter)
        ensures
            applied == max_level_filter(),
    {
        let level = self.get_max_level();
        apply_max_level(level);
        level
    }

    /// The most verbose filter the firmware was built with.
    pub fn get_max_level(&self) -> (f: LevelFilter)
        ensures
            f == max_level_filter(),
    {
        LevelFilter::from_code(CONFIG_LOG_MAXIMUM_LEVEL)
    }

    /// The native level to set for `target`, or `ESP_ERR_INVALID_ARG` when
    /// the target cannot be handed to C (it holds a NUL character).
    pub fn set_target_level(&self, target: &str, level_filter: LevelFilter) -> (r: Result<u32, EspError>)
        ensures
            has_nul(target@) ==> (r matches Err(e) && e.spec_code() == ESP_ERR_INVALID_ARG),
            !has_nul(target@) ==> r == Ok::<u32, EspError>(filter_rank(level_filter) as u32),
    {
        if !is_c_compatible(target) {
            return Err(EspError::from_non_zero(ESP_ERR_INVALID_ARG));
        }
        Ok(level_filter.to_code())
    }

    /// The marker of a line of the given level.
    pub fn get_marker(level: Level) -> (m: &'static str)
        ensures
            m@ == marker_of(level),
    {
        match level {
            Level::Error => {
                proof { reveal_strlit("E"); }
                "E"
            },
            Level::Warn => {
                proof { reveal_strlit("W"); }
                "W"
            },
            Level::Info => {
                proof { reveal_strlit("I"); }
                "I"
            },
            Level::Debug => {
                proof { reveal_strlit("D"); }
                "D"
            },
            Level::Trace => {
                proof { reveal_strlit("V"); }
                "V"
            },
        }
    }

    /// The colour of a line of the given level, if any.
    pub fn get_color(level: Level) -> (c: Option<u8>)
        ensures
            c == color_of(level),
    {
        if !LOG_COLORS {
            return None;
        }
        match level {
            Level::Error => Some(31u8),
            Level::Warn => Some(33u8),
            Level::Info => Some(32u8),
            _ => None,
        }
    }

    /// Whether a record of the given level passes the firmware's maximum.
    pub fn enabled(&self, level: Level) -> (b: bool)
        ensures
            b == (level_rank(level) <= filter_rank(max_level_filter())),
    {
        level.to_code() <= self.get_max_level().to_code()
    }

    /// Whether a record of `level` for `target` is to be logged, given the
    /// native per-target maximum that `query_max` reads.
    ///
    /// A target that cannot be handed to C is always logged, and its maximum
    /// is then not queried; otherwise the record is logged when its native
    /// level does not exceed the queried maximum.
    pub fn should_log<F: Fn() -> u32>(level: Level, target: &str, query_max: F) -> (b: bool)
        requires
            call_requires(query_max, ()),
        ensures
            has_nul(target@) ==> b,
            !has_nul(target@) ==> exists|max: u32| #[trigger] call_ensures(query_max, (), max)
                && b == (level_rank(level) <= max),
    {
        if !is_c_compatible(target) {
            return true;
        }
        let max = query_max();
        level.to_code() <= max
    }

    /// Renders one log line (see `log_line`).
    pub fn format_line(level: Level, timestamp: u32, target: &str, message: &str) -> (s: String)
        ensures
            s@ == log_line(marker_of(level), timestamp, target@, message@, color_of(level)),
    {
        let marker = Self::get_marker(level);
        let color = Self::get_color(level);
        let mut s = String::new();
        match color {
            Some(c) => {
                push_char(&mut s, '\x1b');
                push_char(&mut s, '[');
                push_char(&mut s, '0');
                push_char(&mut s, ';');
                push_decimal(&mut s, c as u64);
                push_char(&mut s, 'm');
            },
            None => {},
        }
        let ghost prefix = s@;
        push_str(&mut s, marker);
        push_char(&mut s, ' ');
        push_char(&mut s, '(');
        push_decimal(&mut s, timestamp as u64);
        push_char(&mut s, ')');
        push_char(&mut s, ' ');
        push_str(&mut s, target);
        push_char(&mut s, ':');
        push_char(&mut s, ' ');
        push_str(&mut s, message);
        let ghost body = marker@ + seq![' ', '('] + decimal(timestamp as nat) + seq![')', ' '] + target@ + seq![':', ' '] + message@;
        assert(s@ =~= prefix + body);
        match color {
            Some(c) => {
                push_char(&mut s, '\x1b');
                push_char(&mut s, '[');
                push_char(&mut s, '0');
                push_char(&mut s, 'm');
                push_char(&mut s, '\n');
                assert(s@ =~= seq!['\x1b', '[', '0', ';'] + decimal(c as nat) + seq!['m'] + body + seq!['\x1b', '[', '0', 'm', '\n']);
            },
            None => {
                push_char(&mut s, '\n');
                assert(s@ =~= body + seq!['\n']);
            },
        }
        s
    }
}

/// The native level to set for `target` (see `EspLogger::set_target_level`).
pub fn set_target_level(target: &str, level_filter: LevelFilter) -> (r: Result<u32, EspError>)
    ensures
        has_nul(target@) ==> (r matches Err(e) && e.spec_code() == ESP_ERR_INVALID_ARG),
        !has_nul(target@) ==> r == Ok::<u32, EspError>(filter_rank(level_filter) as u32),
{
    let logger = EspLogger;
    logger.set_target_level(target, level_filter)
}

} // verus!
