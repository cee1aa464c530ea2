//! The process log hook: level mapping and message decoding.
//!
//! The native runtime reports log messages through a fixed hook installed at
//! construction, handing it a numeric level and a C string. This module
//! holds the decision logic of that hook: which level of the binding a
//! native level maps to, and which records are emitted for a given raw
//! message. The unverified driver reads the C string into bytes, calls
//! [`decode_log_hook`], and forwards the resulting records to the process
//! logging sink.

use vstd::prelude::*;

verus! {

/// Severity of a log record, from highest priority to lowest.
#[derive(Clone, Copy, PartialEq, Eq, Structural, Debug)]
pub enum LogLevel {
    Error,
    Warn,
    Info,
    Debug,
    Trace,
}

/// The native level value for errors; the documented levels are the
/// consecutive values from this one through debug.
pub const SYS_LEVEL_ERROR: u32 = 1;
/// The native level value for warnings.
pub const SYS_LEVEL_WARN: u32 = 2;
/// The native level value for informational messages.
pub const SYS_LEVEL_INFO: u32 = 3;
/// The native level value for debug messages; also the threshold handed to
/// the native runtime when the hook is installed, so that every level is
/// reported.
pub const SYS_LEVEL_DEBUG: u32 = 4;

/// Whether a native level value is one of the four documented ones.
pub open spec fn level_is_known(level: u32) -> bool {
    SYS_LEVEL_ERROR <= level <= SYS_LEVEL_DEBUG
}

/// The level a native level value maps to. Each documented value maps to
/// the level of the same name; anything else maps to the lowest-priority
/// level.
pub open spec fn level_of_sys(level: u32) -> LogLevel {
    if level == SYS_LEVEL_ERROR { LogLevel::Error }
    else if level == SYS_LEVEL_WARN { LogLevel::Warn }
    else if level == SYS_LEVEL_INFO { LogLevel::Info }
    else if level == SYS_LEVEL_DEBUG { LogLevel::Debug }
    else { LogLevel::Trace }
}

/// Maps a native level value to the binding's level.
pub fn map_level(level: u32) -> (r: LogLevel)
    ensures
        r == level_of_sys(level),
{
    if level == SYS_LEVEL_ERROR { LogLevel::Error }
    else if level == SYS_LEVEL_WARN { LogLevel::Warn }
    else if level == SYS_LEVEL_INFO { LogLevel::Info }
    else if level == SYS_LEVEL_DEBUG { LogLevel::Debug }
    else { LogLevel::Trace }
}

/// What one log record says.
#[derive(Clone, PartialEq, Eq, Debug)]
pub enum LogBody {
    /// A message of the native runtime, decoded.
    Message(String),
    /// The hook was handed a level value outside the documented
    /// enumeration; the value is kept verbatim.
    UnknownLevel(u32),
    /// The hook was handed a null message pointer. This should not occur
    /// and is reported rather than crashed on.
    NullMessage,
    /// The message bytes were not valid text and could not be decoded.
    InvalidText,
}

/// One record for the process logging sink.
#[derive(Clone, PartialEq, Eq, Debug)]
pub struct LogRecord {
    pub level: LogLevel,
    pub body: LogBody,
}

/// A name for what decoding a byte sequence as UTF-8 yields: the decoded
/// characters, or nothing where the bytes are not valid UTF-8. The result
/// depends on the bytes alone.
pub uninterp spec fn utf8_decode(bytes: Seq<u8>) -> Option<Seq<char>>;

/// Relies on `String::from_utf8`: it succeeds exactly on valid UTF-8 input
/// and the decoded text is a function of the bytes alone.
#[verifier::external_body]
fn decode_utf8(bytes: Vec<u8>) -> (r: Option<String>)
    ensures
        r is Some <==> utf8_decode(bytes@) is Some,
        r matches Some(s) ==> Some(s@) == utf8_decode(bytes@),
{
    String::from_utf8(bytes).ok()
}

/// The decision logic of the log hook. Takes the native level value and the
/// raw message bytes (or nothing, where the native runtime handed the hook a
/// null pointer) and returns the records to emit, in order:
///
/// - a null pointer yields a single error record and nothing else;
/// - a level outside the documented enumeration yields a warning record
///   carrying the unknown value, distinct from and ahead of the message
///   record, and the message itself is reported at the lowest-priority
///   level;
/// - message bytes that are not valid text yield an error record in place
///   of the message record, rather than a crash;
/// - otherwise the decoded message is reported at the mapped level.
pub fn decode_log_hook(level: u32, message: Option<Vec<u8>>) -> (r: Vec<LogRecord>)
    ensures
        message is None ==> r@ =~= seq![
            LogRecord { level: LogLevel::Error, body: LogBody::NullMessage },
        ],
        message matches Some(bytes) ==> if level_is_known(level) {
            &&& r@.len() == 1
            &&& match utf8_decode(bytes@) {
                Some(text) => {
                    &&& r@[0].level == level_of_sys(level)
                    &&& r@[0].body matches LogBody::Message(s) && s@ == text
                },
                None => r@[0] == (LogRecord { level: LogLevel::Error, body: LogBody::InvalidText }),
            }
        } else {
            &&& r@.len() == 2
            &&& r@[0] == (LogRecord { level: LogLevel::Warn, body: LogBody::UnknownLevel(level) })
            &&& match utf8_decode(bytes@) {
                Some(text) => {
                    &&& r@[1].level == LogLevel::Trace
                    &&& r@[1].body matches LogBody::Message(s) && s@ == text
                },
                None => r@[1] == (LogRecord { level: LogLevel::Error, body: LogBody::InvalidText }),
            }
        },
{
    let mut records: Vec<LogRecord> = Vec::new();
    match message {
        None => {
            records.push(LogRecord { level: LogLevel::Error, body: LogBody::NullMessage });
        }
        Some(bytes) => {
            let known = SYS_LEVEL_ERROR <= level && level <= SYS_LEVEL_DEBUG;
            if !known {
                records.push(LogRecord { level: LogLevel::Warn, body: LogBody::UnknownLevel(level) });
            }
            let mapped = map_level(level);
            match decode_utf8(bytes) {
                Some(text) => {
                    records.push(LogRecord { level: mapped, body: LogBody::Message(text) });
                }
                None => {
                    records.push(LogRecord { level: LogLevel::Error, body: LogBody::InvalidText });
                }
            }
        }
    }
    records
}

/// Log-level mapping: each documented native level value maps to the level
/// of the same name, and every value outside the documented enumeration
/// maps to the lowest-priority level.
pub proof fn law_level_mapping()
    ensures
        level_of_sys(SYS_LEVEL_ERROR) == LogLevel::Error,
        level_of_sys(SYS_LEVEL_WARN) == LogLevel::Warn,
        level_of_sys(SYS_LEVEL_INFO) == LogLevel::Info,
        level_of_sys(SYS_LEVEL_DEBUG) == LogLevel::Debug,
        forall|level: u32| !level_is_known(level) ==> level_of_sys(level) == LogLevel::Trace,
{
}

} // verus!
