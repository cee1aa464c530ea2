//! The log hook: level mapping and message decoding.

use discord_game_sdk::{LogBody, LogLevel, LogRecord};
use discord_game_sdk::logging::{decode_log_hook, map_level};

#[test]
fn documented_levels_map_to_their_namesakes() {
    assert_eq!(map_level(1), LogLevel::Error);
    assert_eq!(map_level(2), LogLevel::Warn);
    assert_eq!(map_level(3), LogLevel::Info);
    assert_eq!(map_level(4), LogLevel::Debug);
}

#[test]
fn unknown_levels_map_to_lowest_priority() {
    assert_eq!(map_level(0), LogLevel::Trace);
    assert_eq!(map_level(5), LogLevel::Trace);
    assert_eq!(map_level(u32::MAX), LogLevel::Trace);
}

#[test]
fn known_level_yields_one_record() {
    let records = decode_log_hook(3, Some(b"connected".to_vec()));
    assert_eq!(
        records,
        vec![LogRecord { level: LogLevel::Info, body: LogBody::Message(String::from("connected")) }]
    );
}

#[test]
fn unknown_level_emits_warning_distinct_from_message() {
    let records = decode_log_hook(9, Some(b"odd".to_vec()));
    assert_eq!(records.len(), 2);
    assert_eq!(records[0], LogRecord { level: LogLevel::Warn, body: LogBody::UnknownLevel(9) });
    assert_eq!(
        records[1],
        LogRecord { level: LogLevel::Trace, body: LogBody::Message(String::from("odd")) }
    );
}

#[test]
fn empty_message_decodes_to_empty_text() {
    let records = decode_log_hook(4, Some(Vec::new()));
    assert_eq!(
        records,
        vec![LogRecord { level: LogLevel::Debug, body: LogBody::Message(String::new()) }]
    );
}

#[test]
fn null_message_is_reported_not_crashed_on() {
    let records = decode_log_hook(1, None);
    assert_eq!(records, vec![LogRecord { level: LogLevel::Error, body: LogBody::NullMessage }]);
}

#[test]
fn invalid_text_is_reported_not_crashed_on() {
    let records = decode_log_hook(2, Some(vec![0xff, 0xfe, 0x61]));
    assert_eq!(records, vec![LogRecord { level: LogLevel::Error, body: LogBody::InvalidText }]);
}

#[test]
fn unknown_level_and_invalid_text_both_reported() {
    let records = decode_log_hook(77, Some(vec![0xc0]));
    assert_eq!(records.len(), 2);
    assert_eq!(records[0], LogRecord { level: LogLevel::Warn, body: LogBody::UnknownLevel(77) });
    assert_eq!(records[1], LogRecord { level: LogLevel::Error, body: LogBody::InvalidText });
}
