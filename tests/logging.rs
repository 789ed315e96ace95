use unity_native::logger::{filter_str_to_c_string, line_to_c_int, UnityLogger};
use unity_native::{UnityInterface, UnityLogType};

fn logger() -> UnityLogger {
    UnityLogger::try_from_table(0x10, ()).unwrap()
}

#[test]
fn filter_keeps_text_without_nul() {
    assert_eq!(filter_str_to_c_string("hello"), b"hello\0".to_vec());
    assert_eq!(filter_str_to_c_string(""), vec![0u8]);
}

#[test]
fn filter_replaces_nul_with_replacement_character() {
    let out = filter_str_to_c_string("a\0b");
    assert_eq!(out, vec![b'a', 0xEF, 0xBF, 0xBD, b'b', 0]);
    let text = String::from_utf8(out[..out.len() - 1].to_vec()).unwrap();
    assert_eq!(text, "a\u{FFFD}b");
}

#[test]
fn line_numbers_that_do_not_fit_become_minimum() {
    assert_eq!(line_to_c_int(0), 0);
    assert_eq!(line_to_c_int(42), 42);
    assert_eq!(line_to_c_int(i32::MAX as u32), i32::MAX);
    assert_eq!(line_to_c_int(i32::MAX as u32 + 1), i32::MIN);
    assert_eq!(line_to_c_int(u32::MAX), i32::MIN);
}

#[test]
fn log_levels_map_to_host_types() {
    let l = logger();
    let m = l.log_info("msg", "f.rs", 3);
    assert_eq!(m.log_type, UnityLogType::Info);
    assert_eq!(m.message, b"msg\0".to_vec());
    assert_eq!(m.filename, b"f.rs\0".to_vec());
    assert_eq!(m.line, 3);
    assert_eq!(l.log_warning("w", "f", 1).log_type, UnityLogType::Warning);
    assert_eq!(l.log_error("e", "f", 1).log_type, UnityLogType::Error);
    assert_eq!(l.log_exception("x", "f", 1).log_type, UnityLogType::Exception);
}

#[test]
fn log_message_filters_nul_and_clamps_line() {
    let l = logger();
    let m = l.log_generic(UnityLogType::Error, "\0", "a\0", u32::MAX);
    assert_eq!(m.message, vec![0xEF, 0xBF, 0xBD, 0]);
    assert_eq!(m.filename, vec![b'a', 0xEF, 0xBF, 0xBD, 0]);
    assert_eq!(m.line, i32::MIN);
}

#[test]
fn log_type_codes() {
    assert_eq!(UnityLogType::Error.code(), 0);
    assert_eq!(UnityLogType::Warning.code(), 2);
    assert_eq!(UnityLogType::Info.code(), 3);
    assert_eq!(UnityLogType::Exception.code(), 4);
}

#[test]
fn log_crate_levels_convert() {
    assert_eq!(UnityLogType::from(log::Level::Error), UnityLogType::Error);
    assert_eq!(UnityLogType::from(log::Level::Warn), UnityLogType::Warning);
    assert_eq!(UnityLogType::from(log::Level::Info), UnityLogType::Info);
    assert_eq!(UnityLogType::from(log::Level::Debug), UnityLogType::Info);
    assert_eq!(UnityLogType::from(log::Level::Trace), UnityLogType::Info);
}

#[test]
fn rust_logger_body_without_prefix() {
    let rl = logger().to_rust_logger(log::LevelFilter::Info);
    assert!(rl.app_prefix.is_none());
    assert_eq!(rl.format_log_body(log::Level::Error, "boom"), "boom");
    assert_eq!(rl.format_log_body(log::Level::Warn, "careful"), "careful");
    assert_eq!(rl.format_log_body(log::Level::Info, "hi"), "info: hi");
    assert_eq!(rl.format_log_body(log::Level::Debug, "d"), "debug: d");
    assert_eq!(rl.format_log_body(log::Level::Trace, "t"), "trace: t");
}

#[test]
fn rust_logger_body_with_prefix() {
    let rl = logger().to_rust_logger_for_app(log::LevelFilter::Trace, "game");
    assert_eq!(rl.app_prefix, Some("game"));
    assert_eq!(rl.format_log_body(log::Level::Error, "boom"), "game: boom");
    assert_eq!(rl.format_log_body(log::Level::Info, "hi"), "game info: hi");
}

#[test]
fn rust_logger_body_trims_head() {
    let rl = logger().to_rust_logger_for_app(log::LevelFilter::Trace, "  tool ");
    assert_eq!(rl.format_log_body(log::Level::Info, "x"), "tool  info: x");
    assert_eq!(rl.format_log_body(log::Level::Warn, "y"), "tool: y");
}

#[test]
fn rust_logger_keeps_table() {
    let rl = logger().to_rust_logger(log::LevelFilter::Off);
    assert_eq!(rl.logger.table(), 0x10);
}
