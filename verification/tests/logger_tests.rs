use tego::ffi::bootstrap_tag::{tego_tor_bootstrap_tag, UnknownBootstrapTag};
use tego::logger::{
    printed_level, requested_log_level, LogLevel, LOG_LEVEL_ALL, LOG_LEVEL_ERROR, LOG_LEVEL_INFO, LOG_LEVEL_NONE,
    LOG_LEVEL_PACKET, LOG_LEVEL_TRACE,
};

#[test]
fn log_level_names_parse() {
    assert_eq!(LogLevel::parse("None"), Ok(LogLevel::Off));
    assert_eq!(LogLevel::parse("Error"), Ok(LogLevel::Error));
    assert_eq!(LogLevel::parse("Info"), Ok(LogLevel::Info));
    assert_eq!(LogLevel::parse("Trace"), Ok(LogLevel::Trace));
    assert_eq!(LogLevel::parse("Packet"), Ok(LogLevel::Packet));
    assert_eq!(LogLevel::parse("All"), Ok(LogLevel::All));
    assert!(LogLevel::parse("error").is_err());
    assert!(LogLevel::parse("").is_err());
    assert!(LogLevel::try_from("Verbose").is_err());
    assert_eq!(LogLevel::try_from("Trace"), Ok(LogLevel::Trace));
}

#[test]
fn log_level_bits() {
    assert_eq!(u32::from(LogLevel::Off), LOG_LEVEL_NONE);
    assert_eq!(u32::from(LogLevel::Error), 1);
    assert_eq!(LogLevel::Info.bits(), 2);
    assert_eq!(LogLevel::Trace.bits(), 4);
    assert_eq!(LogLevel::Packet.bits(), 8);
    assert_eq!(LogLevel::All.bits(), 0xffff_ffff);
}

#[test]
fn requested_levels_from_list() {
    assert_eq!(requested_log_level(None), LOG_LEVEL_ERROR);
    assert_eq!(requested_log_level(Some("Info, Trace")), LOG_LEVEL_INFO | LOG_LEVEL_TRACE);
    assert_eq!(requested_log_level(Some("Error,Bogus,Packet")), LOG_LEVEL_ERROR | LOG_LEVEL_PACKET);
    assert_eq!(requested_log_level(Some("")), LOG_LEVEL_NONE);
    assert_eq!(requested_log_level(Some(" All ")), LOG_LEVEL_ALL);
    assert_eq!(requested_log_level(Some("None")), LOG_LEVEL_NONE);
    assert_eq!(requested_log_level(Some("\u{3000}Info\t,\nTrace")), LOG_LEVEL_INFO | LOG_LEVEL_TRACE);
    assert_eq!(requested_log_level(Some("In fo")), LOG_LEVEL_NONE);
}

#[test]
fn printed_levels() {
    assert_eq!(printed_level(LOG_LEVEL_ERROR, LOG_LEVEL_ERROR), Some(LogLevel::Error));
    assert_eq!(printed_level(LOG_LEVEL_TRACE, LOG_LEVEL_ERROR), None);
    assert_eq!(printed_level(LOG_LEVEL_INFO, LOG_LEVEL_ALL), Some(LogLevel::Info));
    assert_eq!(printed_level(LOG_LEVEL_PACKET, LOG_LEVEL_ALL), Some(LogLevel::Packet));
    assert_eq!(printed_level(LOG_LEVEL_INFO, LOG_LEVEL_ERROR | LOG_LEVEL_TRACE), None);
    assert_eq!(printed_level(LOG_LEVEL_INFO, LOG_LEVEL_INFO | LOG_LEVEL_TRACE), Some(LogLevel::Info));
}

#[test]
fn bootstrap_tags_from_names() {
    assert_eq!(tego_tor_bootstrap_tag::from_name("starting"), tego_tor_bootstrap_tag::tego_tor_bootstrap_tag_starting);
    assert_eq!(tego_tor_bootstrap_tag::from("done"), tego_tor_bootstrap_tag::tego_tor_bootstrap_tag_done);
    assert_eq!(tego_tor_bootstrap_tag::from("conn_done_pt"), tego_tor_bootstrap_tag::tego_tor_bootstrap_tag_conn_done_pt);
    assert_eq!(tego_tor_bootstrap_tag::from("no such phase"), tego_tor_bootstrap_tag::tego_tor_bootstrap_tag_invalid);
}

#[test]
fn bootstrap_tag_codes_and_summaries() {
    assert_eq!(tego_tor_bootstrap_tag::tego_tor_bootstrap_tag_invalid.code(), -1);
    assert_eq!(tego_tor_bootstrap_tag::tego_tor_bootstrap_tag_starting.code(), 0);
    assert_eq!(tego_tor_bootstrap_tag::tego_tor_bootstrap_tag_done.code(), 25);
    assert_eq!(tego_tor_bootstrap_tag::tego_tor_bootstrap_tag_starting.to_summary(), Ok("Starting"));
    assert_eq!(tego_tor_bootstrap_tag::tego_tor_bootstrap_tag_done.to_summary(), Ok("Done"));
    assert_eq!(
        tego_tor_bootstrap_tag::tego_tor_bootstrap_tag_circuit_create.to_summary(),
        Ok("Establishing a Tor circuit")
    );
    assert_eq!(
        tego_tor_bootstrap_tag::tego_tor_bootstrap_tag_count.to_summary(),
        Err(UnknownBootstrapTag { code: 26 })
    );
    assert_eq!(
        tego_tor_bootstrap_tag::tego_tor_bootstrap_tag_invalid.to_summary(),
        Err(UnknownBootstrapTag { code: -1 })
    );
}
