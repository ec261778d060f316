use dideban::bootstrap;
use dideban::{ConsoleLogger, Level};

const LEVELS: [Level; 5] = [
    Level::Error,
    Level::Warn,
    Level::Info,
    Level::Debug,
    Level::Trace,
];

fn rank(level: Level) -> u8 {
    level.rank()
}

#[test]
fn severity_matrix_is_exactly_at_least_as_severe() {
    // All 25 (threshold, level) pairs: accepted iff the record is at
    // least as severe as the threshold.
    for &threshold in LEVELS.iter() {
        let sink = ConsoleLogger::new(threshold);
        for &level in LEVELS.iter() {
            assert_eq!(sink.accepts(level), rank(level) >= rank(threshold));
        }
    }
}

#[test]
fn warn_threshold_accepts_error_and_warn_only() {
    let sink = ConsoleLogger::new(Level::Warn);
    assert!(sink.accepts(Level::Error));
    assert!(sink.accepts(Level::Warn));
    assert!(!sink.accepts(Level::Info));
    assert!(!sink.accepts(Level::Debug));
    assert!(!sink.accepts(Level::Trace));
}

#[test]
fn rejected_record_renders_nothing_accepted_renders_one_line() {
    let sink = ConsoleLogger::new(Level::Info);
    assert!(sink.render(Level::Debug, "2024-01-02 03:04:05", "app", "hi").is_none());
    let line = sink.render(Level::Info, "2024-01-02 03:04:05", "app", "hi").unwrap();
    assert_eq!(line, "[2024-01-02 03:04:05] INFO - app: hi");
}

#[test]
fn warn_sink_emits_exactly_one_line_for_debug_then_error() {
    // One debug record and one error record against a warn threshold:
    // exactly one line comes out, tagged ERROR, message verbatim.
    let sink = ConsoleLogger::new(Level::Warn);
    let records = [(Level::Debug, "first"), (Level::Error, "second")];
    let mut lines: Vec<String> = Vec::new();
    for &(level, msg) in records.iter() {
        if let Some(line) = sink.render(level, "2024-01-02 03:04:05", "app", msg) {
            lines.push(line);
        }
    }
    assert_eq!(lines.len(), 1);
    assert_eq!(lines[0], "[2024-01-02 03:04:05] ERROR - app: second");
}

#[test]
fn tags_are_the_upper_cased_level_names() {
    assert_eq!(Level::Error.tag(), "ERROR");
    assert_eq!(Level::Warn.tag(), "WARN");
    assert_eq!(Level::Info.tag(), "INFO");
    assert_eq!(Level::Debug.tag(), "DEBUG");
    assert_eq!(Level::Trace.tag(), "TRACE");
}

#[test]
fn level_names_map_to_levels_with_info_fallback() {
    assert_eq!(Level::from_name("error"), Level::Error);
    assert_eq!(Level::from_name("warn"), Level::Warn);
    assert_eq!(Level::from_name("info"), Level::Info);
    assert_eq!(Level::from_name("debug"), Level::Debug);
    assert_eq!(Level::from_name("trace"), Level::Trace);
    assert_eq!(Level::from_name("silly"), Level::Info);
    assert_eq!(Level::from_name(""), Level::Info);
}

#[test]
fn init_is_one_shot() {
    let mut slot: Option<ConsoleLogger> = None;
    assert!(ConsoleLogger::init(Level::Debug, &mut slot).is_ok());
    assert!(slot.is_some());
    assert_eq!(slot.as_ref().unwrap().level, Level::Debug);
    let second = ConsoleLogger::init(Level::Trace, &mut slot);
    assert!(second.is_err());
    assert_eq!(second.unwrap_err().message(), "logger already initialized");
    assert_eq!(slot.as_ref().unwrap().level, Level::Debug);
}

#[test]
fn log_and_flush_do_not_panic() {
    let sink = ConsoleLogger::new(Level::Info);
    sink.log(Level::Info, "app", "visible record");
    sink.log(Level::Trace, "app", "invisible record");
    sink.flush();
}

#[test]
fn bind_address_joins_host_and_port() {
    assert_eq!(bootstrap::bind_address("127.0.0.1", 7000), "127.0.0.1:7000");
    assert_eq!(bootstrap::bind_address("0.0.0.0", 80), "0.0.0.0:80");
    assert_eq!(bootstrap::bind_address("localhost", 65535), "localhost:65535");
}

#[test]
fn decimal_rendering_is_exact() {
    assert_eq!(bootstrap::u64_to_string(0), "0");
    assert_eq!(bootstrap::u64_to_string(7), "7");
    assert_eq!(bootstrap::u64_to_string(10), "10");
    assert_eq!(bootstrap::u64_to_string(65535), "65535");
    assert_eq!(bootstrap::u64_to_string(18446744073709551615), "18446744073709551615");
}

#[test]
fn report_renders_fields_and_redacts_the_password() {
    let text = "domains = [\"https://a.example\", \"https://b.example\"]\n\
                interval = 30\n\
                server_host = \"0.0.0.0\"\n\
                server_port = 8000\n\
                enable_bale = true\n\
                bale_token = \"tok\"\n\
                bale_chat_id = \"chat\"\n\
                web_username = \"user\"\n\
                web_password = \"supersecret\"\n\
                db_path = \"data.db\"\n\
                log_level = \"debug\"\n";
    let config =
        dideban::AppConfig::resolve(dideban::config::FileSource::Content(text.to_string()))
            .unwrap();
    let report = bootstrap::config_report(&config);
    assert_eq!(report.len(), 11);
    assert_eq!(
        report[0],
        "  - domains: [\"https://a.example\", \"https://b.example\"]"
    );
    assert_eq!(report[1], "  - interval: 30 seconds");
    assert_eq!(report[2], "  - server_host: 0.0.0.0");
    assert_eq!(report[3], "  - server_port: 8000");
    assert_eq!(report[4], "  - enable_bale: true");
    assert_eq!(report[5], "  - bale_token: tok");
    assert_eq!(report[6], "  - bale_chat_id: chat");
    assert_eq!(report[7], "  - web_username: user");
    assert_eq!(report[8], "  - web_password: [hidden]");
    assert_eq!(report[9], "  - db_path: data.db");
    assert_eq!(report[10], "  - log_level: debug");
    for line in report.iter() {
        assert!(!line.contains("supersecret"));
    }
}

#[test]
fn empty_domain_list_renders_as_empty_brackets() {
    let config = dideban::AppConfig::resolve(dideban::config::FileSource::Absent).unwrap();
    let report = bootstrap::config_report(&config);
    assert_eq!(report[0], "  - domains: []");
}

#[test]
fn defaults_derive_an_info_threshold() {
    // An empty working directory resolves to the defaults, whose level
    // name derives an info threshold.
    let config = dideban::AppConfig::resolve(dideban::config::FileSource::Absent).unwrap();
    assert_eq!(Level::from_name(config.log_level.as_str()), Level::Info);
}
