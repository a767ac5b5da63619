use xante::host::HostCall;
use xante::logger::{alert, criti, debug, emerg, error, info, notice, warng, Level, CALLER, LINE};

fn entry(level: i32, function: &[u8], content: &[u8]) -> HostCall {
    HostCall::Log { level, function: function.to_vec(), line: 0, content: content.to_vec() }
}

#[test]
fn level_tags() {
    assert_eq!(Level::Off.tag(), 0);
    assert_eq!(Level::Emerg.tag(), 1);
    assert_eq!(Level::Alert.tag(), 2);
    assert_eq!(Level::Criti.tag(), 3);
    assert_eq!(Level::Error.tag(), 4);
    assert_eq!(Level::Warng.tag(), 5);
    assert_eq!(Level::Notice.tag(), 6);
    assert_eq!(Level::Info.tag(), 7);
    assert_eq!(Level::Debug.tag(), 8);
}

#[test]
fn the_caller_placeholder_and_line() {
    assert_eq!(CALLER, "__function__");
    assert_eq!(LINE, 0);
}

#[test]
fn each_severity_logs_at_its_level() {
    assert_eq!(emerg("a"), entry(1, b"__function__\0", b"a\0"));
    assert_eq!(alert("b"), entry(2, b"__function__\0", b"b\0"));
    assert_eq!(criti("c"), entry(3, b"__function__\0", b"c\0"));
    assert_eq!(error("d"), entry(4, b"__function__\0", b"d\0"));
    assert_eq!(warng("e"), entry(5, b"__function__\0", b"e\0"));
    assert_eq!(notice("f"), entry(6, b"__function__\0", b"f\0"));
    assert_eq!(info("g"), entry(7, b"__function__\0", b"g\0"));
}

#[test]
fn debug_names_its_caller() {
    assert_eq!(debug("run", "started"), entry(8, b"run\0", b"started\0"));
    assert_eq!(debug("", ""), entry(8, b"\0", b"\0"));
}

#[test]
fn log_content_is_encoded() {
    assert_eq!(info("héllo"), entry(7, b"__function__\0", &[b'h', 0xC3, 0xA9, b'l', b'l', b'o', 0]));
}
