use xante::application::{MessageBoxType, XanteApp};
use xante::host::HostCall;

#[test]
fn marshalled_calls_are_well_formed() {
    let app = XanteApp::new(Ok(9)).unwrap();
    assert!(app.message_box(MessageBoxType::Error, "title", "message").is_well_formed());
    assert!(app.dialog("main").is_well_formed());
    assert!(xante::logger::debug("f", "m").is_well_formed());
}

#[test]
fn a_text_without_terminator_is_not_well_formed() {
    let call = HostCall::SingleRun { xpp: 9, dialog: b"main".to_vec() };
    assert!(!call.is_well_formed());
    let call = HostCall::UpdateValue { item: 9, content: vec![] };
    assert!(!call.is_well_formed());
}

#[test]
fn a_text_with_an_early_terminator_is_not_well_formed() {
    let call = HostCall::MessageBox {
        xpp: 9,
        msg_type: 0,
        title: b"T\0".to_vec(),
        message: b"M\0M\0".to_vec(),
    };
    assert!(!call.is_well_formed());
}

#[test]
fn a_text_that_is_not_utf8_is_not_well_formed() {
    let call = HostCall::Log { level: 1, function: vec![0x80, 0], line: 0, content: vec![0] };
    assert!(!call.is_well_formed());
    let call = HostCall::Log { level: 1, function: vec![0], line: 0, content: vec![0xE2, 0x82, 0] };
    assert!(!call.is_well_formed());
}
