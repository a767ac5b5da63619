use xante::application::{MessageBoxType, XanteApp};
use xante::arguments;
use xante::host::HostCall;

#[test]
fn open_wraps_the_address_found() {
    let app = XanteApp::new(Ok(0x7f00_1000)).unwrap();
    assert_eq!(app.address(), 0x7f00_1000);
    let app = XanteApp::new(Ok(0)).unwrap();
    assert_eq!(app.address(), 0);
    let app = XanteApp::new(Ok(usize::MAX)).unwrap();
    assert_eq!(app.address(), usize::MAX);
}

#[test]
fn open_hands_the_error_code_on() {
    assert_eq!(XanteApp::new(Err(-5)), Err(-5));
    assert_eq!(XanteApp::new(Err(0)), Err(0));
    assert_eq!(XanteApp::new(Err(i32::MIN)), Err(i32::MIN));
}

#[test]
fn open_looks_under_xpp() {
    assert_eq!(arguments::XPP, "xpp");
}

#[test]
fn message_box_tags() {
    assert_eq!(MessageBoxType::Info.tag(), 0);
    assert_eq!(MessageBoxType::Warning.tag(), 1);
    assert_eq!(MessageBoxType::Error.tag(), 2);
}

#[test]
fn info_box_is_one_call_with_both_strings() {
    let app = XanteApp::new(Ok(42)).unwrap();
    let call = app.message_box(MessageBoxType::Info, "T", "M");
    assert_eq!(
        call,
        HostCall::MessageBox { xpp: 42, msg_type: 0, title: vec![b'T', 0], message: vec![b'M', 0] }
    );
}

#[test]
fn warning_and_error_boxes_carry_their_tags() {
    let app = XanteApp::new(Ok(1)).unwrap();
    let call = app.message_box(MessageBoxType::Warning, "", "disk almost full");
    assert_eq!(
        call,
        HostCall::MessageBox {
            xpp: 1,
            msg_type: 1,
            title: vec![0],
            message: b"disk almost full\0".to_vec(),
        }
    );
    let call = app.message_box(MessageBoxType::Error, "é", "x");
    assert_eq!(
        call,
        HostCall::MessageBox { xpp: 1, msg_type: 2, title: vec![0xC3, 0xA9, 0], message: vec![b'x', 0] }
    );
}

#[test]
fn dialog_names_the_dialog_to_run() {
    let app = XanteApp::new(Ok(42)).unwrap();
    assert_eq!(app.dialog("main"), HostCall::SingleRun { xpp: 42, dialog: b"main\0".to_vec() });
    assert_eq!(app.dialog(""), HostCall::SingleRun { xpp: 42, dialog: vec![0] });
}
