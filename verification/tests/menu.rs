use xante::arguments;
use xante::menu::{XanteMenu, XanteMenuType};

fn menu() -> XanteMenu {
    XanteMenu::new(Ok(0x2000)).unwrap()
}

#[test]
fn menu_open_wraps_the_address_found() {
    assert_eq!(menu().address(), 0x2000);
}

#[test]
fn menu_open_hands_the_error_code_on() {
    assert_eq!(XanteMenu::new(Err(-1)), Err(-1));
    assert_eq!(XanteMenu::new(Err(12)), Err(12));
}

#[test]
fn menu_open_looks_under_menu() {
    assert_eq!(arguments::MENU, "menu");
}

#[test]
fn menu_kinds_by_tag() {
    let menu = menu();
    assert_eq!(menu.object_type(0), Some(XanteMenuType::Default));
    assert_eq!(menu.object_type(1), Some(XanteMenuType::Dynamic));
}

#[test]
fn unknown_menu_tags_give_no_kind() {
    let menu = menu();
    assert_eq!(menu.object_type(2), None);
    assert_eq!(menu.object_type(-1), None);
    assert_eq!(menu.object_type(i32::MAX), None);
    assert_eq!(menu.object_type(i32::MIN), None);
}

#[test]
fn menu_name_and_id_are_the_text_of_the_reply() {
    let menu = menu();
    assert_eq!(menu.name(b"Main menu\0"), "Main menu");
    assert_eq!(menu.object_id(b"m0\0"), "m0");
    assert_eq!(menu.object_id(b"\0"), "");
}

#[test]
fn the_other_keys_of_the_bundle() {
    assert_eq!(arguments::CFG_FILE, "cfg-file");
    assert_eq!(arguments::DATA, "data");
    assert_eq!(arguments::VALUE, "value");
}
