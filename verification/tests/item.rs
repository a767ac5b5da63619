use xante::arguments;
use xante::host::HostCall;
use xante::item::{XanteItem, XanteObject};

fn item() -> XanteItem {
    XanteItem::new(Ok(0x1000)).unwrap()
}

#[test]
fn item_open_wraps_the_address_found() {
    assert_eq!(item().address(), 0x1000);
}

#[test]
fn item_open_hands_the_error_code_on() {
    assert_eq!(XanteItem::new(Err(-7)), Err(-7));
    assert_eq!(XanteItem::new(Err(3)), Err(3));
}

#[test]
fn item_open_looks_under_item() {
    assert_eq!(arguments::ITEM, "item");
}

#[test]
fn every_known_tag_gives_its_kind() {
    let kinds = [
        XanteObject::MenuReference,
        XanteObject::InputInt,
        XanteObject::InputFloat,
        XanteObject::InputDate,
        XanteObject::InputString,
        XanteObject::InputPasswd,
        XanteObject::InputTime,
        XanteObject::Calendar,
        XanteObject::Timebox,
        XanteObject::RadioChecklist,
        XanteObject::Checklist,
        XanteObject::YesNo,
        XanteObject::DynamicMenuReference,
        XanteObject::DeleteDynameMenuItem,
        XanteObject::AddDynamicMenuItem,
        XanteObject::Custom,
        XanteObject::Progress,
        XanteObject::SpinnerSync,
        XanteObject::SpinnerDots,
        XanteObject::Range,
        XanteObject::FileSelect,
        XanteObject::DirSelect,
        XanteObject::FileView,
        XanteObject::Tailbox,
        XanteObject::Scrolltext,
        XanteObject::UpdateObject,
        XanteObject::Inputscroll,
        XanteObject::Mixedform,
        XanteObject::Buildlist,
        XanteObject::Spreadsheet,
        XanteObject::Clock,
    ];
    assert_eq!(kinds.len(), 31);
    let item = item();
    let mut tag = 1;
    for kind in kinds {
        assert_eq!(item.object_type(tag), Some(kind));
        tag += 1;
    }
}

#[test]
fn tags_outside_the_known_range_give_no_kind() {
    let item = item();
    assert_eq!(item.object_type(0), None);
    assert_eq!(item.object_type(32), None);
    assert_eq!(item.object_type(-1), None);
    assert_eq!(item.object_type(i32::MIN), None);
    assert_eq!(item.object_type(i32::MAX), None);
}

#[test]
fn the_range_of_tags() {
    assert_eq!(XanteObject::FIRST_TAG, 1);
    assert_eq!(XanteObject::LAST_TAG, 31);
}

#[test]
fn item_name_and_id_are_the_text_of_the_reply() {
    let item = item();
    assert_eq!(item.name(b"volume\0"), "volume");
    assert_eq!(item.name(b"\0"), "");
    assert_eq!(item.object_id(b"item-17\0"), "item-17");
    assert_eq!(item.object_id(&[0xC3, 0xA9, 0]), "é");
}

#[test]
fn set_value_names_the_item_and_the_content() {
    let item = item();
    assert_eq!(
        item.set_value("42"),
        HostCall::UpdateValue { item: 0x1000, content: b"42\0".to_vec() }
    );
    assert_eq!(item.set_value(""), HostCall::UpdateValue { item: 0x1000, content: vec![0] });
}
