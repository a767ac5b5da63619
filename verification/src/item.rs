//! The item handle, what the host reports of an item, and the update it
//! takes.

use vstd::prelude::*;
use crate::host::{HostCall, HostCallView};
use crate::text::{from_host, host_string, is_host_text, representable, text_of, to_host};

verus! {

/// The host's item, by its address. Valid for the host call in which it was
/// opened.
#[derive(Debug, PartialEq, Eq)]
pub struct XanteItem {
    item: usize,
}

/// The kinds of item.
#[derive(Debug, Clone, Copy, PartialEq, Eq)]
pub enum XanteObject {
    MenuReference,
    InputInt,
    InputFloat,
    InputDate,
    InputString,
    InputPasswd,
    InputTime,
    Calendar,
    Timebox,
    RadioChecklist,
    Checklist,
    YesNo,
    DynamicMenuReference,
    DeleteDynameMenuItem,
    AddDynamicMenuItem,
    Custom,
    Progress,
    SpinnerSync,
    SpinnerDots,
    Range,
    FileSelect,
    DirSelect,
    FileView,
    Tailbox,
    Scrolltext,
    UpdateObject,
    Inputscroll,
    Mixedform,
    Buildlist,
    Spreadsheet,
    Clock,
}

impl XanteObject {
    /// The least tag that a kind has.
    pub const FIRST_TAG: i32 = 1;

    /// The greatest tag that a kind has.
    pub const LAST_TAG: i32 = 31;

    /// The number by which the host knows the kind.
    pub open spec fn tag(self) -> int {
        match self {
            XanteObject::MenuReference => 1,
            XanteObject::InputInt => 2,
            XanteObject::InputFloat => 3,
            XanteObject::InputDate => 4,
            XanteObject::InputString => 5,
            XanteObject::InputPasswd => 6,
            XanteObject::InputTime => 7,
            XanteObject::Calendar => 8,
            XanteObject::Timebox => 9,
            XanteObject::RadioChecklist => 10,
            XanteObject::Checklist => 11,
            XanteObject::YesNo => 12,
            XanteObject::DynamicMenuReference => 13,
            XanteObject::DeleteDynameMenuItem => 14,
            XanteObject::AddDynamicMenuItem => 15,
            XanteObject::Custom => 16,
            XanteObject::Progress => 17,
            XanteObject::SpinnerSync => 18,
            XanteObject::SpinnerDots => 19,
            XanteObject::Range => 20,
            XanteObject::FileSelect => 21,
            XanteObject::DirSelect => 22,
            XanteObject::FileView => 23,
            XanteObject::Tailbox => 24,
            XanteObject::Scrolltext => 25,
            XanteObject::UpdateObject => 26,
            XanteObject::Inputscroll => 27,
            XanteObject::Mixedform => 28,
            XanteObject::Buildlist => 29,
            XanteObject::Spreadsheet => 30,
            XanteObject::Clock => 31,
        }
    }

    /// Every kind has a tag in the known range, and no two kinds share one.
    pub proof fn lemma_tags(a: XanteObject, b: XanteObject)
        ensures
            XanteObject::FIRST_TAG <= a.tag() <= XanteObject::LAST_TAG,
            a.tag() == b.tag() ==> a == b,
    {
    }
}

impl View for XanteItem {
    type V = usize;

    closed spec fn view(&self) -> usize {
        self.item
    }
}

impl XanteItem {
    /// Opens the handle from what the lookup of [`crate::arguments::ITEM`]
    /// gave: the handle on the address found, or the lookup's error code.
    pub fn new(found: Result<usize, i32>) -> (opened: Result<XanteItem, i32>)
        ensures
            found matches Ok(address) ==> opened matches Ok(item) && item@ == address,
            found matches Err(code) ==> opened == Err::<XanteItem, i32>(code),
    {
        match found {
            Ok(address) => Ok(XanteItem { item: address }),
            Err(code) => Err(code),
        }
    }

    /// The address of the host's item.
    pub fn address(&self) -> (address: usize)
        ensures
            address == self@,
    {
        self.item
    }

    /// The item's name, from the host string that the host gave for it.
    pub fn name<'a>(&self, reply: &'a [u8]) -> (name: &'a str)
        requires
            is_host_text(reply@),
        ensures
            name@ == text_of(reply@),
    {
        from_host(reply)
    }

    /// The item's object id, from the host string that the host gave for it.
    pub fn object_id<'a>(&self, reply: &'a [u8]) -> (id: &'a str)
        requires
            is_host_text(reply@),
        ensures
            id@ == text_of(reply@),
    {
        from_host(reply)
    }

    /// The call that sets the item's value to `content`.
    pub fn set_value(&self, content: &str) -> (call: HostCall)
        requires
            representable(content@),
        ensures
            call@ == (HostCallView::UpdateValue { item: self@, content: host_string(content@) }),
            call@.well_formed(),
    {
        HostCall::UpdateValue { item: self.item, content: to_host(content) }
    }

    /// The item's kind, from the tag that the host gave for it: the kind
    /// with that tag, and none for a tag that no kind has.
    pub fn object_type(&self, tag: i32) -> (kind: Option<XanteObject>)
        ensures
            kind matches Some(k) ==> k.tag() == tag,
            kind is None <==> !(XanteObject::FIRST_TAG <= tag <= XanteObject::LAST_TAG),
    {
        match tag {
            1 => Some(XanteObject::MenuReference),
            2 => Some(XanteObject::InputInt),
            3 => Some(XanteObject::InputFloat),
            4 => Some(XanteObject::InputDate),
            5 => Some(XanteObject::InputString),
            6 => Some(XanteObject::InputPasswd),
            7 => Some(XanteObject::InputTime),
            8 => Some(XanteObject::Calendar),
            9 => Some(XanteObject::Timebox),
            10 => Some(XanteObject::RadioChecklist),
            11 => Some(XanteObject::Checklist),
            12 => Some(XanteObject::YesNo),
            13 => Some(XanteObject::DynamicMenuReference),
            14 => Some(XanteObject::DeleteDynameMenuItem),
            15 => Some(XanteObject::AddDynamicMenuItem),
            16 => Some(XanteObject::Custom),
            17 => Some(XanteObject::Progress),
            18 => Some(XanteObject::SpinnerSync),
            19 => Some(XanteObject::SpinnerDots),
            20 => Some(XanteObject::Range),
            21 => Some(XanteObject::FileSelect),
            22 => Some(XanteObject::DirSelect),
            23 => Some(XanteObject::FileView),
            24 => Some(XanteObject::Tailbox),
            25 => Some(XanteObject::Scrolltext),
            26 => Some(XanteObject::UpdateObject),
            27 => Some(XanteObject::Inputscroll),
            28 => Some(XanteObject::Mixedform),
            29 => Some(XanteObject::Buildlist),
            30 => Some(XanteObject::Spreadsheet),
            31 => Some(XanteObject::Clock),
            _ => None,
        }
    }
}

} // verus!
