//! The menu handle and what the host reports of a menu.

use vstd::prelude::*;
use crate::text::{from_host, is_host_text, text_of};

verus! {

/// The host's menu, by its address. Valid for the host call in which it was
/// opened.
#[derive(Debug, PartialEq, Eq)]
pub struct XanteMenu {
    menu: usize,
}

/// The kinds of menu.
#[derive(Debug, Clone, Copy, PartialEq, Eq)]
pub enum XanteMenuType {
    Default,
    Dynamic,
}

impl XanteMenuType {
    /// The number by which the host knows the kind.
    pub open spec fn tag(self) -> int {
        match self {
            XanteMenuType::Default => 0,
            XanteMenuType::Dynamic => 1,
        }
    }
}

impl View for XanteMenu {
    type V = usize;

    closed spec fn view(&self) -> usize {
        self.menu
    }
}

impl XanteMenu {
    /// Opens the handle from what the lookup of [`crate::arguments::MENU`]
    /// gave: the handle on the address found, or the lookup's error code.
    pub fn new(found: Result<usize, i32>) -> (opened: Result<XanteMenu, i32>)
        ensures
            found matches Ok(address) ==> opened matches Ok(menu) && menu@ == address,
            found matches Err(code) ==> opened == Err::<XanteMenu, i32>(code),
    {
        match found {
            Ok(address) => Ok(XanteMenu { menu: address }),
            Err(code) => Err(code),
        }
    }

    /// The address of the host's menu.
    pub fn address(&self) -> (address: usize)
        ensures
            address == self@,
    {
        self.menu
    }

    /// The menu's name, from the host string that the host gave for it.
    pub fn name<'a>(&self, reply: &'a [u8]) -> (name: &'a str)
        requires
            is_host_text(reply@),
        ensures
            name@ == text_of(reply@),
    {
        from_host(reply)
    }

    /// The menu's object id, from the host string that the host gave for it.
    pub fn object_id<'a>(&self, reply: &'a [u8]) -> (id: &'a str)
        requires
            is_host_text(reply@),
        ensures
            id@ == text_of(reply@),
    {
        from_host(reply)
    }

    /// The menu's kind, from the tag that the host gave for it: the kind
    /// with that tag, and none for a tag that no kind has.
    pub fn object_type(&self, tag: i32) -> (kind: Option<XanteMenuType>)
        ensures
            kind matches Some(k) ==> k.tag() == tag,
            kind is None <==> !(0 <= tag <= 1),
    {
        match tag {
            0 => Some(XanteMenuType::Default),
            1 => Some(XanteMenuType::Dynamic),
            _ => None,
        }
    }
}

} // verus!
