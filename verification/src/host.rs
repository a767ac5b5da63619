//! The calls that the library asks its caller to make into the host.
//!
//! The library never reaches the host itself. A function that sends
//! something returns the call to make, as the values that cross the
//! boundary; a function that reads something takes what the host answered.

use vstd::prelude::*;
use crate::text::{is_host_text, is_text};

verus! {

/// One call into the host: the entry point and its arguments. Addresses are
/// those of host objects; every text is a host string.
#[derive(Debug, PartialEq, Eq)]
pub enum HostCall {
    /// The extended message box.
    MessageBox { xpp: usize, msg_type: i32, title: Vec<u8>, message: Vec<u8> },
    /// The run of a single dialog.
    SingleRun { xpp: usize, dialog: Vec<u8> },
    /// The update of an item's value.
    UpdateValue { item: usize, content: Vec<u8> },
    /// The extended log call.
    Log { level: i32, function: Vec<u8>, line: i32, content: Vec<u8> },
}

/// A host call over sequences of bytes.
pub enum HostCallView {
    MessageBox { xpp: usize, msg_type: i32, title: Seq<u8>, message: Seq<u8> },
    SingleRun { xpp: usize, dialog: Seq<u8> },
    UpdateValue { item: usize, content: Seq<u8> },
    Log { level: i32, function: Seq<u8>, line: i32, content: Seq<u8> },
}

impl View for HostCall {
    type V = HostCallView;

    open spec fn view(&self) -> HostCallView {
        match *self {
            HostCall::MessageBox { xpp, msg_type, title, message } => HostCallView::MessageBox {
                xpp,
                msg_type,
                title: title@,
                message: message@,
            },
            HostCall::SingleRun { xpp, dialog } => HostCallView::SingleRun { xpp, dialog: dialog@ },
            HostCall::UpdateValue { item, content } => HostCallView::UpdateValue {
                item,
                content: content@,
            },
            HostCall::Log { level, function, line, content } => HostCallView::Log {
                level,
                function: function@,
                line,
                content: content@,
            },
        }
    }
}

impl HostCallView {
    /// Every text of the call is a host string that holds UTF-8.
    pub open spec fn well_formed(self) -> bool {
        match self {
            HostCallView::MessageBox { title, message, .. } => is_host_text(title) && is_host_text(
                message,
            ),
            HostCallView::SingleRun { dialog, .. } => is_host_text(dialog),
            HostCallView::UpdateValue { content, .. } => is_host_text(content),
            HostCallView::Log { function, content, .. } => is_host_text(function) && is_host_text(
                content,
            ),
        }
    }
}

impl HostCall {
    /// Whether every text of the call is a host string that holds UTF-8.
    pub fn is_well_formed(&self) -> (ok: bool)
        ensures
            ok == self@.well_formed(),
    {
        match self {
            HostCall::MessageBox { title, message, .. } => is_text(title.as_slice()) && is_text(
                message.as_slice(),
            ),
            HostCall::SingleRun { dialog, .. } => is_text(dialog.as_slice()),
            HostCall::UpdateValue { content, .. } => is_text(content.as_slice()),
            HostCall::Log { function, content, .. } => is_text(function.as_slice()) && is_text(
                content.as_slice(),
            ),
        }
    }
}

} // verus!
