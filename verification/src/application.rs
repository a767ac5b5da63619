//! The application handle and the calls it sends.

use vstd::prelude::*;
use crate::host::{HostCall, HostCallView};
use crate::text::{host_string, representable, to_host};

verus! {

/// The kinds of message box.
#[derive(Debug, Clone, Copy, PartialEq, Eq)]
pub enum MessageBoxType {
    Info,
    Warning,
    Error,
}

impl MessageBoxType {
    /// The number by which the host knows the kind.
    pub open spec fn spec_tag(self) -> i32 {
        match self {
            MessageBoxType::Info => 0,
            MessageBoxType::Warning => 1,
            MessageBoxType::Error => 2,
        }
    }

    /// The number by which the host knows the kind.
    #[verifier::when_used_as_spec(spec_tag)]
    pub fn tag(self) -> (tag: i32)
        ensures
            tag == self.spec_tag(),
    {
        match self {
            MessageBoxType::Info => 0,
            MessageBoxType::Warning => 1,
            MessageBoxType::Error => 2,
        }
    }
}

/// The host's application context, by its address. Valid for the host call
/// in which it was opened.
#[derive(Debug, PartialEq, Eq)]
pub struct XanteApp {
    data: usize,
}

impl View for XanteApp {
    type V = usize;

    closed spec fn view(&self) -> usize {
        self.data
    }
}

impl XanteApp {
    /// Opens the handle from what the lookup of [`crate::arguments::XPP`]
    /// gave: the handle on the address found, or the lookup's error code.
    pub fn new(found: Result<usize, i32>) -> (opened: Result<XanteApp, i32>)
        ensures
            found matches Ok(address) ==> opened matches Ok(app) && app@ == address,
            found matches Err(code) ==> opened == Err::<XanteApp, i32>(code),
    {
        match found {
            Ok(address) => Ok(XanteApp { data: address }),
            Err(code) => Err(code),
        }
    }

    /// The address of the host's context.
    pub fn address(&self) -> (address: usize)
        ensures
            address == self@,
    {
        self.data
    }

    /// The call that shows a message box of the given kind.
    pub fn message_box(&self, msg_type: MessageBoxType, title: &str, message: &str) -> (call:
        HostCall)
        requires
            representable(title@),
            representable(message@),
        ensures
            call@ == (HostCallView::MessageBox {
                xpp: self@,
                msg_type: msg_type.spec_tag(),
                title: host_string(title@),
                message: host_string(message@),
            }),
            call@.well_formed(),
    {
        HostCall::MessageBox {
            xpp: self.data,
            msg_type: msg_type.tag(),
            title: to_host(title),
            message: to_host(message),
        }
    }

    /// The call that runs the dialog named `dialog`.
    pub fn dialog(&self, dialog: &str) -> (call: HostCall)
        requires
            representable(dialog@),
        ensures
            call@ == (HostCallView::SingleRun { xpp: self@, dialog: host_string(dialog@) }),
            call@.well_formed(),
    {
        HostCall::SingleRun { xpp: self.data, dialog: to_host(dialog) }
    }
}

} // verus!
