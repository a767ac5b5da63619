//! The keys under which the host files, in the bundle it passes with each
//! call, the addresses that a plugin may ask for.

use vstd::prelude::*;

verus! {

/// The application context.
pub const XPP: &'static str = "xpp";

/// The item that the call is about.
pub const ITEM: &'static str = "item";

/// The menu that the call is about.
pub const MENU: &'static str = "menu";

/// The configuration file.
pub const CFG_FILE: &'static str = "cfg-file";

/// The plugin's own data.
pub const DATA: &'static str = "data";

/// The value that an event carries.
pub const VALUE: &'static str = "value";

} // verus!
