//! Accent colours of chat messages.

use vstd::prelude::*;

verus! {

pub const GREEN: u32 = 0x00ff00;

pub const RED: u32 = 0xff0000;

pub const BLUE: u32 = 0x0000ff;

pub const YELLOW: u32 = 0xffff00;

pub const ORANGE: u32 = 0xffa500;

pub const PURPLE: u32 = 0x800080;

pub const CYAN: u32 = 0x00ffff;

pub const GRAY: u32 = 0x808080;

} // verus!
