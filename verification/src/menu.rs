//! Menus: the entries of a menu bar, the keyboard shortcuts they
//! declare, and how the open menus react to the pointer and keyboard.

pub mod shortcut;
pub mod item;
pub mod bar;
pub mod button;
