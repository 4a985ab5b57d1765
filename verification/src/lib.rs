//! Verified core of a component library for `iced`: calendar and
//! date/time picker logic, number and date text editing, menu models
//! and keyboard shortcuts, and the interaction state machines and
//! style tokens of the widgets.

pub mod badge;
pub mod bottom_sheet;
pub mod button;
pub mod calendar;
pub mod card;
pub mod checkbox;
pub mod chip;
pub mod color_picker;
pub mod datetime;
pub mod dialog;
pub mod divider;
pub mod fab;
pub mod icon_button;
pub mod inputs;
pub mod interaction;
pub mod list;
pub mod menu;
pub mod navigation_bar;
pub mod navigation_drawer;
pub mod navigation_rail;
pub mod number_input;
pub mod picker;
pub mod position;
pub mod progress;
pub mod screen;
pub mod segmented_button;
pub mod space;
pub mod text;
