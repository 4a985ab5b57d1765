# iced_ui

The verified core of a component library for the `iced` GUI toolkit.

`src/` holds the logic of the widgets, each function with a contract
proved by Verus:

- `calendar`, `datetime`, `picker`, `inputs`: the calendar model (day
  grid, month navigation, paged year list), date/time text formats, and
  the state machine of the date, time and date-time input fields.
- `number_input`: numeric value types, typing validation, stepping and
  committing of the number field.
- `menu`: menu entries, keyboard shortcuts (matching and labels), and
  the state machines of the menu bar and the menu button.
- `interaction` and the widget modules (`bottom_sheet`, `button`, `checkbox`, `chip`,
  `fab`, `icon_button`, `list`, `segmented_button`, `navigation_rail`,
  `navigation_drawer`, `dialog`, `color_picker`, `badge`, `progress`,
  `position`, `screen`, `card`, `divider`, `space`): the shared
  hover/press machine, statuses, labels and configuration of each
  widget.
- `text`: decimal rendering and integer parsing used by the labels.

`app/` connects the library to `iced` and `chrono`: value and event
conversions, the shortcut subscription, floating-point geometry and
color math, and SVG rasterization.
