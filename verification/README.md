# headset_battery_indicator

A Windows tray indicator for the battery of a wireless headset, with its
decisions and pixel work written in Verus and proved against their contracts.

- `src/` is the verified library:
  - `battery`: the theme and battery-status values everything else reads;
  - `icon`: the embedded tray icon for a reading, `put_pixel`, `draw_digit`
    and the 16x16 number icon, with its pixels stated exactly;
  - `lang`: interface texts in five languages and the choice of language from
    the system locale;
  - `notify`: when a battery notification is raised, what it says, which
    picture goes with it, the square logo made from that picture, and the
    `file://` URI of the logo;
  - `overlay`: the slide-in overlay's animation timer, texts, colours, the
    path data of its battery outline and the packing of its pixels;
  - `settings`: the user's settings and what the tray menu does to them;
  - `tray`: the tray picture for a reading and the polling loop's decisions;
  - `text`: string comparison and decimal formatting.
- `app/` is the program around it: the winit event loop, the tray icon and
  menu, the registry, Windows toast notifications and the floating-point
  drawing of the overlay.
- `tests/` runs the library on concrete values.
