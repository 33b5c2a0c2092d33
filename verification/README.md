# boba_cat

The verified core of a desktop pet that walks along the bottom edge of the
primary monitor.

- `src/` is the library, checked by Verus:
  - `placement`: clamping a dragged window onto the monitor, the window's top
    edge on the bottom of the monitor, and the offset/free-width pair from
    which the position is stored as a resolution-independent fraction;
  - `ide`: whether the active window's application is an IDE (through the
    `regex` crate);
  - `session`: whether the session is GNOME on Wayland, and the class name in
    an X11 `WM_CLASS` value;
  - `watch`: when to report developer mode to the front end;
  - `tray`: tray menu commands, labels and the autostart check mark;
  - `text`: whitespace trimming, ASCII case folding and separator fields.
- `app/` is the Tauri host: windows, tray, files, the X11 connection, the
  polling thread and the floating-point fraction arithmetic.
- `tests/` exercises the library on concrete values.
