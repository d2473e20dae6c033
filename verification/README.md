# Window Selector

A keyboard-driven Alt+Tab replacement for Windows. A hotkey (Ctrl+Alt+Q by default)
shows live thumbnails of the open windows in a grid, each with a home-row letter; a
second hotkey (Win+Y) puts the letters over the windows themselves. Press a letter to
select, Enter or Space to switch, Escape to dismiss; Ctrl+1..9 tags a window and 1..9
jumps back to it; Shift+1..9 moves the selected window to a monitor.

## Layout

- `src/` — the library `window_selector`, verified with Verus: letter assignment, MRU
  ordering, the key-handling decision table, number tags, fades, window placement,
  occlusion and label placement for label mode, hotkey names, the settings window's
  layout, hit testing and hotkey recorder, the startup entry's path handling, and the
  decisions of the message loop.
- `tests/` — tests of the library.
- `app/` — the Win32 program around the library: message loop, windows, hooks, DWM
  thumbnails, Direct2D and GDI drawing, the registry, and the TOML configuration file.
  It reads what the library's decisions need from the OS and carries them out.
