# zwm

A small tiling window manager for Windows. The primary window takes the
left part of the desktop; the other top-level windows share the column to
its right, stacked from top to bottom. While a Windows key is held, other
key presses are caught by a low-level keyboard hook and reported as
hotkeys; H and K are bound to shrinking and growing the primary window.

- `src/` is the verified library (Verus): geometry (`math`), the column
  layout and the hotkey bindings (`layout`), the choice of the windows to
  tile (`selection`), and the window rules and keyboard-hook state machine
  (`winapi`, `winapi::hook`, `winapi::key`).
- `app/` is the program around it: the Win32 declarations and calls, the
  message loop, and the floating-point share of the desktop width.
- `tests/` runs the library on concrete inputs.
