# flip_companion

Bottom-screen companion panel for the AYANEO Flip DS: a keyboard, window
shuttle, app launcher and system stats on the second screen.

- `src/` is the verified library (Verus): key mapping for the virtual
  keyboard, the rolling stats history, window-shuttle decisions, framebuffer
  pixel blending and rotation, and the small state machines of the touch,
  keyboard, launcher and compositor threads. Each public function carries a
  contract; the laws that relate several functions are proof functions next
  to them.
- `app/` is the program around it: the Slint UI, D-Bus, uinput, DRM, the
  Wayland compositor and everything else that does I/O or floating point.
- `tests/` exercises the library on concrete values.
