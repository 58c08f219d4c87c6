# win_desktop_switcher

Smooth switching between Windows 11 virtual desktops: Win+←/→, Win+wheel,
Win+1..9 and the wheel over a hot zone at the bottom of the screen, with a
"film strip" or native-swipe animation and a "2 / 5" indicator.

- `src/` is the verified library: desktop navigation (`desktop`), the keyboard
  and mouse-wheel hook state machines (`hotkey`, `wheel`), the indicator's
  message packing, timing and layout (`overlay`), the film-strip plan and the
  CSS easing reader (`slide_overlay`), touch-swipe parameters and geometry
  (`touch`), the tray menu and configuration reload (`tray`), running at
  startup (`autostart`), the worker's action decisions (`worker`), the
  configuration model (`config`) and character-level string handling (`text`).
  The laws of navigation, the hooks, the indicator, the film strip, the
  worker, the configuration path and running at startup stand as public proof functions in their
  modules; the touch, tray and text modules state what they do in their functions' contracts.
- `app/` is the Windows program around it: the hooks, windows, GDI drawing,
  registry, touch injection, the virtual-desktop service (winvd), the TOML
  file, threads, and the floating-point easing curves.
- `tests/` runs the library on concrete values.
