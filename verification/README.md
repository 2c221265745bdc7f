# notify_sleep

A bedtime on-screen display: at start it plays an alert sound and shows a
full-screen "time to sleep" alert, then a centred countdown card that shrinks
into a badge in the screen's corner, and when the countdown ends it suspends
the machine.

- `src/` is the verified library (Verus): the overlay's state machine
  (`state_machine`), the per-frame decisions of the X11 overlay (`osd_app`),
  the Wayland layer-shell overlay (`layer_overlay`), the countdown text
  (`countdown`), the alert's volume envelope (`alert`), the session detection
  and layer-shell check (`session`), and the monotonic time they are timed on
  (`clock`).
- `app/` is the program around it: windows and drawing (egui/eframe, iced with
  layer shell), X11 window properties, sound playback, suspending through
  D-Bus, and reading the environment.  `app/main.rs` runs the X11 overlay, or
  with the argument `wayland` the Wayland overlay, or with `simple` a small
  countdown window.
- `tests/` runs the library on concrete values.
