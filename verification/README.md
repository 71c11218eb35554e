# Lumentra

The firmware of a small USB MIDI controller on an RP2040: four buttons that play
notes, a VL53L0X distance sensor that moves a controller value, a 128 x 128 colour
display and a buzzer.

* `src/` is a Verus library with everything that the firmware decides: MIDI packets,
  the bus traffic of the display, the tones of the buzzer, and the controller itself,
  a state machine that says what the board is to do next and takes in how that went.
  It also proves what the traffic paints on the panel, what a whole round of looking
  at the controls does, and that screen and host follow the controls.
* `app/` runs on the board. It owns the peripherals and performs the actions that
  the library asks for.
* `tests/` runs the library on concrete values.

Two things to know about the display:

* Before the first measurement the controller value is 255, which is none that a
  distance gives. The position of its bar wraps around to the right of the visible
  area, so that the trough stays empty.
* When the report of a value is lost together with the host, that value is drawn with
  the dashboard for the next host, and the bar is redrawn only once the value differs
  from the one for which it was last redrawn.
