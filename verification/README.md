# robot_io

Control logic of a two-board robot (a battery board with four servos, a legs board with twelve
servos and two BLDC motors), verified with Verus.

- `src/` — the verified library: duty-cycle arithmetic (`pwm`), the state of a PWM unit
  (`output`, `servo`, `bldc`), rows of servos (`bank`), the two boards and their UDP control
  cycle (`batt`, `legs`), the postcard messages and length-prefixed frames (`types`, `wire`),
  the TCP link state machine (`link`) and cross-operation properties (`laws`).
- `app/` — the ESP-IDF firmware around it: Wi-Fi, sockets, LEDC drivers, threads and the
  atomics shared between the TCP link and the control loop.
- `tests/` — tests of the library on concrete values.

The library decides; the firmware carries out: every unit operation returns the duty to write
to its LEDC channel (if any), and the firmware performs the write.
