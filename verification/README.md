# bambu_print_rs

An emulator of a Bambu Lab X1 Carbon 3D printer with a four-slot AMS, speaking
the printer's MQTT protocol (status reports on `device/{serial}/report`,
requests on `device/{serial}/request`).

- `src/` is the library, verified with Verus: the printer and AMS state and
  its transitions, the configuration, the report and request messages, the
  handling of requests (light control, status push, print start, pause,
  resume, stop, G-code temperature lines), the stage machine of the print
  simulation, and the broker settings. `src/laws.rs` states the properties
  that span several operations.
- `app/` is the program around it: command-line arguments, the embedded
  broker, the MQTT client loops, JSON encoding and decoding, and the
  floating-point physics of the simulation (heating and cooling curves,
  scaled time), which hands its readings to the library.
- `tests/` exercises the library on concrete values.

Temperatures travel through the library as the bit patterns of the
single-precision numbers that the protocol carries; all arithmetic on them
happens in `app/`.
