# plane_system

The on-board software of a camera drone, with its decision logic verified by
Verus.

- `src/` is the verified library:
  - `camera/`: the Sony camera's property, control and command codes, the
    console's camera requests and their plans, the table of reported
    properties, the decisions of the camera client (settings, captures,
    events, errors), the PTP listing names, and the GStreamer pipelines of the
    auxiliary cameras;
  - `pixhawk/`: MAVLink v2 framing (encoding, frame search, checksum check,
    a receive buffer) and the parameter and command helpers of the flight
    controller link;
  - `scheduler/`: capture request identities and the capture scheduler;
  - `util.rs`, `gs.rs`, `cli.rs` and the small modules: hexadecimal handles,
    retry budgets, decimal formatting, image media types.
- `tests/` runs the library on concrete values, against the real `mavlink`
  and `crc-any` crates.
- `app/` is the program around it: arguments, configuration, the console,
  the UDP link to the flight controller, uploads to the ground server, the
  GStreamer processes, and the floating-point telemetry.
