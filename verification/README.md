# cosmic_connect_plugins

The device plugins of COSMIC Connect (notifications, telephony, file
sharing, run-command, power, system volume and monitor, screenshots, phone
authentication, remote input, remote desktop over VNC, screen sharing),
with their logic verified by Verus.

- `src/` is the verified library: the data models, packet bodies, parsers
  and serializers (RFB, the screen-share stream framing, `/proc` files, PNG
  headers), the encoders (raw, LZ4, Hextile), the bitrate controller and
  the plugins' state machines.  Each plugin decides what a packet does and
  returns it as a value (a step or a list of actions); contracts state the
  result over spec functions, and the laws that relate several operations
  are public proof functions.
- `app/` is the runtime around it: JSON bodies, DBus, the Desktop Portal,
  PipeWire and GStreamer, OpenH264, uinput, sockets, files, processes and
  the Wayland overlay of the laser pointer.  It reads what the library
  needs into plain values, calls it, and performs what comes back.
- `tests/` runs the library on concrete values.

Calls into outside crates that stay in the library (base64, LZ4, the
standard library's clock and `to_lowercase`) go through small trusted
wrappers whose contracts say what the crate documents.  Integer parsing is
the library's own, verified against its spec.
