# pipe_net

Protocol core of a three-node LoRa sensor network for a utility tunnel, written
in Verus. A sensor reports temperature and humidity to a relay, the relay passes
them on to a gateway, and the gateway broadcasts the clock and the TDMA schedule
that all nodes follow.

- `src/` is the verified library. It does no I/O: it encodes and decodes frames,
  keeps each node's state, decides what is sent when, and renders reports.
  - `protocol`, `payload`, `bytes`, `crc`, `buffers`: frames on the wire.
  - `stream`: frames in a noisy byte stream.
  - `tdma`: the schedule and clock synchronization.
  - `demo`: the protocol state of a node.
  - `alarm`, `liveness`, `pending`, `relay`: alarms, who is online, retries, and
    store-and-forward.
  - `core_state`, `node_core`: the decisions of the core task.
  - `core_log`, `demo_log`, `text`: counters and reports.
  - `hardware`, `sensors`, `transport`: settings, sensor readings, and module
    configuration.
  - modules whose names end in `_laws`: what holds of all of this together.
- `tests/` runs the library on concrete values.
- `app/` is the firmware around it for the ESP32-C3. The compiler option
  `--cfg feature="..."` with `gateway-node`, `relay-node` or `sensor-node` selects
  the role of an image; without it an image is a gateway, and with two of them it
  does not compile.

The library hands out frames in a `Vec` and log lines in a `String`, so the
firmware needs a heap: it sets one of 32 KiB up with `esp-alloc` when it boots.

What the library assumes of the `heapless` collections is stated in `buffers` and
`relay`.
