# whatcable

What can each USB cable, port and device on a Linux machine actually do?
This crate answers from the kernel's `/sys` tree: it decodes USB Binary
Object Store descriptors, USB Power Delivery objects and cable e-markers,
pairs Type-C ports with their PD nodes and USB devices, diagnoses charging
bottlenecks, and renders the result as text, as a bus tree, as JSON, or
over D-Bus.

The library in `src/` is written in Verus: every function carries a
contract over a mathematical model of its inputs and outputs, and the
properties of the library as a whole are proved in `src/theorems.rs`.

## Layout

- `src/` — the verified library
  - `bos`, `pd`, `power`, `typec`, `cable`, `usb`, `thunderbolt`: the data
    model and the descriptor decoders
  - `vendor`, `usbclass`, `classify`, `version`: names and classification
  - `diagnostic`, `summary`, `manager`, `topology`: charging diagnosis,
    per-device summaries, snapshots and their diffs, the USB tree
  - `sysfs`: interpretation of attribute files (trimming, number parsing,
    PDO directories, identities, routers, ports)
  - `render`: the coloured text listing and tree, as lines
  - `json`: the `--json` view of a summary, as a JSON value of its own
  - `watch`, `dbus`: the hot-plug debounce, and the D-Bus wire records,
    state and change signals
  - `text`, `fixed`: string and fixed-point helpers
  - `theorems`: laws of the library
- `tests/` — tests of the library
- `app/` — the `whatcable` command line and the `usbeehived` daemon:
  reading `/sys`, printing, serde output, the udev socket and the D-Bus
  service
