# mad_rust

A configuration tool for the MMO7 programmable mouse, in two parts: a driver
that reads the mouse and emulates the input its profile asks for, and an
interface that edits the profiles. They talk over a local socket.

`src/` is the verified library:

- `tokenizer`: macro texts (`a{+SHIFT}b{REPEAT}...`) split into tokens.
- `mmo7`: the mouse's profiles (`buttons`, `profiles`), the mice being
  handled (`devices`), the mapping of a report to emulated input (`mapper`),
  and the driver's answers to the interface (`driver`).
- `connection`: the commands exchanged (`command`, encoded with bincode), the
  framing of messages on the socket (`frame`), and the interface's handling
  of what drivers send (`interface`).
- `ui`, `window`: the interface's decisions: what a click does, the macro
  editor and the configurator's events, window geometry.
- `time`, `thread`: loop pacing and the single-instance check.

Two collections are held differently from how the program first held them:

- The mice being handled are kept in a `hashbrown::HashSet<String>`, as
  before, but inside `ConnectedDevices`, a struct whose body Verus does not
  read, reached through small trusted functions. Verus refuses to declare
  `hashbrown::HashSet` itself: its allocator parameter is bounded by a
  trait that hashbrown does not export.
- The profiles by serial number, first a `std::collections::BTreeMap<String,
  ButtonConfigs>`, are a `ProfileStore`: two vectors with no serial number
  twice, proved to behave as a map. Key order, which the map kept, is used
  nowhere.

`app/` is the driver program around the library: USB access (rusb), input
emulation (enigo), the socket threads, the profile file, and the lock and
queue helpers shared between threads. With the argument `interface` it runs
the interface's connection side: it accepts the drivers, keeps what they
report and prints the mice that come and go. The interface's window (drawn
with webrender in a winit window) is not part of this program, so nothing
here sends the interface's requests to a driver; the library's
`request_device_config_bytes` and `apply_device_config_bytes` build them.
The driver's icon image is not part of the sources, so the driver announces
itself with an empty icon, which the interface shows as no icon.

`tests/` exercises the library on concrete values.
