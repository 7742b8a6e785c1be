# bt-hci

Bluetooth HCI types and logic, verified with Verus: the byte codecs of HCI
parameters, commands, events and data packets (each decoder proved to take
back what the matching encoder writes), the command opcodes, the command
slots of a controller (which command waits for which completion), the
decision what to do with each packet read from a controller, the UUID and
appearance values, and the text of the assigned-number modules.

Layout:

- `src/` — the verified library (`param`, `cmd`, `event`, `data`,
  `controller`, `transport`, `uuid`, `update_uuids`).
- `tests/` — tests of the library on concrete values.
- `app/` — the unverified I/O around it: reading packets from
  `embedded-io` readers, the serial transport, the asynchronous controller,
  the `Drop` guards, and the program that fetches the Bluetooth SIG
  repository, reads its YAML files and writes the module files.
