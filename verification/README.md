# deskmsg

A desktop message hub: an MQTT broker, an HTTP file service and service
discovery (mDNS or Bluetooth LE), offered to Rust, C and Node.js programs.

`src/` is the verified library (Verus). It holds the decisions the hub
makes, each with its contract (the writing of JSON stays in `app/`):

- `acl` – the broker's access rule (client identifiers starting with `ac_`).
- `http` – the set-once HTTP settings, the `X-AUTH` token check, the
  download path, and the upload steps as a state machine (a target whose parent is not the upload
  directory is refused before anything is copied). Whether a name such as
  `../x` or `sub/x` leaves the directory is decided by std's `Path::parent`
  and `Path` equality; the library states, as trusted facts from their
  documentation, that `/` separates components and that the parent drops
  the final component, and proves from them that such names are refused
  and a plain file name is accepted.
- `server` – the configuration, what a started server reports, and the
  slot that holds the one server of a process, with the start steps.
- `discovery` – opening an mDNS browse and what it keeps of the events it
  hears.
- `ble` – the start of a scan (no adapter, no devices), the scan filter,
  and the choice of the characteristic a message is written to.
- `c_api`, `node_api`, `error` – status codes and the framing of the texts
  handed across the C and Node.js boundaries.
- `text` – prefix and substring tests.

`app/` binds the sockets, runs rmqtt, salvo and mdns-sd, drives the state
machines of the library, and exports the C and Node.js functions.
`tests/` runs the library on concrete values.
