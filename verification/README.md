# K:04 firmware

The logic of the K:04 split keyboard, written in Verus: the PMW3610 trackball,
the mouse reports that come of it, the BLE link to the host, the status LED and
the build-time configuration.

- `src/` is the library. Its functions have contracts that Verus proves. Calls
  into other crates (`embassy-time`, `embassy-sync`, `heapless`, `trouble-host`,
  `syn`) stand behind small `external_body` functions, whose contracts are
  believed and whose comments say what is claimed. Tasks that wait for the
  outside world are state machines: `action` (or `op`) names the work that is
  due, `advance` takes what came of it.
  - `pmw3610`, `pmw3610_tasks`, `pointing`: the sensor and its register
    transactions.
  - `trackball`, `trackball_laws`, `motion_pacing`: the trackball task.
  - `channel`, `queue`, `mouse_chunk`, `hid`: reports on their way to a host.
  - `ble_*`, `device_info`, `battery`: the host link.
  - `rtt_diag`, `rtt_diag_left`, `scheduler_probe`: low-rate diagnostics.
  - `layer_led`, `split_event`, `uf2_usb_cleanup`, `keyboard_config`,
    `features`, `time`: the rest of a half.
- `tests/` runs the library on concrete values.
- `app/` is ordinary Rust around it: pins, radio, clock, logs and code
  generation.

Functions whose names begin with `law_` state what holds of several operations
together.
