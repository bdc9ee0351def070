# nRF5340 DK drivers, verified

Verified logic of the Tock kernel's nRF5340 development kit board, written in
Verus.

- `src/` — the drivers as decisions over plain values, each with its
  contract and laws:
  - `touch_sensor` — the capacitive touch sensor (charge, time the discharge,
    report changes, periodic scanning, deferred disable);
  - `touch_driver` — the system-call driver of a touch sensor;
  - `usb_ctap` — the CTAP-over-USB system-call driver and its per-process
    records (one connected process at most);
  - `adc_entropy`, `mock_entropy` — entropy sources;
  - `power`, `ficr`, `uicr`, `approtect`, `registers` — register decoding and
    the register writes to perform;
  - `interrupt_service`, `board`, `components` — interrupt dispatch, the
    board's driver table and driver set-up.
- `app/` — the glue that performs the outside work: volatile register
  accesses, pin and alarm operations, the USB HID client and process buffers.
- `tests/` — tests on concrete values.
