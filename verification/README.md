# blue_serial

A bridge that lets WLambda scripts find Bluetooth devices, open an RFCOMM
serial link to one of them, send bytes to it and receive its text on a
channel.

- `src/` is the verified library (Verus): device addresses (`address`),
  choosing the adapter and collecting discovered devices (`discovery`), the
  serial client profile and the decisions while a device connects
  (`connect`), what is done with each read from the link (`reader`), and the
  script-facing answers and argument checks (`script`).
- `app/main.rs` is the host program: it talks to BlueZ through `bluer`, runs
  the `tokio` runtime, lists serial ports with `serialport`, builds WLambda
  values and runs the script, and asks the library for every decision.
- `tests/` runs the library on concrete values.
