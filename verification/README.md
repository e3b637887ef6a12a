# ecchan

Control of the embedded controller (EC) of MSI laptops: shift modes, battery
charge thresholds, fan modes and curves, webcam, cooler boost, key swap and
LEDs, read from and written to the EC registers through the firmware layout
of each supported firmware.

`src/` is the library, verified with Verus:

- `fw`, `fw::g2_10`: register layouts and the values they hold.
- `models`: laptop models and their model-specific methods.
- `ec_sys`: the 256 registers and the log of writes made to them.
- `ec`: each feature read from and written to the registers; `ec::regs`
  states what each reads and writes, `ec::laws` proves that a setting reads
  back as written.
- `dump`: the registers as a hex table.
- `ipc`: the calls a client makes of the daemon and the replies.
- `client`: the client's copy of the daemon's state and how replies and
  accepted settings change it.
- `frame`: newline and COBS framing of replies.

`app/` is a small command-line front end that opens the `ec_sys` debugfs
file, runs the library and writes back the changes.
