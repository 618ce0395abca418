# voyager

Firmware logic for the ZSA Voyager split keyboard, proved with Verus.

- `src/` is the verified library: the IS31FL3731 LED table, PWM buffers
  and bus traffic (`is31fl3731`), the MCP23018 right-half scan and run
  state machines (`mcp23018`), the default keymap and hand map (`keymap`), key hits for
  the Reactive palette effect (`lighting`), and the board bring-up
  register values (`board`).
- `app/` is the firmware around it: peripherals, the I2C bus, the RMK
  keyboard runtime and the async tasks. It runs the bus writes that the
  library plans and hands the results back.
- `tests/` exercises the library on concrete values.
