# cornix_prospector_rmk

Logic of the RMK firmware for the Cornix LP split keyboard with a Prospector dongle as its
BLE central, verified with Verus.

- `src/` is the verified library: the backlight steps and the brightness word the LCD reads
  (`backlight`), the re-publishing of a half's battery status (`battery_resend`), the keys the
  dongle releases when a half drops (`held_keys`), what the indicator LEDs show (`indicator`),
  the WS2812 frame words (`ws2812`), the LCD processor's redraw decisions, its framebuffer and
  the Anomaly 198 RAM block mask (`lcd`), and the layout of the status screen and which of its
  parts a redraw touches (`status_screen`). `connection` holds the link and battery state as
  plain values, `graphics` the `embedded-graphics` rectangle and color operations it uses.
- `tests/` runs the library on concrete values.
- `app/` is the firmware glue: pins, PWM, SPI, the panel, drawing with `embedded-graphics` and
  `u8g2-fonts`, and the RMK processors that carry out what the library decides.
