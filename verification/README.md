# motorball

Verified control logic for a two-player motor-ball game.

- `src/protocol.rs`, `src/uno_serial.rs`, `src/uno_receiver.rs`,
  `src/link_laws.rs`: the five-byte serial frame (`0xA5 | sequence |
  player1 | player2 | CRC-8`), how the server builds it and paces and
  numbers its frames (the transmitter state machine), how the Uno parses
  it byte by byte, the servo timeout, and the laws that tie the two ends.
- `src/countdown.rs`, `src/game_laws.rs`: the game countdown and the
  five-second hold-to-start button.
- `src/web_controls.rs`, `src/servo_pwm.rs`, `src/oled.rs`: request parsing,
  mouse-button direction, the drift generator, servo pulse widths and the
  OLED screen layout.
- `src/esp32_ball.rs`, `src/esp8266_ball.rs`: motor and LED decisions of the
  ball firmware.
- `src/external.rs`: the standard-library calls whose behaviour the proofs
  rely on.
- `app/`: the Raspberry Pi web server (HTTP, gamepad, mouse, serial threads
  and the floating-point control mixing) around the library.

The library also holds the decisions of the ball firmware (ESP32, ESP8266)
and of the Uno servo receiver (`poll_server`, `drive_motors`, `drive_led`,
`PacketParser`, `ReceiverState`, `receive_byte`), but `app/` has no firmware
shell for them: those programs run on microcontrollers whose hardware crates
do not build for a host, and the ESP8266 main loop calls modules that its own
source tree never had. Only the tests call these functions here.
