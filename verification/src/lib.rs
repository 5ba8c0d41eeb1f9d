//! Control logic for a two-player motor-ball game: the serial frame protocol
//! between the Raspberry Pi server and the Arduino Uno servo receiver, the
//! game countdown and hold-to-start rules of the server, and the motor and
//! LED decisions of the ESP ball firmware.

pub mod protocol;
pub mod uno_serial;
pub mod external;
pub mod uno_receiver;
pub mod link_laws;
pub mod servo_pwm;
pub mod countdown;
pub mod game_laws;
pub mod web_controls;
pub mod esp32_ball;
pub mod esp8266_ball;
pub mod oled;
pub mod motor_reply_laws;
pub mod ball_laws;
pub mod input_laws;
