//! Logic shared by the firmware of the Cornix LP halves and the Prospector dongle.
pub mod status_screen;
pub mod connection;
pub mod held_keys;
pub mod ws2812;
pub mod indicator;
pub mod lcd;
pub mod graphics;
pub mod backlight;
pub mod battery_resend;
