//! Verified logic of the ZSA Voyager keyboard firmware: the per-key RGB
//! layout and PWM buffers of the two IS31FL3731 drivers, the right-half
//! MCP23018 matrix scanner, the default keymap, and the board bring-up
//! register arithmetic.
pub mod board;
pub mod bus;
pub mod is31fl3731;
pub mod keymap;
pub mod lighting;
pub mod mcp23018;
