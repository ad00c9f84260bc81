//! The appliance's configuration: where the remote store lives, how to
//! authenticate, and which GPIO pins the indicator and the four buttons sit
//! on. It is loaded from a file outside the library — fatal when missing at
//! startup, ignored when missing on a reload.

use vstd::prelude::*;

verus! {

/// The GPIO pin assignments.
#[derive(Debug, Clone, Copy, PartialEq, Eq, Structural)]
pub struct GpioEnv {
    pub led_pin: u32,
    pub reload_btn_pin: u32,
    pub scrollr_btn_pin: u32,
    pub scrolll_btn_pin: u32,
    pub done_btn_pin: u32,
}

/// The full configuration.
#[derive(Debug, Clone, PartialEq, Eq)]
pub struct Env {
    pub host: String,
    pub username: String,
    pub password: String,
    pub gpio: GpioEnv,
}

} // verus!
