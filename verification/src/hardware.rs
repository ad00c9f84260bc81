//! The fixed initialization and teardown order of the appliance's pins.
//!
//! Every physical resource is opened once at startup and closed once at
//! shutdown; the plans here pin down which logical pin goes to which physical
//! pin, with which direction, and in which order — teardown runs over the
//! same pins in reverse.

use vstd::prelude::*;
use crate::config::GpioEnv;

verus! {

/// Logical id of the indicator LED pin.
pub const GPIO_ID_LED: u32 = 0;

/// Logical id of the reload button pin.
pub const GPIO_ID_BTN_RELOAD: u32 = 1;

/// Logical id of the scroll-right button pin.
pub const GPIO_ID_BTN_SCROLLR: u32 = 2;

/// Logical id of the scroll-left button pin.
pub const GPIO_ID_BTN_SCROLLL: u32 = 3;

/// Logical id of the done button pin.
pub const GPIO_ID_BTN_DELETE: u32 = 4;

/// One pin to open: its logical id, its physical pin number, and whether it
/// is driven as an output.
#[derive(Debug, Clone, Copy, PartialEq, Eq, Structural)]
pub struct PinAssignment {
    pub id: u32,
    pub pin_num: u32,
    pub output: bool,
}

/// The pins initialization opens, in order: the LED as an output first, then
/// the four buttons as inputs.
pub open spec fn startup_plan_spec(gpio: GpioEnv) -> Seq<PinAssignment> {
    seq![
        (PinAssignment { id: GPIO_ID_LED, pin_num: gpio.led_pin, output: true }),
        (PinAssignment { id: GPIO_ID_BTN_RELOAD, pin_num: gpio.reload_btn_pin, output: false }),
        (PinAssignment { id: GPIO_ID_BTN_SCROLLR, pin_num: gpio.scrollr_btn_pin, output: false }),
        (PinAssignment { id: GPIO_ID_BTN_SCROLLL, pin_num: gpio.scrolll_btn_pin, output: false }),
        (PinAssignment { id: GPIO_ID_BTN_DELETE, pin_num: gpio.done_btn_pin, output: false }),
    ]
}

/// The logical ids teardown closes, in order: the startup order reversed.
pub open spec fn shutdown_order_spec() -> Seq<u32> {
    seq![
        GPIO_ID_BTN_DELETE,
        GPIO_ID_BTN_SCROLLL,
        GPIO_ID_BTN_SCROLLR,
        GPIO_ID_BTN_RELOAD,
        GPIO_ID_LED,
    ]
}

/// The pins initialization opens, in order.
pub fn startup_pin_plan(gpio: &GpioEnv) -> (r: Vec<PinAssignment>)
    ensures
        r@ == startup_plan_spec(*gpio),
{
    let mut r: Vec<PinAssignment> = Vec::new();
    r.push(PinAssignment { id: GPIO_ID_LED, pin_num: gpio.led_pin, output: true });
    r.push(PinAssignment { id: GPIO_ID_BTN_RELOAD, pin_num: gpio.reload_btn_pin, output: false });
    r.push(PinAssignment { id: GPIO_ID_BTN_SCROLLR, pin_num: gpio.scrollr_btn_pin, output: false });
    r.push(PinAssignment { id: GPIO_ID_BTN_SCROLLL, pin_num: gpio.scrolll_btn_pin, output: false });
    r.push(PinAssignment { id: GPIO_ID_BTN_DELETE, pin_num: gpio.done_btn_pin, output: false });
    proof {
        assert(r@ =~= startup_plan_spec(*gpio));
    }
    r
}

/// The logical ids teardown closes, in order.
pub fn shutdown_pin_order() -> (r: Vec<u32>)
    ensures
        r@ == shutdown_order_spec(),
{
    let mut r: Vec<u32> = Vec::new();
    r.push(GPIO_ID_BTN_DELETE);
    r.push(GPIO_ID_BTN_SCROLLL);
    r.push(GPIO_ID_BTN_SCROLLR);
    r.push(GPIO_ID_BTN_RELOAD);
    r.push(GPIO_ID_LED);
    proof {
        assert(r@ =~= shutdown_order_spec());
    }
    r
}

/// Law: teardown closes exactly the pins that initialization opened, in the
/// reverse order.
pub proof fn lemma_shutdown_reverses_startup(gpio: GpioEnv)
    ensures
        shutdown_order_spec() == startup_plan_spec(gpio).map_values(
            |p: PinAssignment| p.id,
        ).reverse(),
{
    assert(shutdown_order_spec() =~= startup_plan_spec(gpio).map_values(
        |p: PinAssignment| p.id,
    ).reverse());
}

} // verus!
