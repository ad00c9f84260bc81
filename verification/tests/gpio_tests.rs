use taskpanel::config::GpioEnv;
use taskpanel::error::Error;
use taskpanel::gpio::{bool_to_u8, u8_to_bool, PinRegistry};
use taskpanel::hardware::{
    shutdown_pin_order, startup_pin_plan, GPIO_ID_BTN_DELETE, GPIO_ID_BTN_RELOAD,
    GPIO_ID_BTN_SCROLLL, GPIO_ID_BTN_SCROLLR, GPIO_ID_LED,
};

#[test]
fn level_encoding_round_trips() {
    assert_eq!(bool_to_u8(true), 1);
    assert_eq!(bool_to_u8(false), 0);
    assert!(u8_to_bool(1));
    assert!(!u8_to_bool(0));
    assert!(!u8_to_bool(2));
}

#[test]
fn operations_on_a_pin_that_is_not_open_fail() {
    let mut registry = PinRegistry::new();
    let expected = Error::InvalidArgument(String::from("Pin not open"));
    assert_eq!(registry.pin_record(0).unwrap_err(), expected);
    assert_eq!(registry.remove_pin(0).unwrap_err(), expected);
    assert_eq!(registry.set_output_value(0, true).unwrap_err(), expected);
    assert_eq!(registry.record_input_value(0, 1).unwrap_err(), expected);
}

#[test]
fn an_open_pin_starts_low_with_its_direction_recorded() {
    let mut registry = PinRegistry::new();
    registry.record_open(3, 17, false);
    let record = registry.pin_record(3).unwrap();
    assert_eq!(record.value, 0);
    assert_eq!(record.pin_num, 17);
    assert_eq!(record.output, 0);
}

#[test]
fn writing_a_level_updates_the_record_handed_to_the_driver() {
    let mut registry = PinRegistry::new();
    registry.record_open(0, 21, true);
    let record = registry.set_output_value(0, true).unwrap();
    assert_eq!(record.value, 1);
    assert_eq!(record.pin_num, 21);
    assert_eq!(registry.pin_record(0).unwrap().value, 1);
    let record = registry.set_output_value(0, false).unwrap();
    assert_eq!(record.value, 0);
}

#[test]
fn reading_a_level_stores_and_converts_the_driver_byte() {
    let mut registry = PinRegistry::new();
    registry.record_open(2, 27, false);
    assert!(registry.record_input_value(2, 1).unwrap());
    assert_eq!(registry.pin_record(2).unwrap().value, 1);
    assert!(!registry.record_input_value(2, 0).unwrap());
    assert_eq!(registry.pin_record(2).unwrap().value, 0);
}

#[test]
fn a_closed_pin_is_gone_and_its_record_comes_back() {
    let mut registry = PinRegistry::new();
    registry.record_open(1, 22, false);
    let record = registry.remove_pin(1).unwrap();
    assert_eq!(record.pin_num, 22);
    assert!(registry.pin_record(1).is_err());
}

#[test]
fn startup_opens_the_led_then_the_buttons_in_order() {
    let gpio = GpioEnv {
        led_pin: 21,
        reload_btn_pin: 10,
        scrollr_btn_pin: 11,
        scrolll_btn_pin: 12,
        done_btn_pin: 13,
    };
    let plan = startup_pin_plan(&gpio);
    let ids: Vec<u32> = plan.iter().map(|p| p.id).collect();
    assert_eq!(
        ids,
        vec![
            GPIO_ID_LED,
            GPIO_ID_BTN_RELOAD,
            GPIO_ID_BTN_SCROLLR,
            GPIO_ID_BTN_SCROLLL,
            GPIO_ID_BTN_DELETE,
        ]
    );
    assert_eq!(plan[0].pin_num, 21);
    assert!(plan[0].output);
    assert_eq!(plan[4].pin_num, 13);
    assert!(!plan[1].output);
}

#[test]
fn shutdown_closes_in_the_reverse_of_startup_order() {
    let gpio = GpioEnv {
        led_pin: 21,
        reload_btn_pin: 10,
        scrollr_btn_pin: 11,
        scrolll_btn_pin: 12,
        done_btn_pin: 13,
    };
    let mut startup_ids: Vec<u32> = startup_pin_plan(&gpio).iter().map(|p| p.id).collect();
    startup_ids.reverse();
    assert_eq!(shutdown_pin_order(), startup_ids);
}
