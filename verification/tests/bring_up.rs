//! The bring-up sequence, run against the register model.

use pico_led::mcu::Mcu;
use pico_led::mcu::clear_io_bank_0_reset;
use pico_led::mcu::select_sio_for_pin25;
use pico_led::mcu::set_pin25_to_output;
use pico_led::mcu::turn_on_led;

#[test]
fn clear_reset_clears_only_the_gpio_bit() {
    // The RP2040 comes up with every peripheral's reset bit high.
    let mut m: Mcu = Mcu::power_on(0x01ff_ffff);
    clear_io_bank_0_reset(&mut m);
    // Bit 5 went low; every other bit — the QSPI flash among them — stayed.
    assert_eq!(m.resets_reset, 0x01ff_ffdf);
    // The done register reports the GPIO peripheral ready.
    assert_eq!(m.resets_reset_done & 0x20, 0x20);
    // Nothing else was touched.
    assert_eq!(m.gpio25_ctrl, 0);
    assert_eq!(m.sio_gpio_out, 0);
    assert_eq!(m.sio_gpio_oe, 0);
}

#[test]
fn select_sio_writes_the_funcsel_value() {
    let mut m: Mcu = Mcu::power_on(0x01ff_ffff);
    clear_io_bank_0_reset(&mut m);
    select_sio_for_pin25(&mut m);
    // The whole control register holds the SIO function-select code.
    assert_eq!(m.gpio25_ctrl, 0x5);
}

#[test]
fn set_pin25_raises_level_and_enable() {
    let mut m: Mcu = Mcu::power_on(0x01ff_ffff);
    set_pin25_to_output(&mut m);
    assert_eq!(m.sio_gpio_out, 0x0200_0000);
    assert_eq!(m.sio_gpio_oe, 0x0200_0000);
}

#[test]
fn set_pin25_leaves_other_pins_alone() {
    let mut m: Mcu = Mcu::power_on(0x01ff_ffff);
    // Pins 0 and 3 were configured earlier.
    m.sio_gpio_out = 0x0000_0009;
    m.sio_gpio_oe = 0x0000_0009;
    set_pin25_to_output(&mut m);
    assert_eq!(m.sio_gpio_out, 0x0200_0009);
    assert_eq!(m.sio_gpio_oe, 0x0200_0009);
}

#[test]
fn full_bring_up_lights_the_led() {
    let mut m: Mcu = Mcu::power_on(0x01ff_ffff);
    turn_on_led(&mut m);
    assert_eq!(m.resets_reset, 0x01ff_ffdf);
    assert_eq!(m.resets_reset_done & 0x20, 0x20);
    assert_eq!(m.gpio25_ctrl, 0x5);
    assert_eq!(m.sio_gpio_out & 0x0200_0000, 0x0200_0000);
    assert_eq!(m.sio_gpio_oe & 0x0200_0000, 0x0200_0000);
}

#[test]
fn bring_up_from_a_partly_released_chip() {
    // A chip on which some other code already released a few peripherals.
    let mut m: Mcu = Mcu::power_on(0x01ff_f0a5);
    turn_on_led(&mut m);
    assert_eq!(m.resets_reset, 0x01ff_f085);
    assert_eq!(m.gpio25_ctrl, 0x5);
}
