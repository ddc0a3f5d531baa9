//! The blinker's decisions, step by step.

use pico_led::blink::Blinker;
use pico_led::blink::OFF_MILLIS;
use pico_led::blink::ON_MILLIS;
use pico_led::blink::PERIOD_MILLIS;
use pico_led::blink::PinLevel;

#[test]
fn first_step_lights_the_led_briefly() {
    let mut b: Blinker = Blinker::new();
    assert_eq!(b.level, PinLevel::Low);
    let cmd: (PinLevel, u64) = b.step();
    assert_eq!(cmd.0, PinLevel::High);
    assert_eq!(cmd.1, 50);
}

#[test]
fn second_step_darkens_it_for_the_rest_of_the_second() {
    let mut b: Blinker = Blinker::new();
    let _first: (PinLevel, u64) = b.step();
    let cmd: (PinLevel, u64) = b.step();
    assert_eq!(cmd.0, PinLevel::Low);
    assert_eq!(cmd.1, 950);
    assert_eq!(b.level, PinLevel::Low);
}

#[test]
fn the_pattern_repeats() {
    let mut b: Blinker = Blinker::new();
    for _ in 0..3 {
        let high: (PinLevel, u64) = b.step();
        assert_eq!(high, (PinLevel::High, ON_MILLIS));
        let low: (PinLevel, u64) = b.step();
        assert_eq!(low, (PinLevel::Low, OFF_MILLIS));
    }
}

#[test]
fn a_period_is_one_second() {
    assert_eq!(PERIOD_MILLIS, 1000);
    let mut b: Blinker = Blinker::new();
    let first: (PinLevel, u64) = b.step();
    let second: (PinLevel, u64) = b.step();
    assert_eq!(first.1 + second.1, PERIOD_MILLIS);
}
