//! The registers the LED bring-up touches, and the bring-up itself.
//!
//! The RP2040 uses memory-mapped I/O: reads and writes at certain addresses
//! reach peripheral hardware instead of memory. [`Mcu`] holds the value of
//! each register this crate cares about, and one method per register access
//! gives the access its meaning — a plain register reads back what was
//! written, while a `SET` alias only raises the bits of the written mask.
//!
//! On top of that model, the three bring-up steps are verified: what each
//! writes, what each leaves alone, and that together they end with the LED on.

use vstd::prelude::*;

verus! {

/// MMIO address of `RESETS.RESET`: bit `i` high holds peripheral `i` in reset.
pub const RESETS_RESET_ADDR: u32 = 0x4000_c000;

/// MMIO address of `RESETS.RESET_DONE`: bit `i` high reports peripheral `i`
/// out of reset and ready for use.
pub const RESETS_RESET_DONE_ADDR: u32 = 0x4000_c008;

/// MMIO address of `IO_BANK0.GPIO25_CTRL`, the control register of pin 25 —
/// the pin wired to the Pico's onboard LED.
pub const GPIO25_CTRL_ADDR: u32 = 0x4001_40cc;

/// MMIO address of `SIO.GPIO_OUT_SET`: writing a mask raises the output
/// level of the pins whose bits are high in the mask.
pub const SIO_GPIO_OUT_SET_ADDR: u32 = 0xd000_0014;

/// MMIO address of `SIO.GPIO_OE_SET`: writing a mask puts the pins whose
/// bits are high in the mask into output mode.
pub const SIO_GPIO_OE_SET_ADDR: u32 = 0xd000_0024;

/// Bit 5 of `RESETS.RESET` and `RESETS.RESET_DONE`: the IO bank 0 (GPIO)
/// peripheral, which controls the chip's ordinary pins.
pub const RESETS_IO_BANK0: u32 = 0x20;

/// The FUNCSEL field of a pin control register: bits 4..0 choose which
/// peripheral drives the pin.
pub const GPIO_CTRL_FUNCSEL_MASK: u32 = 0x1f;

/// The FUNCSEL value that routes a pin to SIO, the block that lets software
/// set the pin's level directly.
pub const GPIO_CTRL_FUNCSEL_SIO: u32 = 0x5;

/// Bit 25 of the SIO pin registers: pin 25.
pub const PIN25: u32 = 0x0200_0000;

/// Which peripheral a pin control register routes the pin to.
pub open spec fn funcsel(ctrl: u32) -> u32 {
    ctrl & GPIO_CTRL_FUNCSEL_MASK
}

/// The registers of the RP2040 that the LED bring-up reads or writes.
///
/// Each field is the current value of one register; the methods below are
/// the only accesses the bring-up makes, and each carries the register's
/// documented read or write semantics.
#[derive(Clone, Copy, Debug, PartialEq, Eq, Structural)]
pub struct Mcu {
    /// `RESETS.RESET`: bit `i` high holds peripheral `i` in reset.
    pub resets_reset: u32,
    /// `RESETS.RESET_DONE`: bit `i` high reports peripheral `i` ready.
    pub resets_reset_done: u32,
    /// `IO_BANK0.GPIO25_CTRL`: the control register of pin 25.
    pub gpio25_ctrl: u32,
    /// `SIO.GPIO_OUT`: the output level of each pin, one bit per pin.
    pub sio_gpio_out: u32,
    /// `SIO.GPIO_OE`: the output enable of each pin, one bit per pin.
    pub sio_gpio_oe: u32,
}

impl Mcu {
    /// The model's one idealization: a peripheral reports done exactly when
    /// its reset bit is clear. Real hardware may lag behind the write — that
    /// is what the bring-up's poll is for — but it settles to this.
    pub open spec fn wf(self) -> bool {
        self.resets_reset_done == !self.resets_reset
    }

    /// Is the GPIO peripheral still held in reset?
    pub open spec fn io_bank0_in_reset(self) -> bool {
        self.resets_reset & RESETS_IO_BANK0 != 0
    }

    /// Does the chip report the GPIO peripheral ready?
    pub open spec fn io_bank0_ready(self) -> bool {
        self.resets_reset_done & RESETS_IO_BANK0 != 0
    }

    /// Is pin 25's output level high?
    pub open spec fn pin25_is_high(self) -> bool {
        self.sio_gpio_out & PIN25 != 0
    }

    /// Is pin 25 in output mode?
    pub open spec fn pin25_is_output(self) -> bool {
        self.sio_gpio_oe & PIN25 != 0
    }

    /// The LED is lit when the GPIO peripheral is ready, pin 25 is routed to
    /// SIO, and the pin drives a high level as an output.
    pub open spec fn led_on(self) -> bool {
        &&& self.io_bank0_ready()
        &&& funcsel(self.gpio25_ctrl) == GPIO_CTRL_FUNCSEL_SIO
        &&& self.pin25_is_output()
        &&& self.pin25_is_high()
    }

    /// The chip as it comes up: the peripherals named by `resets_reset` held
    /// in reset, pin 25 unconfigured, all pins low and disabled.
    pub fn power_on(resets_reset: u32) -> (m: Mcu)
        ensures
            m.resets_reset == resets_reset,
            m.wf(),
            m.gpio25_ctrl == 0,
            m.sio_gpio_out == 0,
            m.sio_gpio_oe == 0,
    {
        Mcu {
            resets_reset,
            resets_reset_done: !resets_reset,
            gpio25_ctrl: 0,
            sio_gpio_out: 0,
            sio_gpio_oe: 0,
        }
    }

    /// Plain read of `RESETS.RESET`.
    pub fn read_resets_reset(&self) -> (v: u32)
        ensures
            v == self.resets_reset,
    {
        self.resets_reset
    }

    /// Plain read of `RESETS.RESET_DONE`.
    pub fn read_resets_reset_done(&self) -> (v: u32)
        ensures
            v == self.resets_reset_done,
    {
        self.resets_reset_done
    }

    /// Plain write of `RESETS.RESET`. The hardware releases or asserts the
    /// named resets; in this model it settles at once, so `RESET_DONE`
    /// reports the complement of the new value.
    pub fn write_resets_reset(&mut self, v: u32)
        ensures
            final(self).resets_reset == v,
            final(self).wf(),
            final(self).gpio25_ctrl == old(self).gpio25_ctrl,
            final(self).sio_gpio_out == old(self).sio_gpio_out,
            final(self).sio_gpio_oe == old(self).sio_gpio_oe,
    {
        self.resets_reset = v;
        self.resets_reset_done = !v;
    }

    /// Plain write of `IO_BANK0.GPIO25_CTRL`.
    pub fn write_gpio25_ctrl(&mut self, v: u32)
        ensures
            final(self).gpio25_ctrl == v,
            final(self).resets_reset == old(self).resets_reset,
            final(self).resets_reset_done == old(self).resets_reset_done,
            final(self).sio_gpio_out == old(self).sio_gpio_out,
            final(self).sio_gpio_oe == old(self).sio_gpio_oe,
    {
        self.gpio25_ctrl = v;
    }

    /// Write to the `SIO.GPIO_OUT_SET` alias: the pins named by the mask go
    /// high, every other pin keeps its level.
    pub fn write_gpio_out_set(&mut self, mask: u32)
        ensures
            final(self).sio_gpio_out == old(self).sio_gpio_out | mask,
            final(self).resets_reset == old(self).resets_reset,
            final(self).resets_reset_done == old(self).resets_reset_done,
            final(self).gpio25_ctrl == old(self).gpio25_ctrl,
            final(self).sio_gpio_oe == old(self).sio_gpio_oe,
    {
        self.sio_gpio_out = self.sio_gpio_out | mask;
    }

    /// Write to the `SIO.GPIO_OE_SET` alias: the pins named by the mask go
    /// into output mode, every other pin keeps its mode.
    pub fn write_gpio_oe_set(&mut self, mask: u32)
        ensures
            final(self).sio_gpio_oe == old(self).sio_gpio_oe | mask,
            final(self).resets_reset == old(self).resets_reset,
            final(self).resets_reset_done == old(self).resets_reset_done,
            final(self).gpio25_ctrl == old(self).gpio25_ctrl,
            final(self).sio_gpio_out == old(self).sio_gpio_out,
    {
        self.sio_gpio_oe = self.sio_gpio_oe | mask;
    }
}

/// Clearing the IO bank 0 bit of a reset value leaves bit 5 low, and the
/// complement that `RESET_DONE` then reports has bit 5 high.
proof fn lemma_io_bank0_cleared(v: u32)
    by (bit_vector)
    ensures
        (v & !RESETS_IO_BANK0) & RESETS_IO_BANK0 == 0,
        !(v & !RESETS_IO_BANK0) & RESETS_IO_BANK0 == RESETS_IO_BANK0,
{
}

/// Raising a mask into a register keeps every bit of the mask high.
proof fn lemma_or_keeps_mask(v: u32)
    by (bit_vector)
    ensures
        (v | PIN25) & PIN25 == PIN25,
{
}

/// Releasing IO bank 0 touches no other peripheral: the read-modify-write
/// clears bit 5 alone, so every other reset bit keeps its value. In
/// particular the QSPI flash the code runs from stays enabled.
pub proof fn lemma_release_leaves_other_peripherals(v: u32, peripheral: u32)
    by (bit_vector)
    requires
        peripheral < 32,
        (1u32 << peripheral) & RESETS_IO_BANK0 == 0,
    ensures
        (v & !RESETS_IO_BANK0) & (1u32 << peripheral) == v & (1u32 << peripheral),
{
}

/// A `SET` alias only raises the bits of the written mask: any pin whose bit
/// is outside the mask keeps its value. This is why the bring-up can
/// configure pin 25 without disturbing pins configured earlier.
pub proof fn lemma_set_alias_leaves_other_pins(v: u32, mask: u32, pin: u32)
    by (bit_vector)
    requires
        pin < 32,
        mask & (1u32 << pin) == 0,
    ensures
        (v | mask) & (1u32 << pin) == v & (1u32 << pin),
{
}

/// Releases the GPIO peripheral (IO bank 0) from reset, so that the chip's
/// pins can be controlled at all: read `RESETS.RESET`, clear the IO bank 0
/// bit — and only that bit — write the value back, then poll
/// `RESETS.RESET_DONE` until the peripheral reports ready.
pub fn clear_io_bank_0_reset(mcu: &mut Mcu)
    ensures
        final(mcu).resets_reset == old(mcu).resets_reset & !RESETS_IO_BANK0,
        final(mcu).wf(),
        !final(mcu).io_bank0_in_reset(),
        final(mcu).io_bank0_ready(),
        final(mcu).gpio25_ctrl == old(mcu).gpio25_ctrl,
        final(mcu).sio_gpio_out == old(mcu).sio_gpio_out,
        final(mcu).sio_gpio_oe == old(mcu).sio_gpio_oe,
{
    let ghost entry: Mcu = *mcu;

    let reset: u32 = mcu.read_resets_reset();
    mcu.write_resets_reset(reset & !RESETS_IO_BANK0);

    // On hardware the peripheral may take time to come out of reset, hence
    // the poll. The model settles as soon as the write lands, so the done
    // bit is already high here: the invariant makes the body unreachable,
    // which also discharges the decreases clause.
    while mcu.read_resets_reset_done() & RESETS_IO_BANK0 == 0
        invariant
            mcu.resets_reset == entry.resets_reset & !RESETS_IO_BANK0,
            mcu.wf(),
            mcu.gpio25_ctrl == entry.gpio25_ctrl,
            mcu.sio_gpio_out == entry.sio_gpio_out,
            mcu.sio_gpio_oe == entry.sio_gpio_oe,
        decreases 0int,
    {
        proof {
            lemma_io_bank0_cleared(entry.resets_reset);
        }
    }

    proof {
        lemma_io_bank0_cleared(entry.resets_reset);
    }
}

/// Routes pin 25 to SIO, so that software controls the pin directly. The
/// other fields of the control register are written to their reset value of
/// zero, which the bring-up does not care about.
pub fn select_sio_for_pin25(mcu: &mut Mcu)
    ensures
        final(mcu).gpio25_ctrl == GPIO_CTRL_FUNCSEL_SIO,
        funcsel(final(mcu).gpio25_ctrl) == GPIO_CTRL_FUNCSEL_SIO,
        final(mcu).resets_reset == old(mcu).resets_reset,
        final(mcu).resets_reset_done == old(mcu).resets_reset_done,
        final(mcu).sio_gpio_out == old(mcu).sio_gpio_out,
        final(mcu).sio_gpio_oe == old(mcu).sio_gpio_oe,
{
    mcu.write_gpio25_ctrl(GPIO_CTRL_FUNCSEL_SIO);
    assert(GPIO_CTRL_FUNCSEL_SIO & GPIO_CTRL_FUNCSEL_MASK == GPIO_CTRL_FUNCSEL_SIO)
        by (bit_vector);
}

/// Drives pin 25 high, then puts it into output mode — in that order, so the
/// pin never drives a stale low level. Both writes go through `SET` aliases,
/// so every other pin keeps its level and its mode.
pub fn set_pin25_to_output(mcu: &mut Mcu)
    ensures
        final(mcu).sio_gpio_out == old(mcu).sio_gpio_out | PIN25,
        final(mcu).sio_gpio_oe == old(mcu).sio_gpio_oe | PIN25,
        final(mcu).pin25_is_high(),
        final(mcu).pin25_is_output(),
        final(mcu).resets_reset == old(mcu).resets_reset,
        final(mcu).resets_reset_done == old(mcu).resets_reset_done,
        final(mcu).gpio25_ctrl == old(mcu).gpio25_ctrl,
{
    mcu.write_gpio_out_set(PIN25);
    mcu.write_gpio_oe_set(PIN25);
    proof {
        lemma_or_keeps_mask(old(mcu).sio_gpio_out);
        lemma_or_keeps_mask(old(mcu).sio_gpio_oe);
    }
}

/// The whole bring-up, in the only order that works: the GPIO peripheral is
/// released first, pin 25 is handed to SIO, and the pin goes high as an
/// output. Afterwards the model shows the LED on, with every other
/// peripheral's reset bit and every other pin untouched.
pub fn turn_on_led(mcu: &mut Mcu)
    ensures
        final(mcu).led_on(),
        final(mcu).wf(),
        final(mcu).resets_reset == old(mcu).resets_reset & !RESETS_IO_BANK0,
        final(mcu).gpio25_ctrl == GPIO_CTRL_FUNCSEL_SIO,
        final(mcu).sio_gpio_out == old(mcu).sio_gpio_out | PIN25,
        final(mcu).sio_gpio_oe == old(mcu).sio_gpio_oe | PIN25,
{
    clear_io_bank_0_reset(mcu);
    select_sio_for_pin25(mcu);
    set_pin25_to_output(mcu);
}

} // verus!
