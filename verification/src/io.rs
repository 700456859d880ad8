//! The two controllers and their serial ports at `$4016` and `$4017`.
use vstd::prelude::*;
use crate::ppu::registers::{bit, spec_bit};

verus! {

/// The buttons of a controller, in the order in which a port reports them.
#[derive(Clone, Copy, PartialEq, Eq, Structural, Debug)]
pub enum Button {
    A,
    B,
    Select,
    Start,
    Up,
    Down,
    Left,
    Right,
}

/// The two controller ports.
#[derive(Clone, Copy, PartialEq, Eq, Structural, Debug)]
pub enum Controller {
    One,
    Two,
}

/// The place of a button in the report of a port, 0 to 7.
pub open spec fn spec_button_index(button: Button) -> u8 {
    match button {
        Button::A => 0,
        Button::B => 1,
        Button::Select => 2,
        Button::Start => 3,
        Button::Up => 4,
        Button::Down => 5,
        Button::Left => 6,
        Button::Right => 7,
    }
}

/// The place of a button in the report of a port, 0 to 7.
pub fn button_index(button: Button) -> (result: u8)
    ensures
        result == spec_button_index(button),
{
    match button {
        Button::A => 0,
        Button::B => 1,
        Button::Select => 2,
        Button::Start => 3,
        Button::Up => 4,
        Button::Down => 5,
        Button::Left => 6,
        Button::Right => 7,
    }
}

/// The weight of bit `index` of a byte.
pub open spec fn spec_weight(index: u8) -> u8 {
    match index {
        0 => 1,
        1 => 2,
        2 => 4,
        3 => 8,
        4 => 16,
        5 => 32,
        6 => 64,
        _ => 128,
    }
}

/// The weight of bit `index` of a byte.
pub fn weight(index: u8) -> (result: u8)
    ensures
        result == spec_weight(index),
{
    match index {
        0 => 1,
        1 => 2,
        2 => 4,
        3 => 8,
        4 => 16,
        5 => 32,
        6 => 64,
        _ => 128,
    }
}

/// The byte `buttons` with bit `index` set or cleared.
pub open spec fn spec_with_bit(buttons: u8, index: u8, held: bool) -> u8 {
    if held && !spec_bit(buttons, index) {
        (buttons + spec_weight(index)) as u8
    } else if !held && spec_bit(buttons, index) {
        (buttons - spec_weight(index)) as u8
    } else {
        buttons
    }
}

/// The byte `buttons` with bit `index` set or cleared.
pub fn with_bit(buttons: u8, index: u8, held: bool) -> (result: u8)
    ensures
        result == spec_with_bit(buttons, index, held),
{
    if held && !bit(buttons, index) {
        (buttons + weight(index)) as u8
    } else if !held && bit(buttons, index) {
        (buttons - weight(index)) as u8
    } else {
        buttons
    }
}

/// One controller: the buttons held now, the buttons held when the state
/// was last latched, one bit to the button, and how many of those a port
/// has reported.
#[derive(Clone, Copy, PartialEq, Eq, Structural, Debug)]
pub struct Pad {
    pub pressed: u8,
    pub latched: u8,
    /// Buttons reported since the latch, 0 to 8.
    pub reported: u8,
}

/// A controller with no button held and nothing left to report.
pub open spec fn spec_idle_pad() -> Pad {
    Pad { pressed: 0, latched: 0, reported: 8 }
}

/// A controller with no button held and nothing left to report.
pub fn idle_pad() -> (result: Pad)
    ensures
        result == spec_idle_pad(),
{
    Pad { pressed: 0, latched: 0, reported: 8 }
}

/// 1 for a button that is held, 0 for one that is not.
pub open spec fn spec_level(held: bool) -> u8 {
    if held {
        1
    } else {
        0
    }
}

/// 1 for a button that is held, 0 for one that is not.
pub fn level(held: bool) -> (result: u8)
    ensures
        result == spec_level(held),
{
    if held {
        1
    } else {
        0
    }
}

/// The byte that a read of a port returns. While the strobe is high the
/// port reports button A as it is held now. Else it reports the latched
/// buttons one by one, and 1 once all eight are out.
pub open spec fn spec_pad_value(pad: Pad, strobe: bool) -> u8 {
    if strobe {
        spec_level(spec_bit(pad.pressed, 0))
    } else if pad.reported < 8 {
        spec_level(spec_bit(pad.latched, pad.reported))
    } else {
        1
    }
}

/// The byte that a read of a port returns. While the strobe is high the
/// port reports button A as it is held now. Else it reports the latched
/// buttons one by one, and 1 once all eight are out.
pub fn pad_value(pad: Pad, strobe: bool) -> (result: u8)
    ensures
        result == spec_pad_value(pad, strobe),
{
    if strobe {
        level(bit(pad.pressed, 0))
    } else if pad.reported < 8 {
        level(bit(pad.latched, pad.reported))
    } else {
        1
    }
}

/// The controller after a read of its port: one more button is reported,
/// unless the strobe is high or all eight are out.
pub open spec fn spec_pad_after_read(pad: Pad, strobe: bool) -> Pad {
    if !strobe && pad.reported < 8 {
        Pad { reported: (pad.reported + 1) as u8, ..pad }
    } else {
        pad
    }
}

/// The controller after a read of its port: one more button is reported,
/// unless the strobe is high or all eight are out.
pub fn pad_after_read(pad: Pad, strobe: bool) -> (result: Pad)
    ensures
        result == spec_pad_after_read(pad, strobe),
{
    if !strobe && pad.reported < 8 {
        Pad { reported: (pad.reported + 1) as u8, ..pad }
    } else {
        pad
    }
}

/// The controller after its buttons were latched.
pub open spec fn spec_pad_latched(pad: Pad) -> Pad {
    Pad { latched: pad.pressed, reported: 0, ..pad }
}

/// The controller after its buttons were latched.
pub fn pad_latched(pad: Pad) -> (result: Pad)
    ensures
        result == spec_pad_latched(pad),
{
    Pad { latched: pad.pressed, reported: 0, ..pad }
}

/// The controllers and the strobe that both share.
#[derive(Clone, Copy, PartialEq, Eq, Structural, Debug)]
pub struct Io {
    pub one: Pad,
    pub two: Pad,
    /// Bit 0 of the byte last written to `$4016`.
    pub strobe: bool,
}

/// The byte that a read of a port returns.
pub open spec fn spec_port_value(io: Io, controller: Controller) -> u8 {
    match controller {
        Controller::One => spec_pad_value(io.one, io.strobe),
        Controller::Two => spec_pad_value(io.two, io.strobe),
    }
}

/// The byte that a read of a port returns.
pub fn port_value(io: Io, controller: Controller) -> (result: u8)
    ensures
        result == spec_port_value(io, controller),
{
    match controller {
        Controller::One => pad_value(io.one, io.strobe),
        Controller::Two => pad_value(io.two, io.strobe),
    }
}

/// The controllers after a read of a port.
pub open spec fn spec_io_after_read(io: Io, controller: Controller) -> Io {
    match controller {
        Controller::One => Io { one: spec_pad_after_read(io.one, io.strobe), ..io },
        Controller::Two => Io { two: spec_pad_after_read(io.two, io.strobe), ..io },
    }
}

/// The controllers after a read of a port.
pub fn io_after_read(io: Io, controller: Controller) -> (result: Io)
    ensures
        result == spec_io_after_read(io, controller),
{
    match controller {
        Controller::One => Io { one: pad_after_read(io.one, io.strobe), ..io },
        Controller::Two => Io { two: pad_after_read(io.two, io.strobe), ..io },
    }
}

/// The controllers after a write of `value` to `$4016`: bit 0 sets the
/// strobe, and its fall from 1 to 0 latches the buttons of both controllers.
pub open spec fn spec_io_after_write(io: Io, value: u8) -> Io {
    if io.strobe && value % 2 == 0 {
        Io { one: spec_pad_latched(io.one), two: spec_pad_latched(io.two), strobe: false }
    } else {
        Io { strobe: value % 2 == 1, ..io }
    }
}

/// The controllers after a write of `value` to `$4016`: bit 0 sets the
/// strobe, and its fall from 1 to 0 latches the buttons of both controllers.
pub fn io_after_write(io: Io, value: u8) -> (result: Io)
    ensures
        result == spec_io_after_write(io, value),
{
    if io.strobe && value % 2 == 0 {
        Io { one: pad_latched(io.one), two: pad_latched(io.two), strobe: false }
    } else {
        Io { strobe: value % 2 == 1, ..io }
    }
}

/// The controllers with a button of one of them held or released.
pub open spec fn spec_io_with_button(
    io: Io,
    controller: Controller,
    button: Button,
    held: bool,
) -> Io {
    match controller {
        Controller::One => Io {
            one: Pad { pressed: spec_with_bit(io.one.pressed, spec_button_index(button), held), ..io.one },
            ..io
        },
        Controller::Two => Io {
            two: Pad { pressed: spec_with_bit(io.two.pressed, spec_button_index(button), held), ..io.two },
            ..io
        },
    }
}

/// The controllers with a button of one of them held or released.
pub fn io_with_button(io: Io, controller: Controller, button: Button, held: bool) -> (result: Io)
    ensures
        result == spec_io_with_button(io, controller, button, held),
{
    match controller {
        Controller::One => Io {
            one: Pad { pressed: with_bit(io.one.pressed, button_index(button), held), ..io.one },
            ..io
        },
        Controller::Two => Io {
            two: Pad { pressed: with_bit(io.two.pressed, button_index(button), held), ..io.two },
            ..io
        },
    }
}

impl Io {
    /// Two idle controllers, the strobe low.
    pub fn new() -> (io: Io)
        ensures
            io == (Io { one: spec_idle_pad(), two: spec_idle_pad(), strobe: false }),
    {
        Io { one: idle_pad(), two: idle_pad(), strobe: false }
    }

    /// Reads the port of a controller.
    pub fn read_byte(&mut self, controller: Controller) -> (value: u8)
        ensures
            value == spec_port_value(*old(self), controller),
            *final(self) == spec_io_after_read(*old(self), controller),
    {
        let value = port_value(*self, controller);
        *self = io_after_read(*self, controller);
        value
    }

    /// Writes `value` to `$4016`.
    pub fn write_byte(&mut self, value: u8)
        ensures
            *final(self) == spec_io_after_write(*old(self), value),
    {
        *self = io_after_write(*self, value);
    }

    /// Holds a button of a controller down.
    pub fn button_down(&mut self, controller: Controller, button: Button)
        ensures
            *final(self) == spec_io_with_button(*old(self), controller, button, true),
    {
        *self = io_with_button(*self, controller, button, true);
    }

    /// Releases a button of a controller.
    pub fn button_up(&mut self, controller: Controller, button: Button)
        ensures
            *final(self) == spec_io_with_button(*old(self), controller, button, false),
    {
        *self = io_with_button(*self, controller, button, false);
    }
}

/// Holding or releasing a button changes that button and no other.
pub proof fn lemma_with_bit(buttons: u8, index: u8, held: bool, other: u8)
    by (bit_vector)
    requires
        index < 8,
        other < 8,
    ensures
        spec_bit(spec_with_bit(buttons, index, held), other) == (if other == index {
            held
        } else {
            spec_bit(buttons, other)
        }),
{
}

/// After the strobe went from 1 to 0, eight reads of a port return the
/// buttons that were held at that moment, in the order A, B, Select, Start,
/// Up, Down, Left, Right, and every read after them returns 1.
pub proof fn lemma_report_order(pad: Pad)
    ensures
        ({
            let read_0 = spec_pad_latched(pad);
            let read_1 = spec_pad_after_read(read_0, false);
            let read_2 = spec_pad_after_read(read_1, false);
            let read_3 = spec_pad_after_read(read_2, false);
            let read_4 = spec_pad_after_read(read_3, false);
            let read_5 = spec_pad_after_read(read_4, false);
            let read_6 = spec_pad_after_read(read_5, false);
            let read_7 = spec_pad_after_read(read_6, false);
            let read_8 = spec_pad_after_read(read_7, false);
            let read_9 = spec_pad_after_read(read_8, false);
            &&& spec_pad_value(read_0, false) == spec_level(spec_bit(pad.pressed, 0))
            &&& spec_pad_value(read_1, false) == spec_level(spec_bit(pad.pressed, 1))
            &&& spec_pad_value(read_2, false) == spec_level(spec_bit(pad.pressed, 2))
            &&& spec_pad_value(read_3, false) == spec_level(spec_bit(pad.pressed, 3))
            &&& spec_pad_value(read_4, false) == spec_level(spec_bit(pad.pressed, 4))
            &&& spec_pad_value(read_5, false) == spec_level(spec_bit(pad.pressed, 5))
            &&& spec_pad_value(read_6, false) == spec_level(spec_bit(pad.pressed, 6))
            &&& spec_pad_value(read_7, false) == spec_level(spec_bit(pad.pressed, 7))
            &&& spec_pad_value(read_8, false) == 1
            &&& spec_pad_value(read_9, false) == 1
        }),
{
}

} // verus!
