use rust_nes::io::{Button, Controller, Io};

#[test]
fn ports_report_the_buttons_in_order() {
    let mut io = Io::new();
    io.button_down(Controller::One, Button::A);
    io.button_down(Controller::One, Button::Start);
    io.button_down(Controller::One, Button::Right);
    io.button_down(Controller::Two, Button::B);
    io.write_byte(1);
    io.write_byte(0);
    let one: Vec<u8> = (0..8).map(|_| io.read_byte(Controller::One)).collect();
    let two: Vec<u8> = (0..8).map(|_| io.read_byte(Controller::Two)).collect();
    assert_eq!(one, vec![1, 0, 0, 1, 0, 0, 0, 1]);
    assert_eq!(two, vec![0, 1, 0, 0, 0, 0, 0, 0]);
}

#[test]
fn ports_report_one_after_the_eighth_button() {
    let mut io = Io::new();
    io.write_byte(1);
    io.write_byte(0);
    for _ in 0..8 {
        assert_eq!(io.read_byte(Controller::One), 0);
    }
    for _ in 0..4 {
        assert_eq!(io.read_byte(Controller::One), 1);
    }
}

#[test]
fn the_state_is_latched_when_the_strobe_falls() {
    let mut io = Io::new();
    io.button_down(Controller::One, Button::B);
    io.write_byte(1);
    io.write_byte(0);
    io.button_up(Controller::One, Button::B);
    io.button_down(Controller::One, Button::A);
    assert_eq!(io.read_byte(Controller::One), 0);
    assert_eq!(io.read_byte(Controller::One), 1);
}

#[test]
fn a_high_strobe_reports_button_a() {
    let mut io = Io::new();
    io.write_byte(1);
    assert_eq!(io.read_byte(Controller::One), 0);
    io.button_down(Controller::One, Button::A);
    assert_eq!(io.read_byte(Controller::One), 1);
    assert_eq!(io.read_byte(Controller::One), 1);
}

#[test]
fn releasing_a_button_leaves_the_others() {
    let mut io = Io::new();
    for button in [Button::A, Button::B, Button::Select, Button::Up, Button::Left] {
        io.button_down(Controller::One, button);
    }
    io.button_down(Controller::One, Button::A);
    io.button_up(Controller::One, Button::Select);
    io.button_up(Controller::One, Button::Start);
    assert_eq!(io.one.pressed, 0b0101_0011);
    assert_eq!(io.two.pressed, 0);
}
