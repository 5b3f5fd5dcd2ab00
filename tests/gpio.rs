use goco::gpio::{Button, Io, Pin};

#[test]
fn poll_and_clear_reports_each_press_once() {
    let io = Io::new();
    assert!(!io.poll_and_clear(Button::Eject));
    assert!(!io.poll_and_clear(Button::Eject));
    let handler = io.latch(Button::Eject);
    handler.raise();
    assert!(io.poll_and_clear(Button::Eject));
    assert!(!io.poll_and_clear(Button::Eject));
    // two presses between polls are one edge event
    handler.raise();
    handler.raise();
    assert!(io.check_eject_triggered());
    assert!(!io.check_eject_triggered());
}

#[test]
fn flags_are_independent() {
    let io = Io::configured();
    io.latch(Button::Power).raise();
    assert!(!io.check_home_triggered());
    assert!(!io.check_eject_triggered());
    assert!(io.check_power_triggered());
    io.latch(Button::Home).raise();
    assert!(io.check_home_triggered());
    assert!(!io.check_power_triggered());
}

#[test]
fn pins_drive_only_outputs() {
    let mut p = Pin::Output(false);
    p.set_high();
    assert_eq!(p, Pin::Output(true));
    p.set_low();
    assert_eq!(p, Pin::Output(false));
    let mut i = Pin::Input;
    i.set_high();
    assert_eq!(i, Pin::Input);
    let mut u = Pin::Untied;
    u.set_high();
    assert_eq!(u, Pin::Untied);
}

#[test]
fn configured_interface_shows_running_without_volume() {
    let mut io = Io::configured();
    assert_eq!(io.pwr_led(), Pin::Output(true));
    assert_eq!(io.gsk_led(), Pin::Output(false));
    io.enable_gsk_led();
    assert_eq!(io.gsk_led(), Pin::Output(true));
    io.disable_pwr_led();
    assert_eq!(io.pwr_led(), Pin::Output(false));
    io.enable_pwr_led();
    io.disable_gsk_led();
    assert_eq!(io.pwr_led(), Pin::Output(true));
    assert_eq!(io.gsk_led(), Pin::Output(false));
}

#[test]
fn unbound_interface_ignores_writes() {
    let mut io = Io::new();
    io.enable_gsk_led();
    io.enable_pwr_led();
    assert_eq!(io.gsk_led(), Pin::Untied);
    assert_eq!(io.pwr_led(), Pin::Untied);
}
