//! The physical I/O interface: two indicator outputs (power status, volume
//! present) and three buttons (eject, home, power).  Each pin is an output, an
//! input, or not wired at all, in which case driving it does nothing.  A button
//! press is recorded by its interrupt handler in an atomic flag, which the
//! control loop reads and clears in one step.
use vstd::prelude::*;
use std::sync::Arc;
use std::sync::atomic::{AtomicBool, Ordering};

verus! {

/// How a pin is bound; an output carries the level it is driven at.
#[derive(Debug, Clone, Copy, PartialEq, Eq, Structural)]
pub enum Pin {
    /// Driven by the controller; `true` is the active (high) level.
    Output(bool),
    /// Read by the controller through its interrupt flag.
    Input,
    /// Present in the controller but not wired to hardware.
    Untied,
}

/// The pin driven to `high`, if it is an output; any other pin is left as it is.
pub open spec fn driven(p: Pin, high: bool) -> Pin {
    match p {
        Pin::Output(_) => Pin::Output(high),
        _ => p,
    }
}

impl Pin {
    /// Drives an output pin high; other pins are left unchanged.
    pub fn set_high(&mut self)
        ensures
            *final(self) == driven(*old(self), true),
    {
        if let Pin::Output(_) = *self {
            *self = Pin::Output(true);
        }
    }

    /// Drives an output pin low; other pins are left unchanged.
    pub fn set_low(&mut self)
        ensures
            *final(self) == driven(*old(self), false),
    {
        if let Pin::Output(_) = *self {
            *self = Pin::Output(false);
        }
    }
}

/// The three buttons.
#[derive(Debug, Clone, Copy, PartialEq, Eq, Structural)]
pub enum Button {
    Eject,
    Home,
    Power,
}

/// A button's flag: set by its interrupt handler, read and cleared by the
/// control loop.  Copies made with `share` refer to the same flag.
pub struct ButtonLatch {
    flag: Arc<AtomicBool>,
}

impl ButtonLatch {
    /// A flag that is not set.
    pub fn new() -> ButtonLatch {
        ButtonLatch { flag: Arc::new(AtomicBool::new(false)) }
    }

    /// Records a press.  This is all an interrupt handler does; it never blocks.
    pub fn raise(&self) {
        self.flag.store(true, Ordering::Release);
    }

    /// Reads the flag and clears it in one atomic step: a press recorded
    /// between two polls is reported by exactly one of them.
    pub fn poll_and_clear(&self) -> bool {
        self.flag.swap(false, Ordering::AcqRel)
    }

    /// Another handle on the same flag, for an interrupt handler.
    pub fn share(&self) -> ButtonLatch {
        ButtonLatch { flag: Arc::clone(&self.flag) }
    }
}

pub struct IoView {
    pub pwr_led: Pin,
    pub gsk_led: Pin,
    pub eject_btn: Pin,
    pub home_btn: Pin,
    pub power_btn: Pin,
}

/// The named pins and the buttons' flags.
pub struct Io {
    pwr_led: Pin,
    gsk_led: Pin,
    eject_btn: Pin,
    home_btn: Pin,
    power_btn: Pin,
    eject: ButtonLatch,
    home: ButtonLatch,
    power: ButtonLatch,
}

impl View for Io {
    type V = IoView;

    closed spec fn view(&self) -> IoView {
        IoView {
            pwr_led: self.pwr_led,
            gsk_led: self.gsk_led,
            eject_btn: self.eject_btn,
            home_btn: self.home_btn,
            power_btn: self.power_btn,
        }
    }
}

/// The interface with no pin wired, for machines without the hardware or
/// where binding the pins failed.
pub open spec fn unbound_io() -> IoView {
    IoView {
        pwr_led: Pin::Untied,
        gsk_led: Pin::Untied,
        eject_btn: Pin::Untied,
        home_btn: Pin::Untied,
        power_btn: Pin::Untied,
    }
}

/// The interface once every pin is bound: the power indicator on, the volume
/// indicator off ("running, no volume yet"), the buttons as inputs.
pub open spec fn configured_io() -> IoView {
    IoView {
        pwr_led: Pin::Output(true),
        gsk_led: Pin::Output(false),
        eject_btn: Pin::Input,
        home_btn: Pin::Input,
        power_btn: Pin::Input,
    }
}

impl Io {
    /// An interface whose pins are all unwired; its flags are clear.
    pub fn new() -> (r: Io)
        ensures
            r@ == unbound_io(),
    {
        Io {
            pwr_led: Pin::Untied,
            gsk_led: Pin::Untied,
            eject_btn: Pin::Untied,
            home_btn: Pin::Untied,
            power_btn: Pin::Untied,
            eject: ButtonLatch::new(),
            home: ButtonLatch::new(),
            power: ButtonLatch::new(),
        }
    }

    /// The interface as it stands once the hardware pins are bound.
    pub fn configured() -> (r: Io)
        ensures
            r@ == configured_io(),
    {
        let mut io = Io {
            pwr_led: Pin::Output(false),
            gsk_led: Pin::Output(false),
            eject_btn: Pin::Input,
            home_btn: Pin::Input,
            power_btn: Pin::Input,
            eject: ButtonLatch::new(),
            home: ButtonLatch::new(),
            power: ButtonLatch::new(),
        };
        io.pwr_led.set_high();
        io.gsk_led.set_low();
        io
    }

    /// Turns the volume indicator on.
    pub fn enable_gsk_led(&mut self)
        ensures
            final(self)@ == (IoView { gsk_led: driven(old(self)@.gsk_led, true), ..old(self)@ }),
    {
        self.gsk_led.set_high();
    }

    /// Turns the volume indicator off.
    pub fn disable_gsk_led(&mut self)
        ensures
            final(self)@ == (IoView { gsk_led: driven(old(self)@.gsk_led, false), ..old(self)@ }),
    {
        self.gsk_led.set_low();
    }

    /// Turns the power indicator on.
    pub fn enable_pwr_led(&mut self)
        ensures
            final(self)@ == (IoView { pwr_led: driven(old(self)@.pwr_led, true), ..old(self)@ }),
    {
        self.pwr_led.set_high();
    }

    /// Turns the power indicator off.
    pub fn disable_pwr_led(&mut self)
        ensures
            final(self)@ == (IoView { pwr_led: driven(old(self)@.pwr_led, false), ..old(self)@ }),
    {
        self.pwr_led.set_low();
    }

    /// The power indicator pin.
    pub fn pwr_led(&self) -> (r: Pin)
        ensures
            r == self@.pwr_led,
    {
        self.pwr_led
    }

    /// The volume indicator pin.
    pub fn gsk_led(&self) -> (r: Pin)
        ensures
            r == self@.gsk_led,
    {
        self.gsk_led
    }

    fn latch_of(&self, button: Button) -> &ButtonLatch {
        match button {
            Button::Eject => &self.eject,
            Button::Home => &self.home,
            Button::Power => &self.power,
        }
    }

    /// A handle on `button`'s flag, for its interrupt handler.
    pub fn latch(&self, button: Button) -> ButtonLatch {
        self.latch_of(button).share()
    }

    /// Whether `button` was pressed since the last poll; clears its flag.
    pub fn poll_and_clear(&self, button: Button) -> bool {
        self.latch_of(button).poll_and_clear()
    }

    /// Whether the power button was pressed since the last poll; clears its flag.
    pub fn check_power_triggered(&self) -> bool {
        self.poll_and_clear(Button::Power)
    }

    /// Whether the eject button was pressed since the last poll; clears its flag.
    pub fn check_eject_triggered(&self) -> bool {
        self.poll_and_clear(Button::Eject)
    }

    /// Whether the home button was pressed since the last poll; clears its flag.
    pub fn check_home_triggered(&self) -> bool {
        self.poll_and_clear(Button::Home)
    }
}

} // verus!
