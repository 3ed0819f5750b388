//! Values shared by the controller and its front ends.
use vstd::prelude::*;

verus! {

/// Power state of the device.
#[allow(non_camel_case_types)]
#[derive(Debug, Clone, Copy, PartialEq, Eq, Structural)]
pub enum State {
    ON,
    OFF,
}

/// How a colour command is encoded: `INSTANT` snaps to the colour through
/// a one-step custom pattern, `FADE` lets the device blend into it.
#[allow(non_camel_case_types)]
#[derive(Debug, Clone, Copy, PartialEq, Eq, Structural)]
pub enum Mode {
    FADE,
    INSTANT,
}

/// A status reply that cannot be read.
#[derive(Debug, Clone, Copy, PartialEq, Eq, Structural)]
pub enum ProtocolError {
    /// Fewer bytes than the status reply holds.
    ShortResponse,
}

/// Errors of the controller's operations.
#[derive(Debug, Clone, Copy, PartialEq, Eq, Structural)]
pub enum ControlError {
    /// The socket could not be opened.
    Connection,
    /// A command was issued while no connection stands.
    NotConnected,
    /// A read or write on an open socket failed.
    Io,
    /// The device answered with something that cannot be decoded.
    Protocol(ProtocolError),
}

/// The lower-case form of a text, as `str::to_lowercase` gives it.
pub uninterp spec fn lower_of(s: Seq<char>) -> Seq<char>;

/// Relies on `str::to_lowercase`: its result depends on the characters of
/// the text alone.
#[verifier::external_body]
pub(crate) fn lowercase(s: &str) -> (r: String)
    ensures
        r@ == lower_of(s@),
{
    s.to_lowercase()
}

/// The mode that a lower-case name stands for.
pub open spec fn mode_named(name: Seq<char>) -> Option<Mode> {
    if name == "fade"@ {
        Some(Mode::FADE)
    } else if name == "instant"@ {
        Some(Mode::INSTANT)
    } else {
        None
    }
}

impl Mode {
    /// The mode whose name is exactly `name` (lower case).
    pub fn from_lowercase(name: &str) -> (r: Option<Mode>)
        ensures
            r == mode_named(name@),
    {
        let name = name.to_owned();
        if name == "fade".to_owned() {
            Some(Mode::FADE)
        } else if name == "instant".to_owned() {
            Some(Mode::INSTANT)
        } else {
            None
        }
    }

    /// The mode named by `input`, in any letter case.
    pub fn parse(input: &str) -> (r: Option<Mode>)
        ensures
            r == mode_named(lower_of(input@)),
    {
        let lowered = lowercase(input);
        Mode::from_lowercase(lowered.as_str())
    }
}

impl std::str::FromStr for Mode {
    type Err = ();

    fn from_str(input: &str) -> (r: Result<Mode, ()>)
        ensures
            r == match mode_named(lower_of(input@)) {
                Some(m) => Ok::<Mode, ()>(m),
                None => Err::<Mode, ()>(()),
            },
    {
        match Mode::parse(input) {
            Some(mode) => Ok(mode),
            None => Err(()),
        }
    }
}

/// The operations that a front end offers on a light.
pub trait Output {
    fn set_mode(&mut self, mode: Mode);

    fn connect(&mut self) -> Result<(), ControlError>;

    fn is_connected(&self) -> bool;

    fn set_color(&mut self, rgb: [u8; 3]) -> Result<(), ControlError>;

    fn on_off(&mut self) -> Result<(), ControlError>;
}

/// The power state that the other one switches to.
pub open spec fn toggled(s: State) -> State {
    match s {
        State::ON => State::OFF,
        State::OFF => State::ON,
    }
}

} // verus!
