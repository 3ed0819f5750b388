//! The controller of one device. It decides what goes on the wire and
//! tracks the device's state; the socket itself belongs to the caller,
//! who sends the frames handed out here and reports what came back.
use vstd::prelude::*;

use crate::codec::{decode_query_response, decoded_reply, encode, frame_of, power_payload, power_payload_of, query_payload, query_payload_of};
use crate::color::{color_payload, color_payload_of};
use crate::output::{toggled, ControlError, Mode, ProtocolError, State};

verus! {

/// What the controller knows: where the device is, whether a connection
/// stands, the power state last read or commanded, and the colour mode.
pub struct ControllerView {
    pub addr: Seq<char>,
    pub connected: bool,
    pub power: State,
    pub mode: Mode,
}

pub struct MagicHome {
    addr: String,
    connected: bool,
    pub state: State,
    mode: Mode,
}

impl View for MagicHome {
    type V = ControllerView;

    closed spec fn view(&self) -> ControllerView {
        ControllerView {
            addr: self.addr@,
            connected: self.connected,
            power: self.state,
            mode: self.mode,
        }
    }
}

impl MagicHome {
    /// A disconnected controller for the device at `addr` (`host:port`),
    /// with power taken as off and instant colour mode.
    pub fn new(addr: &str) -> (r: Self)
        ensures
            r@ == (ControllerView { addr: addr@, connected: false, power: State::OFF, mode: Mode::INSTANT }),
    {
        MagicHome { addr: addr.to_owned(), connected: false, state: State::OFF, mode: Mode::INSTANT }
    }

    /// The device's address.
    pub fn address(&self) -> (r: &str)
        ensures
            r@ == self@.addr,
    {
        self.addr.as_str()
    }

    pub fn is_connected(&self) -> (r: bool)
        ensures
            r == self@.connected,
    {
        self.connected
    }

    /// The power state last read from the device or commanded to it.
    pub fn state(&self) -> (r: State)
        ensures
            r == self@.power,
    {
        self.state
    }

    pub fn mode(&self) -> (r: Mode)
        ensures
            r == self@.mode,
    {
        self.mode
    }

    /// Selects the encoding of later colour commands; sends nothing.
    pub fn set_mode(&mut self, mode: Mode)
        ensures
            final(self)@ == (ControllerView { mode, ..old(self)@ }),
    {
        self.mode = mode;
    }

    /// The frame that asks the device for its status, to be sent once the
    /// socket is open.
    pub fn query_frame() -> (r: Vec<u8>)
        ensures
            r@ == frame_of(query_payload_of()),
    {
        let payload = query_payload();
        encode(payload.as_slice())
    }

    /// Completes a connection with the device's reply to the status query.
    /// A reply too short to hold the status byte leaves the controller
    /// disconnected; otherwise it is connected with the power state that
    /// the reply reports.
    pub fn connect(&mut self, reply: &[u8]) -> (r: Result<(), ControlError>)
        ensures
            match decoded_reply(reply@) {
                Ok(power) => r == Ok::<(), ControlError>(())
                    && final(self)@ == (ControllerView { connected: true, power, ..old(self)@ }),
                Err(e) => r == Err::<(), ControlError>(ControlError::Protocol(e))
                    && final(self)@ == (ControllerView { connected: false, ..old(self)@ }),
            },
    {
        match decode_query_response(reply) {
            Ok(power) => {
                self.state = power;
                self.connected = true;
                Ok(())
            },
            Err(e) => {
                self.connected = false;
                Err(ControlError::Protocol(e))
            },
        }
    }

    /// Drops the connection on request; the power state is kept.
    pub fn disconnect(&mut self)
        ensures
            final(self)@ == (ControllerView { connected: false, ..old(self)@ }),
    {
        self.connected = false;
    }

    /// The frame that switches the power state, to be sent and then
    /// reported with [`MagicHome::complete`] and [`Command::Toggle`].
    /// Without a connection there is nothing to send.
    pub fn on_off(&self) -> (r: Result<Vec<u8>, ControlError>)
        ensures
            self@.connected ==> r is Ok && r->Ok_0@ == frame_of(power_payload_of(toggled(self@.power))),
            !self@.connected ==> r == Err::<Vec<u8>, ControlError>(ControlError::NotConnected),
    {
        if !self.connected {
            return Err(ControlError::NotConnected);
        }
        let target = match self.state {
            State::ON => State::OFF,
            State::OFF => State::ON,
        };
        let payload = power_payload(target);
        Ok(encode(payload.as_slice()))
    }

    /// The frame that sets a colour in the current mode, to be sent and
    /// then reported with [`MagicHome::complete`] and [`Command::Color`].
    /// Without a connection there is nothing to send.
    pub fn set_color(&self, rgb: [u8; 3]) -> (r: Result<Vec<u8>, ControlError>)
        ensures
            self@.connected ==> r is Ok && r->Ok_0@ == frame_of(color_payload_of(rgb@, self@.mode)),
            !self@.connected ==> r == Err::<Vec<u8>, ControlError>(ControlError::NotConnected),
    {
        if !self.connected {
            return Err(ControlError::NotConnected);
        }
        let payload = color_payload(rgb, self.mode);
        Ok(encode(payload.as_slice()))
    }

    /// Records the outcome of sending the frame of `cmd`. A frame that went
    /// out switches the power (a colour turns the device on); a failed
    /// write drops the connection and keeps the power state. Without a
    /// connection nothing changes.
    pub fn complete(&mut self, cmd: Command, sent: bool) -> (r: Result<(), ControlError>)
        ensures
            !old(self)@.connected ==> r == Err::<(), ControlError>(ControlError::NotConnected)
                && final(self)@ == old(self)@,
            old(self)@.connected && sent ==> r == Ok::<(), ControlError>(())
                && final(self)@ == (ControllerView { power: power_after(cmd, old(self)@.power), ..old(self)@ }),
            old(self)@.connected && !sent ==> r == Err::<(), ControlError>(ControlError::Io)
                && final(self)@ == (ControllerView { connected: false, ..old(self)@ }),
    {
        if !self.connected {
            return Err(ControlError::NotConnected);
        }
        if !sent {
            self.connected = false;
            return Err(ControlError::Io);
        }
        self.state = match cmd {
            Command::Toggle => match self.state {
                State::ON => State::OFF,
                State::OFF => State::ON,
            },
            Command::Color => State::ON,
        };
        Ok(())
    }
}

/// The command whose frame was sent.
#[derive(Debug, Clone, Copy, PartialEq, Eq, Structural)]
pub enum Command {
    /// The frame of [`MagicHome::on_off`].
    Toggle,
    /// The frame of [`MagicHome::set_color`].
    Color,
}

/// The power state after the frame of `cmd` reached a device in state `power`.
pub open spec fn power_after(cmd: Command, power: State) -> State {
    match cmd {
        Command::Toggle => toggled(power),
        Command::Color => State::ON,
    }
}

/// Toggling from off sends `71 23 0F` and gives on; toggling from on
/// sends `71 24 0F` and gives off; two toggles give back the state one
/// started from.
pub proof fn toggle_round_trip(start: State)
    ensures
        toggled(State::OFF) == State::ON,
        power_payload_of(toggled(State::OFF)) == seq![0x71u8, 0x23u8, 0x0Fu8],
        toggled(State::ON) == State::OFF,
        power_payload_of(toggled(State::ON)) == seq![0x71u8, 0x24u8, 0x0Fu8],
        toggled(toggled(start)) == start,
        power_after(Command::Toggle, power_after(Command::Toggle, start)) == start,
{
}

} // verus!
