//! The controller: the slider's position and the connection that its
//! messages go out on, and what each event of the user interface leads to.

use vstd::prelude::*;
use crate::message::is_control_change;
use crate::message::volume_message;
use crate::message::volume_message_bytes;
use crate::message::CONTROL_CHANGE_STATUS;
use crate::message::VOLUME_CONTROLLER;
use crate::slider::clamp_to_slider;
use crate::slider::SliderValue;
use crate::slider::DEFAULT_SLIDER_VALUE;
use crate::slider::MAX_SLIDER_VALUE;
use crate::slider::MIN_SLIDER_VALUE;

verus! {

/// What a [`MidiController`] holds, as plain values.
pub ghost struct ControllerState<C> {
    /// The slider's position.
    pub slider_value: u8,
    /// The open connection, if there is one.
    pub connection: Option<C>,
}

impl<C> ControllerState<C> {
    /// The bytes to send in this state: the volume message for the slider's
    /// position where a connection is open, nothing where none is.
    pub open spec fn outgoing(self) -> Option<Seq<u8>> {
        if self.connection is Some {
            Some(volume_message_bytes(self.slider_value))
        } else {
            None
        }
    }

    /// The state that `event` leads to: a moved slider takes the position
    /// nearest to the one reported, and nothing else ever changes.
    pub open spec fn after(self, event: UiEvent) -> ControllerState<C> {
        match event {
            UiEvent::SliderChanged { value } => ControllerState {
                slider_value: clamp_to_slider(value),
                connection: self.connection,
            },
            UiEvent::SendClicked => self,
        }
    }
}

/// Something the user did.
#[derive(Clone, Copy, Debug, PartialEq, Eq)]
pub enum UiEvent {
    /// The slider was moved, and now stands at `value`.
    SliderChanged { value: u8 },
    /// The send button was pressed.
    SendClicked,
}

/// Whether `message` holds exactly the bytes `expected`, or both hold none.
pub open spec fn same_bytes(message: Option<[u8; 3]>, expected: Option<Seq<u8>>) -> bool {
    match message {
        Some(bytes) => expected == Some(bytes@),
        None => expected is None,
    }
}

/// The state of the controller. `C` is the handle of an open connection to
/// an output port; the controller keeps it and never looks inside.
pub struct MidiController<C> {
    slider: SliderValue,
    connection: Option<C>,
}

impl<C> View for MidiController<C> {
    type V = ControllerState<C>;

    closed spec fn view(&self) -> ControllerState<C> {
        ControllerState { slider_value: self.slider@, connection: self.connection }
    }
}

impl<C> MidiController<C> {
    /// A controller with the slider at its default position, which sends on
    /// `connection` if there is one.
    pub fn new(connection: Option<C>) -> (controller: Self)
        ensures
            controller@.slider_value == DEFAULT_SLIDER_VALUE,
            controller@.connection == connection,
    {
        MidiController { slider: SliderValue::default(), connection }
    }

    /// The slider's position, which is always in range.
    pub fn slider_value(&self) -> (value: u8)
        ensures
            value == self@.slider_value,
            MIN_SLIDER_VALUE <= value <= MAX_SLIDER_VALUE,
    {
        self.slider.get()
    }

    /// Whether a connection is open.
    pub fn is_connected(&self) -> (connected: bool)
        ensures
            connected == (self@.connection is Some),
    {
        self.connection.is_some()
    }

    /// The open connection, if there is one.
    pub fn connection(&self) -> (connection: Option<&C>)
        ensures
            (match connection {
                Some(handle) => self@.connection == Some(*handle),
                None => self@.connection is None,
            }),
    {
        self.connection.as_ref()
    }

    /// The open connection, if there is one, to send on. Whatever the caller
    /// does to the handle, it stays the controller's connection and the
    /// slider stays where it is.
    pub fn connection_mut(&mut self) -> (connection: Option<&mut C>)
        ensures
            final(self)@.slider_value == old(self)@.slider_value,
            (match connection {
                Some(handle) => old(self)@.connection == Some(*handle)
                    && final(self)@.connection == Some(*final(handle)),
                None => old(self)@.connection is None && final(self)@.connection is None,
            }),
    {
        match &mut self.connection {
            Some(connection) => Some(connection),
            None => None,
        }
    }

    /// Moves the slider to the position nearest to `value`.
    pub fn set_slider_value(&mut self, value: u8)
        ensures
            final(self)@.slider_value == clamp_to_slider(value),
            final(self)@.connection == old(self)@.connection,
    {
        self.slider = SliderValue::clamped(value);
    }

    /// The message to send now: the volume message for the slider's
    /// position where a connection is open, none where there is no
    /// connection. A message handed out is always a Control Change message.
    pub fn send_midi_message(&self) -> (message: Option<[u8; 3]>)
        ensures
            same_bytes(message, self@.outgoing()),
            message matches Some(bytes) ==> is_control_change(bytes@),
    {
        if self.connection.is_some() {
            Some(volume_message(self.slider.get()))
        } else {
            None
        }
    }

    /// Takes an event of the user interface: moves the slider if it was
    /// moved, and hands back the message to send on the connection, if any.
    /// Both events ask for the current position to be sent.
    pub fn ui(&mut self, event: UiEvent) -> (message: Option<[u8; 3]>)
        ensures
            final(self)@ == old(self)@.after(event),
            same_bytes(message, final(self)@.outgoing()),
            message matches Some(bytes) ==> is_control_change(bytes@),
    {
        match event {
            UiEvent::SliderChanged { value } => {
                self.set_slider_value(value);
            },
            UiEvent::SendClicked => {},
        }
        self.send_midi_message()
    }
}

impl<C> Default for MidiController<C> {
    /// A controller with the slider at its default position and no
    /// connection.
    fn default() -> (controller: Self)
        ensures
            controller@.slider_value == DEFAULT_SLIDER_VALUE,
            controller@.connection is None,
    {
        MidiController::new(None)
    }
}

/// The slider never leaves its range, whatever position an event reports.
pub proof fn lemma_slider_stays_in_range<C>(state: ControllerState<C>, event: UiEvent)
    requires
        MIN_SLIDER_VALUE <= state.slider_value <= MAX_SLIDER_VALUE,
    ensures
        MIN_SLIDER_VALUE <= state.after(event).slider_value <= MAX_SLIDER_VALUE,
{
}

/// The connection is decided once: no event opens, closes or replaces it.
pub proof fn lemma_connection_is_kept<C>(state: ControllerState<C>, event: UiEvent)
    ensures
        state.after(event).connection == state.connection,
{
}

/// Without a connection nothing is sent, before or after any event, and a
/// press of the send button leaves the state as it was.
pub proof fn lemma_silent_without_connection<C>(state: ControllerState<C>, event: UiEvent)
    requires
        state.connection is None,
    ensures
        state.outgoing() is None,
        state.after(event).outgoing() is None,
        state.after(UiEvent::SendClicked) == state,
{
}

/// With a connection, every event sends the three bytes of the volume
/// message for the position at which the slider then stands, and they are a
/// Control Change message.
pub proof fn lemma_sends_position_when_connected<C>(state: ControllerState<C>, event: UiEvent)
    requires
        state.connection is Some,
        state.slider_value <= MAX_SLIDER_VALUE,
    ensures
        state.after(event).outgoing() == Some(
            seq![CONTROL_CHANGE_STATUS, VOLUME_CONTROLLER, state.after(event).slider_value],
        ),
        is_control_change(state.after(event).outgoing()->0),
        (event matches UiEvent::SliderChanged { value } ==> (value <= MAX_SLIDER_VALUE
            ==> state.after(event).slider_value == value)),
        event is SendClicked ==> state.after(event).slider_value == state.slider_value,
{
}

} // verus!
