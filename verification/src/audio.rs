//! Sounds the assistant plays.
use vstd::prelude::*;

verus! {

/// A sound that can be played.
#[derive(Debug, Clone, Copy, PartialEq, Eq, Structural)]
pub enum AudioEvent {
    Connected,
    Disconnected,
    LowBattery,
    HighBattery,
}

/// A sound player; `play` asks for a sound without waiting for it.
pub trait AudioService: Send {
    fn play(&self, event: AudioEvent);
}

} // verus!
