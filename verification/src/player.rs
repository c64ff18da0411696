//! The playback device: a state machine over an optional loaded track, a
//! play/pause flag, a position and a volume, which emits events in a single
//! ordered log.
//!
//! Every operation is specified by the one transition function
//! [`device_step`], so a sequence of operations always yields one consistent
//! sequence of transitions and emissions.  The asynchronous latency of a
//! real device and the fan-out of its events to subscribers are driven by
//! the caller outside this library; the event log here fixes the emission
//! order that such a delivery must follow.

use vstd::prelude::*;
use vstd::string::StringExecFns;

use crate::entry::{entry_view, is_playable, EntryView, LibraryEntry, Progress};

verus! {

/// A named failure of a device operation.  Failures are returned, never
/// thrown: the caller always gets the chance to turn one into a message.
#[derive(Clone, Copy, Debug, PartialEq, Eq, Structural)]
pub enum PlayerError {
    /// The operation needs a loaded track and the device is idle.
    NoTrackLoaded,
    /// The operation is not valid in the current state, as when an entry of
    /// a container variant is handed to `play`.
    InvalidState,
    /// The device cannot be reached at all.
    DeviceUnavailable,
}

/// The text of a device failure, as appended to the message log.
pub open spec fn spec_error_message(e: PlayerError) -> Seq<char> {
    match e {
        PlayerError::NoTrackLoaded => "No track loaded"@,
        PlayerError::InvalidState => "Invalid state"@,
        PlayerError::DeviceUnavailable => "Device unavailable"@,
    }
}

impl PlayerError {
    /// Renders the failure for the message log.
    pub fn message(&self) -> (s: String)
        ensures
            s@ == spec_error_message(*self),
    {
        match self {
            PlayerError::NoTrackLoaded => "No track loaded".to_owned(),
            PlayerError::InvalidState => "Invalid state".to_owned(),
            PlayerError::DeviceUnavailable => "Device unavailable".to_owned(),
        }
    }
}

/// An event emitted by the device, delivered to every subscriber in
/// emission order.
#[derive(Debug)]
pub enum PlayerEvent {
    PositionChanged(Progress),
    Playing(LibraryEntry),
    Paused,
    Resumed,
    Stopped,
}

/// Mathematical model of a [`PlayerEvent`].
pub enum PlayerEventView {
    PositionChanged(Progress),
    Playing(EntryView),
    Paused,
    Resumed,
    Stopped,
}

impl View for PlayerEvent {
    type V = PlayerEventView;

    open spec fn view(&self) -> PlayerEventView {
        match self {
            PlayerEvent::PositionChanged(p) => PlayerEventView::PositionChanged(*p),
            PlayerEvent::Playing(e) => PlayerEventView::Playing(entry_view(*e)),
            PlayerEvent::Paused => PlayerEventView::Paused,
            PlayerEvent::Resumed => PlayerEventView::Resumed,
            PlayerEvent::Stopped => PlayerEventView::Stopped,
        }
    }
}

impl Clone for PlayerEvent {
    /// The copy has the same model as the original.
    fn clone(&self) -> (r: Self)
        ensures
            r@ == self@,
    {
        match self {
            PlayerEvent::PositionChanged(p) => PlayerEvent::PositionChanged(*p),
            PlayerEvent::Playing(e) => PlayerEvent::Playing(e.clone()),
            PlayerEvent::Paused => PlayerEvent::Paused,
            PlayerEvent::Resumed => PlayerEvent::Resumed,
            PlayerEvent::Stopped => PlayerEvent::Stopped,
        }
    }
}

/// Model of a sequence of events, element by element.
pub open spec fn event_seq_view(s: Seq<PlayerEvent>) -> Seq<PlayerEventView>
    decreases s,
{
    if s.len() == 0 {
        Seq::empty()
    } else {
        event_seq_view(s.subrange(0, s.len() - 1)).push(s[s.len() - 1]@)
    }
}

pub proof fn lemma_event_seq_view_push(s: Seq<PlayerEvent>, e: PlayerEvent)
    ensures
        event_seq_view(s.push(e)) == event_seq_view(s).push(e@),
{
    let p = s.push(e);
    assert(p.subrange(0, p.len() - 1) =~= s);
    assert(p[p.len() - 1] == e);
}

/// One requested device operation, in model space.
pub enum DeviceOp {
    Play(EntryView),
    Pause,
    Resume,
    Seek(u64),
    Stop,
    SetVolume(u8),
}

/// Mathematical model of the device: its session state and the log of every
/// event emitted so far, in emission order.
#[verifier::ext_equal]
pub struct PlayerView {
    pub is_playing: bool,
    pub position: u64,
    pub track: Option<EntryView>,
    pub volume: u8,
    pub events: Seq<PlayerEventView>,
}

/// The one transition function of the device.  Returns the state after the
/// operation and the operation's result.
///
/// - `Play` loads a playable entry, resets the position and emits
///   `Playing`; an entry of a container variant is refused with
///   `InvalidState` and nothing changes.
/// - `Pause` needs a loaded track (`InvalidState` from idle) and emits
///   `Paused`; pausing an already paused track is an idempotent success.
/// - `Resume` needs a loaded track (`NoTrackLoaded` from idle) and emits
///   `Resumed`.
/// - `Seek` needs a loaded track (`NoTrackLoaded` from idle), sets the
///   position and keeps the play/pause state; it emits nothing.
/// - `Stop` unloads the track from any state and emits `Stopped`.
/// - `SetVolume` is valid in any state and emits nothing.
pub open spec fn device_step(p: PlayerView, op: DeviceOp) -> (PlayerView, Result<(), PlayerError>) {
    match op {
        DeviceOp::Play(e) => {
            if is_playable(e.variant) {
                (
                    PlayerView {
                        is_playing: true,
                        position: 0,
                        track: Some(e),
                        events: p.events.push(PlayerEventView::Playing(e)),
                        ..p
                    },
                    Ok(()),
                )
            } else {
                (p, Err(PlayerError::InvalidState))
            }
        },
        DeviceOp::Pause => {
            if p.track is Some {
                (
                    PlayerView {
                        is_playing: false,
                        events: p.events.push(PlayerEventView::Paused),
                        ..p
                    },
                    Ok(()),
                )
            } else {
                (p, Err(PlayerError::InvalidState))
            }
        },
        DeviceOp::Resume => {
            if p.track is Some {
                (
                    PlayerView {
                        is_playing: true,
                        events: p.events.push(PlayerEventView::Resumed),
                        ..p
                    },
                    Ok(()),
                )
            } else {
                (p, Err(PlayerError::NoTrackLoaded))
            }
        },
        DeviceOp::Seek(pos) => {
            if p.track is Some {
                (PlayerView { position: pos, ..p }, Ok(()))
            } else {
                (p, Err(PlayerError::NoTrackLoaded))
            }
        },
        DeviceOp::Stop => {
            (
                PlayerView {
                    is_playing: false,
                    track: None,
                    events: p.events.push(PlayerEventView::Stopped),
                    ..p
                },
                Ok(()),
            )
        },
        DeviceOp::SetVolume(v) => (PlayerView { volume: v, ..p }, Ok(())),
    }
}

/// A snapshot of the device's observable session state while a track is
/// loaded.
#[derive(Debug)]
pub struct PlayerState {
    pub is_playing: bool,
    pub loaded_track: LibraryEntry,
}

/// The playback device.  All session state sits behind this one value; the
/// caller serializes operations on it, and the event log records every
/// emission in order.
#[derive(Debug)]
pub struct Player {
    is_playing: bool,
    current_position: u64,
    current_track: Option<LibraryEntry>,
    volume: u8,
    events: Vec<PlayerEvent>,
}

impl View for Player {
    type V = PlayerView;

    closed spec fn view(&self) -> PlayerView {
        PlayerView {
            is_playing: self.is_playing,
            position: self.current_position,
            track: crate::entry::opt_entry_view(self.current_track),
            volume: self.volume,
            events: event_seq_view(self.events@),
        }
    }
}

impl Player {
    /// An idle device with an empty event log.
    pub fn new() -> (p: Self)
        ensures
            p@ == (PlayerView {
                is_playing: false,
                position: 0,
                track: None,
                volume: 0,
                events: Seq::empty(),
            }),
    {
        Player {
            is_playing: false,
            current_position: 0,
            current_track: None,
            volume: 0,
            events: Vec::new(),
        }
    }

    /// Loads a playable entry and starts it from position zero.
    pub fn play(&mut self, library_entry: LibraryEntry) -> (r: Result<(), PlayerError>)
        ensures
            final(self)@ == device_step(old(self)@, DeviceOp::Play(library_entry@)).0,
            r == device_step(old(self)@, DeviceOp::Play(library_entry@)).1,
    {
        let playable = match library_entry.variant {
            crate::entry::Variant::Folder => false,
            _ => true,
        };
        if !playable {
            return Err(PlayerError::InvalidState);
        }
        let event_entry = library_entry.clone();
        proof {
            lemma_event_seq_view_push(self.events@, PlayerEvent::Playing(event_entry));
        }
        self.events.push(PlayerEvent::Playing(event_entry));
        self.is_playing = true;
        self.current_track = Some(library_entry);
        self.current_position = 0;
        Ok(())
    }

    /// Pauses the loaded track; from idle the call is refused.
    pub fn pause(&mut self) -> (r: Result<(), PlayerError>)
        ensures
            final(self)@ == device_step(old(self)@, DeviceOp::Pause).0,
            r == device_step(old(self)@, DeviceOp::Pause).1,
    {
        if self.current_track.is_none() {
            return Err(PlayerError::InvalidState);
        }
        proof {
            lemma_event_seq_view_push(self.events@, PlayerEvent::Paused);
        }
        self.events.push(PlayerEvent::Paused);
        self.is_playing = false;
        Ok(())
    }

    /// Resumes the loaded track; from idle the call fails.
    pub fn resume(&mut self) -> (r: Result<(), PlayerError>)
        ensures
            final(self)@ == device_step(old(self)@, DeviceOp::Resume).0,
            r == device_step(old(self)@, DeviceOp::Resume).1,
    {
        if self.current_track.is_none() {
            return Err(PlayerError::NoTrackLoaded);
        }
        proof {
            lemma_event_seq_view_push(self.events@, PlayerEvent::Resumed);
        }
        self.events.push(PlayerEvent::Resumed);
        self.is_playing = true;
        Ok(())
    }

    /// Moves the position within the loaded track; from idle the call fails.
    pub fn seek(&mut self, position: u64) -> (r: Result<(), PlayerError>)
        ensures
            final(self)@ == device_step(old(self)@, DeviceOp::Seek(position)).0,
            r == device_step(old(self)@, DeviceOp::Seek(position)).1,
    {
        if self.current_track.is_none() {
            return Err(PlayerError::NoTrackLoaded);
        }
        self.current_position = position;
        Ok(())
    }

    /// Unloads the track and returns the device to idle.
    pub fn stop(&mut self) -> (r: Result<(), PlayerError>)
        ensures
            final(self)@ == device_step(old(self)@, DeviceOp::Stop).0,
            r == device_step(old(self)@, DeviceOp::Stop).1,
    {
        proof {
            lemma_event_seq_view_push(self.events@, PlayerEvent::Stopped);
        }
        self.events.push(PlayerEvent::Stopped);
        self.current_track = None;
        self.is_playing = false;
        Ok(())
    }

    /// Sets the volume; valid in any state, no event is emitted.
    pub fn set_volume(&mut self, volume: u8) -> (r: Result<(), PlayerError>)
        ensures
            final(self)@ == device_step(old(self)@, DeviceOp::SetVolume(volume)).0,
            r == device_step(old(self)@, DeviceOp::SetVolume(volume)).1,
    {
        self.volume = volume;
        Ok(())
    }

    /// Whether a track is loaded and playing.
    pub fn is_playing(&self) -> (r: bool)
        ensures
            r == self@.is_playing,
    {
        self.is_playing
    }

    /// The event log so far, in emission order.
    pub fn events(&self) -> (r: &Vec<PlayerEvent>)
        ensures
            event_seq_view(r@) == self@.events,
    {
        &self.events
    }

    /// A snapshot of the session state, or `None` when idle.
    pub fn state_snapshot(&self) -> (r: Option<PlayerState>)
        ensures
            r is Some <==> self@.track is Some,
            r matches Some(ps) ==> ps.is_playing == self@.is_playing && ps.loaded_track@
                == self@.track->0,
    {
        match &self.current_track {
            Some(t) => Some(
                PlayerState { is_playing: self.is_playing, loaded_track: t.clone() },
            ),
            None => None,
        }
    }
}

} // verus!
