use vstd::prelude::*;

verus! {

/// Lowest volume the control surface can request, in decibels.
pub const MIN_VOLUME_DB: i32 = -60;

/// A transport command written by the control surface into the shared
/// single-slot mailbox; the engine consumes it exactly once per issuance.
#[derive(PartialEq, Eq, Structural, Clone, Copy, Debug)]
pub enum PlayerCommand {
    Next,
    Prev,
    PlayIndex(usize),
}

/// A one-way notification from the control surface to the playback thread.
#[derive(Clone, Debug)]
pub enum GuiMessage {
    AddToPlaylist(String),
}

/// Raised when the playback thread cannot obtain realtime scheduling;
/// playback continues with weaker timing guarantees.
#[derive(PartialEq, Eq, Structural, Clone, Copy, Debug)]
pub enum RtError {
    PermissionDenied,
}

/// Metadata of the track a decode session is working on. The format fields
/// start zeroed and are overwritten with the hardware-negotiated values once
/// the session reaches its configuring step.
#[derive(PartialEq, Clone, Debug)]
pub struct TrackInfo {
    pub filename: String,
    pub sample_rate: u32,
    pub bit_depth: u16,
    pub title: Option<String>,
    pub artist: Option<String>,
}

/// The single record shared between the playback thread and the control
/// surface. Positions and durations are kept in milliseconds and the volume
/// in whole decibels, so that every update to them is checked arithmetic.
pub struct PlayerState {
    pub current_track: Option<TrackInfo>,
    pub is_playing: bool,
    pub position_millis: u64,
    pub duration_millis: u64,
    pub volume_db: i32,
    pub playlist: Vec<String>,
    pub command: Option<PlayerCommand>,
    pub error_message: Option<String>,
    pub album_art: Option<Vec<u8>>,
}

impl PlayerState {
    /// The volume slider is bounded to [-60, 0] dB; every writer keeps it there.
    pub open spec fn wf(&self) -> bool {
        MIN_VOLUME_DB <= self.volume_db <= 0
    }

    pub fn new() -> (s: Self)
        ensures
            s.wf(),
            s.current_track is None,
            !s.is_playing,
            s.position_millis == 0,
            s.duration_millis == 0,
            s.volume_db == -10,
            s.playlist@ =~= Seq::<String>::empty(),
            s.command is None,
            s.error_message is None,
            s.album_art is None,
    {
        PlayerState {
            current_track: None,
            is_playing: false,
            position_millis: 0,
            duration_millis: 0,
            volume_db: -10,
            playlist: Vec::new(),
            command: None,
            error_message: None,
            album_art: None,
        }
    }

    /// Surfaces a fatal session or device failure for display. The transport
    /// keeps running; the engine retries after a cooldown.
    pub fn set_error(&mut self, msg: String)
        ensures
            final(self).error_message == Some(msg),
            *final(self) == (PlayerState { error_message: Some(msg), ..*old(self) }),
    {
        self.error_message = Some(msg);
    }
}

} // verus!
