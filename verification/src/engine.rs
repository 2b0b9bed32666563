use vstd::prelude::*;

use crate::device::{
    clamp_rate, lemma_chosen_format_exact, spec_chosen_format, BitPerfectDevice, DeviceError,
    DeviceTarget, HwCaps,
};
use crate::paths::{base_name, spec_base_name};
use crate::session::{spec_configure_ok, spec_depth, PlayerError, TrackParams};
use crate::state::{PlayerCommand, PlayerState, TrackInfo};

verus! {

/// An engine-level failure: the device could not be opened or the session
/// aborted. The caller displays it and retries after a cooldown instead of
/// letting the playback thread die.
#[derive(PartialEq, Clone, Debug)]
pub enum GaplessError {
    Player(PlayerError),
    Device(DeviceError),
}

/// The index the engine plays after consuming one command. `Next` advances
/// and wraps from the last track to the first; `Prev` steps back, clamped at
/// the first track; `PlayIndex` jumps only to an index the playlist has.
pub open spec fn spec_index_after_command(cmd: PlayerCommand, idx: int, len: int) -> int {
    match cmd {
        PlayerCommand::Next => if len > 0 && idx < len - 1 {
            idx + 1
        } else if len > 0 {
            0
        } else {
            idx
        },
        PlayerCommand::Prev => if idx > 0 {
            idx - 1
        } else {
            idx
        },
        PlayerCommand::PlayIndex(i) => if i < len {
            i as int
        } else {
            idx
        },
    }
}

/// Consuming the same `PlayIndex` twice in a row, with nothing in between,
/// lands on the same index as consuming it once: command application is
/// idempotent per issuance.
pub proof fn lemma_play_index_idempotent(i: usize, idx: int, len: int)
    ensures
        spec_index_after_command(
            PlayerCommand::PlayIndex(i),
            spec_index_after_command(PlayerCommand::PlayIndex(i), idx, len),
            len,
        ) == spec_index_after_command(PlayerCommand::PlayIndex(i), idx, len),
{
}

/// The index boundaries: `Next` at the last track wraps to the first,
/// `Prev` at the first track stays there, and `PlayIndex` out of range
/// leaves the index unchanged.
pub proof fn lemma_command_boundaries(idx: int, len: int, i: usize)
    ensures
        len > 0 && idx == len - 1 ==> spec_index_after_command(PlayerCommand::Next, idx, len) == 0,
        spec_index_after_command(PlayerCommand::Prev, 0, len) == 0,
        i >= len ==> spec_index_after_command(PlayerCommand::PlayIndex(i), idx, len) == idx,
{
}

/// Whether an iteration plays: it takes the shared transport flag, a
/// non-empty playlist and an index in range.
pub open spec fn spec_playable(playing: bool, idx: int, len: int) -> bool {
    playing && len > 0 && idx < len
}

/// The index after a session returns: one step forward on a natural end —
/// the transport still playing and no command pending — and unchanged
/// otherwise, since an intervening command's effect wins.
pub open spec fn spec_index_after_session(idx: int, playing: bool, command_pending: bool) -> int {
    if playing && !command_pending {
        idx + 1
    } else {
        idx
    }
}

/// Gapless auto-advance, the pieces composed: after track `i` of `len` ends
/// naturally, the engine's next index is `i + 1`; with another track
/// following, that iteration is playable; and a device configured for the
/// next track's parameters negotiates exactly its requested rate whenever
/// the hardware's range covers it, in a layout carrying exactly its bit
/// depth. A freshly opened device holds no bytes and `write_raw` demands a
/// configured device, so the reconfiguration precedes every byte of the new
/// track.
pub proof fn lemma_gapless_auto_advance(i: int, len: int, p: TrackParams, caps: HwCaps)
    requires
        0 <= i,
        i + 1 < len,
        caps.wf(),
        spec_configure_ok(p, caps),
        caps.rate_min <= p.sample_rate->Some_0 <= caps.rate_max,
    ensures
        spec_index_after_session(i, true, false) == i + 1,
        spec_playable(true, i + 1, len),
        clamp_rate(p.sample_rate->Some_0, caps) == p.sample_rate->Some_0,
        spec_chosen_format(spec_depth(p), caps.supports_s32).represents_exactly(spec_depth(p)),
{
    lemma_chosen_format_exact(spec_depth(p), caps.supports_s32);
}

/// The playback thread's own engine: the authoritative playlist copy and
/// index, its shadow of the transport flag, and the hardware address it
/// opens a fresh device from for every track.
pub struct GaplessEngine {
    pub playlist: Vec<String>,
    pub current_track: usize,
    pub is_playing: bool,
    pub card: String,
    pub device_index: u32,
}

impl GaplessEngine {
    /// The index never runs past the playlist's end by more than the one
    /// step automatic advance takes.
    pub open spec fn wf(&self) -> bool {
        self.current_track <= self.playlist@.len()
    }

    pub fn new(card: String, device_index: u32) -> (e: Self)
        ensures
            e.wf(),
            e.playlist@ =~= Seq::<String>::empty(),
            e.current_track == 0,
            !e.is_playing,
            e.card == card,
            e.device_index == device_index,
    {
        GaplessEngine { playlist: Vec::new(), current_track: 0, is_playing: false, card, device_index }
    }

    pub fn add_to_playlist(&mut self, path: String)
        requires
            old(self).wf(),
        ensures
            final(self).wf(),
            final(self).playlist@ == old(self).playlist@.push(path),
            *final(self) == (GaplessEngine { playlist: final(self).playlist, ..*old(self) }),
    {
        self.playlist.push(path);
    }

    /// The identifiers tried, in order, when opening hardware: a generic
    /// "default" request walks a prioritized chain of specific cards and
    /// only then falls back to the software-routed identifier; anything
    /// else is opened as addressed.
    pub fn device_candidates(&self) -> (c: Vec<DeviceTarget>)
        ensures
            self.card@ == "default"@ ==> {
                &&& c@.len() == 4
                &&& (c@[0] matches DeviceTarget::Hw { card, device } && card@ == "2"@ && device
                    == 0u32)
                &&& (c@[1] matches DeviceTarget::Hw { card, device } && card@ == "1"@ && device
                    == 0u32)
                &&& (c@[2] matches DeviceTarget::Hw { card, device } && card@ == "0"@ && device
                    == 0u32)
                &&& (c@[3] matches DeviceTarget::Raw { name } && name@ == "default"@)
            },
            self.card@ != "default"@ ==> c@.len() == 1 && (c@[0] matches DeviceTarget::Hw {
                card,
                device,
            } && card@ == self.card@ && device == self.device_index),
    {
        let default_name = "default".to_owned();
        if self.card.eq(&default_name) {
            let mut c: Vec<DeviceTarget> = Vec::new();
            c.push(DeviceTarget::Hw { card: "2".to_owned(), device: 0 });
            c.push(DeviceTarget::Hw { card: "1".to_owned(), device: 0 });
            c.push(DeviceTarget::Hw { card: "0".to_owned(), device: 0 });
            c.push(DeviceTarget::Raw { name: "default".to_owned() });
            c
        } else {
            let mut c: Vec<DeviceTarget> = Vec::new();
            c.push(DeviceTarget::Hw { card: self.card.clone(), device: self.device_index });
            c
        }
    }

    /// Takes the pending command out of the shared mailbox — it is consumed
    /// exactly once per issuance — and applies it to the index. After any
    /// command, both transport flags say playing exactly when the playlist
    /// is non-empty. Without a command nothing changes.
    pub fn apply_pending_command(&mut self, state: &mut PlayerState)
        requires
            old(self).wf(),
            old(state).wf(),
        ensures
            final(self).wf(),
            final(state).wf(),
            final(state).command is None,
            old(state).command is None ==> *final(self) == *old(self) && *final(state) == *old(state),
            old(state).command matches Some(cmd) ==> {
                &&& final(self).current_track as int == spec_index_after_command(
                    cmd,
                    old(self).current_track as int,
                    old(self).playlist@.len() as int,
                )
                &&& final(self).is_playing == (old(self).playlist@.len() > 0)
                &&& *final(self) == (GaplessEngine {
                    current_track: final(self).current_track,
                    is_playing: final(self).is_playing,
                    ..*old(self)
                })
                &&& *final(state) == (PlayerState {
                    command: None,
                    is_playing: old(self).playlist@.len() > 0,
                    ..*old(state)
                })
            },
    {
        let cmd = state.command.take();
        match cmd {
            None => {},
            Some(PlayerCommand::Next) => {
                if self.playlist.len() > 0 && self.current_track < self.playlist.len() - 1 {
                    self.current_track = self.current_track + 1;
                } else if self.playlist.len() > 0 {
                    self.current_track = 0;
                }
                self.sync_playing_flags(state);
            },
            Some(PlayerCommand::Prev) => {
                if self.current_track > 0 {
                    self.current_track = self.current_track - 1;
                }
                self.sync_playing_flags(state);
            },
            Some(PlayerCommand::PlayIndex(idx)) => {
                if idx < self.playlist.len() {
                    self.current_track = idx;
                }
                self.sync_playing_flags(state);
            },
        }
    }

    fn sync_playing_flags(&mut self, state: &mut PlayerState)
        ensures
            final(self).is_playing == (old(self).playlist@.len() > 0),
            final(state).is_playing == (old(self).playlist@.len() > 0),
            *final(self) == (GaplessEngine { is_playing: final(self).is_playing, ..*old(self) }),
            *final(state) == (PlayerState { is_playing: final(state).is_playing, ..*old(state) }),
    {
        if self.playlist.len() > 0 {
            self.is_playing = true;
            state.is_playing = true;
        } else {
            self.is_playing = false;
            state.is_playing = false;
        }
    }

    /// Whether this iteration plays, and which track: it needs the shared
    /// transport flag, a non-empty playlist and an index in range. When the
    /// playlist is empty or the index ran out while either side still
    /// believed it was playing, both flags and the published track are
    /// cleared within this one cycle — the idle resting state; the caller
    /// then sleeps briefly.
    pub fn evaluate_playability(&mut self, state: &mut PlayerState) -> (play: Option<usize>)
        requires
            old(self).wf(),
            old(state).wf(),
        ensures
            final(self).wf(),
            final(state).wf(),
            final(self).playlist == old(self).playlist,
            final(self).current_track == old(self).current_track,
            play matches Some(i) ==> i == old(self).current_track && i < old(self).playlist@.len() && old(state).is_playing && *final(self) == *old(self) && *final(state) == *old(state),
            play is Some <==> spec_playable(
                old(state).is_playing,
                old(self).current_track as int,
                old(self).playlist@.len() as int,
            ),
            play is None && (old(self).playlist@.len() == 0 || old(self).current_track >= old(self).playlist@.len()) && (old(self).is_playing || old(state).is_playing) ==> {
                &&& !final(self).is_playing
                &&& !final(state).is_playing
                &&& final(state).current_track is None
                &&& *final(state) == (PlayerState {
                    is_playing: false,
                    current_track: None,
                    ..*old(state)
                })
            },
            play is None && !((old(self).playlist@.len() == 0 || old(self).current_track >= old(
            self).playlist@.len()) && (old(self).is_playing || old(state).is_playing)) ==> *final(self) == *old(self) && *final(state) == *old(state),
    {
        let playable = state.is_playing && self.playlist.len() > 0 && self.current_track
            < self.playlist.len();
        if playable {
            return Some(self.current_track);
        }
        if (self.playlist.len() == 0 || self.current_track >= self.playlist.len()) && (
        self.is_playing || state.is_playing) {
            self.is_playing = false;
            state.is_playing = false;
            state.current_track = None;
        }
        None
    }

    /// The path of a playlist entry.
    pub fn track_at(&self, i: usize) -> (p: String)
        requires
            i < self.playlist@.len(),
        ensures
            p == self.playlist@[i as int],
    {
        self.playlist[i].clone()
    }

    /// Publishes the placeholder track record for a fresh session — the
    /// file's display name with zeroed format fields, which the session's
    /// configuring step overwrites with the negotiated values — and clears
    /// any stale error.
    pub fn begin_track(&self, state: &mut PlayerState)
        requires
            old(state).wf(),
            self.current_track < self.playlist@.len(),
        ensures
            final(state).wf(),
            final(state).current_track matches Some(t) && t == (TrackInfo {
                filename: final(state).current_track->Some_0.filename,
                sample_rate: 0u32,
                bit_depth: 0u16,
                title: None,
                artist: None,
            }),
            final(state).current_track->Some_0.filename@ == spec_base_name(
                self.playlist@[self.current_track as int]@,
            ),
            *final(state) == (PlayerState {
                current_track: final(state).current_track,
                error_message: None,
                ..*old(state)
            }),
    {
        let path = self.playlist[self.current_track].clone();
        let filename = base_name(path.as_str());
        state.current_track = Some(
            TrackInfo { filename, sample_rate: 0, bit_depth: 0, title: None, artist: None },
        );
        state.error_message = None;
    }

    /// The step after a session returns: when the engine is still marked
    /// playing and no command arrived during the track, the track ended
    /// naturally and the index advances by one — running past the end stops
    /// playback rather than wrapping; wrap-to-start is reserved for an
    /// explicit `Next`. A command that did arrive wins instead: the index is
    /// left alone and the next iteration's command handling governs.
    pub fn finish_track(&mut self, state: &mut PlayerState)
        requires
            old(self).wf(),
            old(state).wf(),
            old(self).current_track < old(self).playlist@.len(),
        ensures
            final(self).wf(),
            final(state).wf(),
            final(self).current_track as int == spec_index_after_session(
                old(self).current_track as int,
                old(state).is_playing,
                old(state).command is Some,
            ),
            old(state).command is Some ==> *final(self) == *old(self) && *final(state) == *old(state),
            !old(state).is_playing ==> *final(self) == *old(self) && *final(state) == *old(state),
            old(state).is_playing && old(state).command is None ==> {
                &&& final(self).current_track == old(self).current_track + 1
                &&& *final(self) == (GaplessEngine {
                    current_track: final(self).current_track,
                    ..*old(self)
                })
                &&& (final(self).current_track == old(self).playlist@.len() ==> *final(state) == (
                PlayerState { is_playing: false, current_track: None, ..*old(state) }))
                &&& (final(self).current_track < old(self).playlist@.len() ==> *final(state)
                    == *old(state))
            },
    {
        if state.is_playing && state.command.is_none() {
            let len = self.playlist.len();
            self.current_track = self.current_track + 1;
            if self.current_track >= len {
                state.is_playing = false;
                state.current_track = None;
            }
        }
    }
}

/// The first identifier in the fallback chain whose probe succeeded; `None`
/// when every identifier failed and the engine must report an error.
pub fn first_available(probes: &Vec<Option<HwCaps>>) -> (r: Option<usize>)
    ensures
        match r {
            Some(i) => i < probes@.len() && probes@[i as int] is Some && (forall|j: int|
                0 <= j < i ==> probes@[j] is None),
            None => forall|j: int| 0 <= j < probes@.len() ==> probes@[j] is None,
        },
{
    let mut i: usize = 0;
    while i < probes.len()
        invariant
            i <= probes@.len(),
            forall|j: int| 0 <= j < i ==> probes@[j] is None,
        decreases probes@.len() - i,
    {
        if probes[i].is_some() {
            return Some(i);
        }
        i = i + 1;
    }
    None
}

/// When no identifier in the fallback chain opened, the failure is recorded
/// in the shared state for display — a hardware classification, never a file
/// one — and handed to the caller, which retries after a cooldown rather
/// than terminating the playback thread. No session runs and no placeholder
/// track record is published.
pub fn report_open_failure(state: &mut PlayerState) -> (e: GaplessError)
    requires
        old(state).wf(),
    ensures
        final(state).wf(),
        e == GaplessError::Device(DeviceError::NoSuchDevice),
        final(state).error_message matches Some(m) && m@ == "no such audio device"@,
        *final(state) == (PlayerState {
            error_message: final(state).error_message,
            ..*old(state)
        }),
{
    let msg = DeviceError::NoSuchDevice.message();
    state.set_error(msg);
    GaplessError::Device(DeviceError::NoSuchDevice)
}

/// Opens a device at one identifier of the fallback chain, with the
/// capabilities its probe reported.
pub fn open_target(t: &DeviceTarget, caps: HwCaps) -> (dev: BitPerfectDevice)
    requires
        caps.wf(),
    ensures
        dev.wf(),
        t matches DeviceTarget::Hw { card, device } ==> dev.target matches DeviceTarget::Hw {
            card: c,
            device: d,
        } && c@ == card@ && d == device,
        t matches DeviceTarget::Raw { name } ==> dev.target matches DeviceTarget::Raw { name: n }
            && n@ == name@,
        dev.caps == caps,
        dev.config is None,
        dev.pending@ =~= Seq::<u8>::empty(),
{
    match t {
        DeviceTarget::Hw { card, device } => BitPerfectDevice::open(card.as_str(), *device, caps),
        DeviceTarget::Raw { name } => BitPerfectDevice::open_raw(name.as_str(), caps),
    }
}

} // verus!
