use vstd::prelude::*;

use vstd::arithmetic::div_mod::{
    lemma_div_multiples_vanish_quotient,
    lemma_fundamental_div_mod,
    lemma_mod_multiples_basic,
};
use crate::device::{clamp_rate, BitPerfectDevice, DeviceConfig, DeviceError, HwCaps, SampleFormat};
use crate::state::{PlayerState, TrackInfo};
use crate::volume::{lemma_mul_bound, scale_sample_i16, scale_sample_i32, spec_scale};

verus! {

/// Codec parameters of one track as the external decoder service reports
/// them; the placeholder codec is identifier 0.
#[derive(PartialEq, Eq, Structural, Clone, Copy, Debug)]
pub struct TrackParams {
    pub codec: u32,
    pub sample_rate: Option<u32>,
    pub channels: Option<u8>,
    pub bits_per_sample: Option<u16>,
    pub n_frames: Option<u64>,
}

/// The codec identifier the decoder service uses for "no codec".
pub const CODEC_NULL: u32 = 0;

/// Tag values found at one metadata level (format-level or container-probe).
#[derive(PartialEq, Clone, Debug)]
pub struct SideMetadata {
    pub title: Option<String>,
    pub artist: Option<String>,
    pub album_art: Option<Vec<u8>>,
}

/// Picks the first enumerated track whose codec is not the null/placeholder
/// codec; a file without one has no audio to play.
pub fn select_track(tracks: &Vec<TrackParams>) -> (r: Option<usize>)
    ensures
        match r {
            Some(i) => i < tracks@.len() && tracks@[i as int].codec != CODEC_NULL && (forall|j: int|
                0 <= j < i ==> tracks@[j].codec == CODEC_NULL),
            None => forall|j: int| 0 <= j < tracks@.len() ==> tracks@[j].codec == CODEC_NULL,
        },
{
    let mut i: usize = 0;
    while i < tracks.len()
        invariant
            i <= tracks@.len(),
            forall|j: int| 0 <= j < i ==> tracks@[j].codec == CODEC_NULL,
        decreases tracks@.len() - i,
    {
        if tracks[i].codec != CODEC_NULL {
            return Some(i);
        }
        i = i + 1;
    }
    None
}

/// Merges the two metadata levels: the format-level block is scanned first
/// and the container-probe block only fills fields still missing; a later
/// source never overwrites a populated field.
pub fn merge_metadata(primary: SideMetadata, fallback: SideMetadata) -> (m: SideMetadata)
    ensures
        m.title == if primary.title is Some {
            primary.title
        } else {
            fallback.title
        },
        m.artist == if primary.artist is Some {
            primary.artist
        } else {
            fallback.artist
        },
        m.album_art == if primary.album_art is Some {
            primary.album_art
        } else {
            fallback.album_art
        },
{
    SideMetadata {
        title: if primary.title.is_some() {
            primary.title
        } else {
            fallback.title
        },
        artist: if primary.artist.is_some() {
            primary.artist
        } else {
            fallback.artist
        },
        album_art: if primary.album_art.is_some() {
            primary.album_art
        } else {
            fallback.album_art
        },
    }
}

/// Interleaved samples of one decoded packet, already in the container width
/// the hardware was configured for.
#[derive(PartialEq, Clone, Debug)]
pub enum PcmSamples {
    S16(Vec<i16>),
    S32(Vec<i32>),
}

impl PcmSamples {
    pub open spec fn spec_len(&self) -> int {
        match self {
            PcmSamples::S16(v) => v@.len() as int,
            PcmSamples::S32(v) => v@.len() as int,
        }
    }

    /// Decoded samples must be in the same container the hardware expects;
    /// both 24-bit layouts carry their samples in a 32-bit container here.
    pub open spec fn matches_format(&self, f: SampleFormat) -> bool {
        match self {
            PcmSamples::S16(_) => f == SampleFormat::S16LE,
            PcmSamples::S32(_) => f == SampleFormat::S243LE || f == SampleFormat::S32LE,
        }
    }
}

/// The unsigned two's-complement image of a 16-bit sample value.
pub open spec fn spec_u16_image(v: int) -> int {
    if v >= 0 {
        v
    } else {
        v + 0x10000
    }
}

/// The unsigned two's-complement image of a 32-bit sample value.
pub open spec fn spec_u32_image(v: int) -> int {
    if v >= 0 {
        v
    } else {
        v + 0x1_0000_0000
    }
}

/// A 16-bit value as two little-endian bytes.
pub open spec fn spec_le16(u: int) -> Seq<u8> {
    seq![(u % 256) as u8, (u / 256) as u8]
}

/// A 32-bit value as four little-endian bytes.
pub open spec fn spec_le32(u: int) -> Seq<u8> {
    seq![(u % 256) as u8, (u / 256 % 256) as u8, (u / 0x10000 % 256) as u8, (u / 0x1000000) as u8]
}

/// The 24 significant bits of a 32-bit-container value as three
/// little-endian bytes: the packed layout drops the padding byte.
pub open spec fn spec_le24(u: int) -> Seq<u8> {
    seq![(u / 256 % 256) as u8, (u / 0x10000 % 256) as u8, (u / 0x1000000) as u8]
}

/// The wire bytes of a 16-bit packet after volume scaling.
pub open spec fn spec_ser16(s: Seq<i16>, db: int) -> Seq<u8>
    decreases s.len(),
{
    if s.len() == 0 {
        Seq::empty()
    } else {
        spec_ser16(s.drop_last(), db) + spec_le16(
            spec_u16_image(spec_scale(s.last() as int, db)),
        )
    }
}

/// The wire bytes of a 32-bit-container packet after volume scaling, in the
/// padded four-byte layout.
pub open spec fn spec_ser32(s: Seq<i32>, db: int) -> Seq<u8>
    decreases s.len(),
{
    if s.len() == 0 {
        Seq::empty()
    } else {
        spec_ser32(s.drop_last(), db) + spec_le32(
            spec_u32_image(spec_scale(s.last() as int, db)),
        )
    }
}

/// The wire bytes of a 32-bit-container packet after volume scaling, in the
/// packed three-byte layout.
pub open spec fn spec_ser24(s: Seq<i32>, db: int) -> Seq<u8>
    decreases s.len(),
{
    if s.len() == 0 {
        Seq::empty()
    } else {
        spec_ser24(s.drop_last(), db) + spec_le24(
            spec_u32_image(spec_scale(s.last() as int, db)),
        )
    }
}

/// Exactly the bytes a packet puts on the wire: scaling composed with the
/// serialization the configured layout calls for.
pub open spec fn spec_scaled_bytes(s: PcmSamples, f: SampleFormat, db: int) -> Seq<u8> {
    match s {
        PcmSamples::S16(v) => spec_ser16(v@, db),
        PcmSamples::S32(v) => if f == SampleFormat::S243LE {
            spec_ser24(v@, db)
        } else {
            spec_ser32(v@, db)
        },
    }
}

pub proof fn lemma_ser16_len(s: Seq<i16>, db: int)
    ensures
        spec_ser16(s, db).len() == 2 * s.len(),
    decreases s.len(),
{
    if s.len() > 0 {
        lemma_ser16_len(s.drop_last(), db);
    }
}

pub proof fn lemma_ser32_len(s: Seq<i32>, db: int)
    ensures
        spec_ser32(s, db).len() == 4 * s.len(),
    decreases s.len(),
{
    if s.len() > 0 {
        lemma_ser32_len(s.drop_last(), db);
    }
}

pub proof fn lemma_ser24_len(s: Seq<i32>, db: int)
    ensures
        spec_ser24(s, db).len() == 3 * s.len(),
    decreases s.len(),
{
    if s.len() > 0 {
        lemma_ser24_len(s.drop_last(), db);
    }
}

fn serialize_scaled_i16(v: &Vec<i16>, db: i32) -> (bytes: Vec<u8>)
    requires
        -60 <= db <= 0,
    ensures
        bytes@ == spec_ser16(v@, db as int),
        bytes@.len() == 2 * v@.len(),
{
    let mut bytes: Vec<u8> = Vec::new();
    let mut i: usize = 0;
    proof {
        assert(v@.take(0) =~= Seq::<i16>::empty());
    }
    while i < v.len()
        invariant
            i <= v@.len(),
            -60 <= db <= 0,
            bytes@ == spec_ser16(v@.take(i as int), db as int),
        decreases v@.len() - i,
    {
        let sc = scale_sample_i16(v[i], db);
        let u: u16 = if sc >= 0 {
            sc as u16
        } else {
            ((sc as i32) + 0x10000) as u16
        };
        bytes.push((u % 256) as u8);
        bytes.push((u / 256) as u8);
        proof {
            assert(v@.take(i + 1).drop_last() =~= v@.take(i as int));
            assert(v@.take(i + 1).last() == v@[i as int]);
            assert(bytes@ =~= spec_ser16(v@.take(i + 1), db as int));
        }
        i = i + 1;
    }
    proof {
        assert(v@.take(v@.len() as int) =~= v@);
        lemma_ser16_len(v@, db as int);
    }
    bytes
}

fn serialize_scaled_i32(v: &Vec<i32>, db: i32) -> (bytes: Vec<u8>)
    requires
        -60 <= db <= 0,
    ensures
        bytes@ == spec_ser32(v@, db as int),
        bytes@.len() == 4 * v@.len(),
{
    let mut bytes: Vec<u8> = Vec::new();
    let mut i: usize = 0;
    proof {
        assert(v@.take(0) =~= Seq::<i32>::empty());
    }
    while i < v.len()
        invariant
            i <= v@.len(),
            -60 <= db <= 0,
            bytes@ == spec_ser32(v@.take(i as int), db as int),
        decreases v@.len() - i,
    {
        let sc = scale_sample_i32(v[i], db);
        let u: u32 = if sc >= 0 {
            sc as u32
        } else {
            ((sc as i64) + 0x1_0000_0000) as u32
        };
        bytes.push((u % 256) as u8);
        bytes.push((u / 256 % 256) as u8);
        bytes.push((u / 0x10000 % 256) as u8);
        bytes.push((u / 0x1000000) as u8);
        proof {
            assert(v@.take(i + 1).drop_last() =~= v@.take(i as int));
            assert(v@.take(i + 1).last() == v@[i as int]);
            assert(bytes@ =~= spec_ser32(v@.take(i + 1), db as int));
        }
        i = i + 1;
    }
    proof {
        assert(v@.take(v@.len() as int) =~= v@);
        lemma_ser32_len(v@, db as int);
    }
    bytes
}

fn serialize_scaled_i24(v: &Vec<i32>, db: i32) -> (bytes: Vec<u8>)
    requires
        -60 <= db <= 0,
    ensures
        bytes@ == spec_ser24(v@, db as int),
        bytes@.len() == 3 * v@.len(),
{
    let mut bytes: Vec<u8> = Vec::new();
    let mut i: usize = 0;
    proof {
        assert(v@.take(0) =~= Seq::<i32>::empty());
    }
    while i < v.len()
        invariant
            i <= v@.len(),
            -60 <= db <= 0,
            bytes@ == spec_ser24(v@.take(i as int), db as int),
        decreases v@.len() - i,
    {
        let sc = scale_sample_i32(v[i], db);
        let u: u32 = if sc >= 0 {
            sc as u32
        } else {
            ((sc as i64) + 0x1_0000_0000) as u32
        };
        bytes.push((u / 256 % 256) as u8);
        bytes.push((u / 0x10000 % 256) as u8);
        bytes.push((u / 0x1000000) as u8);
        proof {
            assert(v@.take(i + 1).drop_last() =~= v@.take(i as int));
            assert(v@.take(i + 1).last() == v@[i as int]);
            assert(bytes@ =~= spec_ser24(v@.take(i + 1), db as int));
        }
        i = i + 1;
    }
    proof {
        assert(v@.take(v@.len() as int) =~= v@);
        lemma_ser24_len(v@, db as int);
    }
    bytes
}

proof fn lemma_frames_divide(samples: int, channels: int, bps: int)
    requires
        channels >= 1,
        1 <= bps,
        samples >= 0,
        samples % channels == 0,
    ensures
        (bps * samples) % (bps * channels) == 0,
        (bps * samples) / (bps * channels) == samples / channels,
{
    assert(bps * channels > 0) by (nonlinear_arith)
        requires
            bps >= 1,
            channels >= 1,
    ;
    let k = samples / channels;
    lemma_fundamental_div_mod(samples, channels);
    assert(samples == k * channels);
    assert(bps * samples == k * (bps * channels)) by (nonlinear_arith)
        requires
            samples == k * channels,
    ;
    lemma_mod_multiples_basic(k, bps * channels);
    assert(samples >= 0 ==> k >= 0) by (nonlinear_arith)
        requires
            samples == k * channels,
            channels >= 1,
    ;
    lemma_div_multiples_vanish_quotient(bps, samples, channels);
}

/// A session failure and what caused it; transient single-packet decode
/// errors are skipped before one of these is ever raised.
#[derive(PartialEq, Clone, Debug)]
pub enum PlayerError {
    /// The named file could not be opened.
    FileNotFound(String),
    /// The probed file enumerates no track with a real codec.
    NoAudioTrack,
    /// The decoder failed in a way that aborts the session.
    DecodeFatal(String),
    /// The hardware rejected the exact-format configuration.
    HardwareConfig(DeviceError),
    /// The hardware rejected a write mid-stream.
    HardwareWrite(DeviceError),
}

/// What the decode loop does next, decided once per packet from the shared
/// state alone.
#[derive(PartialEq, Eq, Structural, Clone, Copy, Debug)]
pub enum StreamStep {
    /// A command is pending: leave the loop without consuming the command
    /// and without draining — the track is abandoned, not finished.
    Abandon,
    /// Transport is paused: sleep briefly and look again.
    PauseWait,
    /// Pull and play the next packet.
    DecodeNext,
}

/// One turn of the decode loop as the outside decoder reported it.
pub enum SessionEvent {
    /// A packet decoded into interleaved samples lasting `dur_frames` frames.
    Decoded { dur_frames: u64, samples: PcmSamples },
    /// The stream is exhausted: the natural end of the track.
    EndOfStream,
    /// One packet failed to decode; it is skipped and decoding continues.
    TransientDecodeError,
    /// The decoder failed fatally; the session aborts.
    FatalDecodeError { message: String },
}

/// The session's verdict on one event.
#[derive(PartialEq, Clone, Debug)]
pub enum SessionStatus {
    Continue,
    Finished,
    Failed(PlayerError),
}

/// Milliseconds a run of frames lasts at a negotiated rate.
pub open spec fn spec_millis_of_frames(frames: u64, rate: u32) -> int
    recommends
        rate >= 1,
{
    frames * 1000 / (rate as int)
}

/// The duration published for a track: from the total frame count and the
/// negotiated rate when the count is known, else 0; saturating at the
/// field's width.
pub open spec fn spec_duration_millis(n_frames: Option<u64>, rate: u32) -> int {
    match n_frames {
        Some(f) => if spec_millis_of_frames(f, rate) > u64::MAX {
            u64::MAX as int
        } else {
            spec_millis_of_frames(f, rate)
        },
        None => 0,
    }
}

fn duration_millis(n_frames: Option<u64>, rate: u32) -> (d: u64)
    requires
        rate >= 1,
    ensures
        d as int == spec_duration_millis(n_frames, rate),
{
    match n_frames {
        None => 0,
        Some(f) => {
            proof {
                lemma_mul_bound(f as int, 1000, u64::MAX as int, 1000);
            }
            let q = (f as u128) * 1000 / (rate as u128);
            if q > u64::MAX as u128 {
                u64::MAX
            } else {
                q as u64
            }
        },
    }
}

/// The position after one packet: it advances by the packet's duration and
/// never moves backwards, saturating at the field's width.
pub open spec fn spec_advanced_position(pos: u64, frames: u64, rate: u32) -> int {
    let inc = if spec_millis_of_frames(frames, rate) > u64::MAX {
        u64::MAX as int
    } else {
        spec_millis_of_frames(frames, rate)
    };
    if pos + inc > u64::MAX {
        u64::MAX as int
    } else {
        pos + inc
    }
}

fn advance_position(state: &mut PlayerState, dur_frames: u64, rate: u32)
    requires
        rate >= 1,
    ensures
        *final(state) == (PlayerState {
            position_millis: final(state).position_millis,
            ..*old(state)
        }),
        final(state).position_millis as int == spec_advanced_position(
            old(state).position_millis,
            dur_frames,
            rate,
        ),
        final(state).position_millis >= old(state).position_millis,
{
    let inc = duration_millis(Some(dur_frames), rate);
    let pos = state.position_millis;
    state.position_millis = if pos <= u64::MAX - inc {
        pos + inc
    } else {
        u64::MAX
    };
}

/// What track parameters the hardware will accept: the decoder must report
/// a rate and a channel count, the depth (16 when unreported) must be one of
/// the three exact layouts, and 32-bit material needs the 32-bit container.
pub open spec fn spec_configure_ok(p: TrackParams, caps: HwCaps) -> bool {
    &&& p.sample_rate is Some
    &&& p.channels is Some
    &&& p.channels->Some_0 >= 1
    &&& (spec_depth(p) == 16 || spec_depth(p) == 24 || spec_depth(p) == 32)
    &&& !(spec_depth(p) == 32 && !caps.supports_s32)
}

/// The bit depth a session plays at: what the decoder reports, 16 when the
/// container does not say.
pub open spec fn spec_depth(p: TrackParams) -> u16 {
    match p.bits_per_sample {
        Some(b) => b,
        None => 16,
    }
}

/// The shared track record once the hardware accepted a configuration: the
/// negotiated values overwrite the placeholder's zeroes, and the merged
/// metadata fills title and artist.
pub open spec fn spec_track_after(
    ct: Option<TrackInfo>,
    rate: u32,
    depth: u16,
    title: Option<String>,
    artist: Option<String>,
) -> Option<TrackInfo> {
    match ct {
        None => None,
        Some(t) => Some(
            TrackInfo { filename: t.filename, sample_rate: rate, bit_depth: depth, title, artist },
        ),
    }
}

/// The player owning one device for one track's session.
pub struct BitPerfectPlayer {
    pub device: BitPerfectDevice,
}

impl BitPerfectPlayer {
    pub fn new(device: BitPerfectDevice) -> (p: Self)
        ensures
            p.device == device,
    {
        BitPerfectPlayer { device }
    }

    /// Scales one decoded packet by the current volume, lays it out in the
    /// exact configured hardware format, and hands the bytes to the device.
    /// Returns the number of frames written.
    pub fn write_decoded_to_device(&mut self, samples: &PcmSamples, volume_db: i32) -> (r: Result<
        usize,
        DeviceError,
    >)
        requires
            old(self).device.wf(),
            old(self).device.is_configured(),
            -60 <= volume_db <= 0,
            samples.matches_format(old(self).device.config->Some_0.format),
            samples.spec_len() % (old(self).device.config->Some_0.channels as int) == 0,
        ensures
            final(self).device.wf(),
            final(self).device == (BitPerfectDevice {
                pending: final(self).device.pending,
                ..old(self).device
            }),
            final(self).device.pending@ == old(self).device.pending@ + spec_scaled_bytes(
                *samples,
                old(self).device.config->Some_0.format,
                volume_db as int,
            ),
            r matches Ok(n) && n as int == samples.spec_len() / (
            old(self).device.config->Some_0.channels as int),
    {
        let ghost cfg = self.device.config->Some_0;
        let bytes: Vec<u8> = match samples {
            PcmSamples::S16(v) => serialize_scaled_i16(v, volume_db),
            PcmSamples::S32(v) => {
                let packed = match &self.device.config {
                    Some(c) => matches!(c.format, SampleFormat::S243LE),
                    None => false,
                };
                if packed {
                    serialize_scaled_i24(v, volume_db)
                } else {
                    serialize_scaled_i32(v, volume_db)
                }
            },
        };
        proof {
            lemma_frames_divide(
                samples.spec_len(),
                cfg.channels as int,
                cfg.format.spec_bytes_per_sample(),
            );
        }
        self.device.write_raw(bytes.as_slice())
    }

    /// The configuring step of a session: reads the negotiated track
    /// parameters, puts the hardware into the exact matching format, writes
    /// the actual values and the merged metadata back into the shared state,
    /// publishes the duration, clears any prior error and resets the
    /// position. Returns the negotiated sample rate, which all later time
    /// arithmetic must use.
    pub fn configure_for_track(
        &mut self,
        params: &TrackParams,
        meta: SideMetadata,
        state: &mut PlayerState,
    ) -> (r: Result<u32, PlayerError>)
        requires
            old(self).device.wf(),
            old(state).wf(),
        ensures
            final(self).device.wf(),
            final(state).wf(),
            final(self).device.target == old(self).device.target,
            final(self).device.caps == old(self).device.caps,
            r is Ok <==> spec_configure_ok(*params, old(self).device.caps),
            !(params.sample_rate is Some && params.channels is Some) ==> r == Err::<
                u32,
                PlayerError,
            >(PlayerError::NoAudioTrack) && *final(self) == *old(self) && *final(state) == *old(
                state,
            ),
            r matches Ok(rate) ==> {
                &&& rate == clamp_rate(params.sample_rate->Some_0, old(self).device.caps)
                &&& final(self).device.config == Some(
                    DeviceConfig {
                        format: crate::device::spec_chosen_format(
                            spec_depth(*params),
                            old(self).device.caps.supports_s32,
                        ),
                        channels: params.channels->Some_0,
                        rate,
                    },
                )
                &&& final(self).device.pending@ =~= Seq::<u8>::empty()
                &&& *final(state) == (PlayerState {
                    current_track: spec_track_after(
                        old(state).current_track,
                        rate,
                        spec_depth(*params),
                        meta.title,
                        meta.artist,
                    ),
                    album_art: meta.album_art,
                    error_message: None,
                    duration_millis: final(state).duration_millis,
                    position_millis: 0,
                    ..*old(state)
                })
                &&& final(state).duration_millis as int == spec_duration_millis(
                    params.n_frames,
                    rate,
                )
            },
            r matches Err(PlayerError::HardwareConfig(e)) ==> {
                &&& (e == DeviceError::UnsupportedBitDepth <==> !(spec_depth(*params) == 16
                    || spec_depth(*params) == 24 || spec_depth(*params) == 32))
                &&& final(self).device.config is None
                &&& final(state).error_message is Some
                &&& *final(state) == (PlayerState {
                    error_message: final(state).error_message,
                    ..*old(state)
                })
            },
            r is Err ==> (r matches Err(PlayerError::NoAudioTrack) || r matches Err(
                PlayerError::HardwareConfig(_),
            )),
            params.sample_rate is Some && params.channels is Some && r is Err ==> r matches Err(
                PlayerError::HardwareConfig(_),
            ),
    {
        let sample_rate = match params.sample_rate {
            Some(r) => r,
            None => {
                return Err(PlayerError::NoAudioTrack);
            },
        };
        let channels = match params.channels {
            Some(c) => c,
            None => {
                return Err(PlayerError::NoAudioTrack);
            },
        };
        let bit_depth = match params.bits_per_sample {
            Some(b) => b,
            None => 16,
        };
        match self.device.configure_exact(sample_rate, bit_depth, channels) {
            Err(e) => {
                state.set_error(e.message());
                return Err(PlayerError::HardwareConfig(e));
            },
            Ok(()) => {},
        }
        let rate = self.device.negotiated_rate();
        let SideMetadata { title, artist, album_art } = meta;
        match &mut state.current_track {
            Some(t) => {
                t.sample_rate = rate;
                t.bit_depth = bit_depth;
                t.title = title;
                t.artist = artist;
            },
            None => {},
        }
        state.album_art = album_art;
        state.error_message = None;
        state.duration_millis = duration_millis(params.n_frames, rate);
        state.position_millis = 0;
        Ok(rate)
    }

    /// One turn of the streaming loop: plays a decoded packet at the current
    /// volume and advances the position; drains and finishes at the natural
    /// end of the stream; skips a transient decode error; aborts on a fatal
    /// one, surfacing its message. Abandonment for a pending command is
    /// decided before the decoder is pulled, by `next_stream_step`.
    pub fn on_stream_event(&mut self, ev: SessionEvent, state: &mut PlayerState) -> (r:
        SessionStatus)
        requires
            old(self).device.wf(),
            old(self).device.is_configured(),
            old(state).wf(),
            ev matches SessionEvent::Decoded { samples, .. } ==> samples.matches_format(
                old(self).device.config->Some_0.format,
            ) && samples.spec_len() % (old(self).device.config->Some_0.channels as int) == 0,
        ensures
            final(self).device.wf(),
            final(self).device.is_configured(),
            final(self).device == (BitPerfectDevice {
                pending: final(self).device.pending,
                ..old(self).device
            }),
            final(state).wf(),
            ev matches SessionEvent::Decoded { dur_frames, samples } ==> {
                &&& r == SessionStatus::Continue
                &&& final(self).device.pending@ == old(self).device.pending@ + spec_scaled_bytes(
                    samples,
                    old(self).device.config->Some_0.format,
                    old(state).volume_db as int,
                )
                &&& *final(state) == (PlayerState {
                    position_millis: final(state).position_millis,
                    ..*old(state)
                })
                &&& final(state).position_millis as int == spec_advanced_position(
                    old(state).position_millis,
                    dur_frames,
                    old(self).device.config->Some_0.rate,
                )
                &&& final(state).position_millis >= old(state).position_millis
            },
            ev matches SessionEvent::EndOfStream ==> r == SessionStatus::Finished
                && final(self).device.pending@ =~= Seq::<u8>::empty() && *final(state) == *old(
                state,
            ),
            ev matches SessionEvent::TransientDecodeError ==> r == SessionStatus::Continue
                && *final(state) == *old(state) && final(self).device == old(self).device,
            ev matches SessionEvent::FatalDecodeError { message } ==> {
                &&& r == SessionStatus::Failed(PlayerError::DecodeFatal(message))
                &&& *final(state) == (PlayerState { error_message: Some(message), ..*old(state) })
                &&& final(self).device == old(self).device
            },
    {
        match ev {
            SessionEvent::Decoded { dur_frames, samples } => {
                let volume = state.volume_db;
                let rate = self.device.negotiated_rate();
                let _frames = self.write_decoded_to_device(&samples, volume);
                advance_position(state, dur_frames, rate);
                SessionStatus::Continue
            },
            SessionEvent::EndOfStream => {
                let _drained = self.device.drain();
                SessionStatus::Finished
            },
            SessionEvent::TransientDecodeError => SessionStatus::Continue,
            SessionEvent::FatalDecodeError { message } => {
                state.set_error(message.clone());
                SessionStatus::Failed(PlayerError::DecodeFatal(message))
            },
        }
    }
}

/// What the streaming loop does next: a pending command abandons the track
/// without consuming the command and without draining; a paused transport
/// waits; otherwise the next packet is pulled.
pub fn next_stream_step(state: &PlayerState) -> (r: StreamStep)
    ensures
        state.command is Some ==> r == StreamStep::Abandon,
        state.command is None && !state.is_playing ==> r == StreamStep::PauseWait,
        state.command is None && state.is_playing ==> r == StreamStep::DecodeNext,
{
    if state.command.is_some() {
        StreamStep::Abandon
    } else if !state.is_playing {
        StreamStep::PauseWait
    } else {
        StreamStep::DecodeNext
    }
}

} // verus!
