use vstd::prelude::*;

verus! {

/// Interleaved little-endian sample layouts the device can be put into.
/// `S243LE` is the packed 3-byte 24-bit layout; 24-bit audio prefers the
/// padded 32-bit container (`S32LE`) when the hardware offers it.
#[derive(PartialEq, Eq, Structural, Clone, Copy, Debug)]
pub enum SampleFormat {
    Unknown,
    S16LE,
    S243LE,
    S32LE,
}

impl SampleFormat {
    /// Bytes one sample of this layout occupies on the wire.
    pub open spec fn spec_bytes_per_sample(self) -> int {
        match self {
            SampleFormat::Unknown => 0,
            SampleFormat::S16LE => 2,
            SampleFormat::S243LE => 3,
            SampleFormat::S32LE => 4,
        }
    }

    pub fn bytes_per_sample(self) -> (n: usize)
        ensures
            n == self.spec_bytes_per_sample(),
    {
        match self {
            SampleFormat::Unknown => 0,
            SampleFormat::S16LE => 2,
            SampleFormat::S243LE => 3,
            SampleFormat::S32LE => 4,
        }
    }

    /// Whether this layout carries a sample of `depth` meaningful bits
    /// without widening or narrowing the audio data itself.
    pub open spec fn represents_exactly(self, depth: u16) -> bool {
        match self {
            SampleFormat::Unknown => false,
            SampleFormat::S16LE => depth == 16,
            SampleFormat::S243LE => depth == 24,
            SampleFormat::S32LE => depth == 24 || depth == 32,
        }
    }
}

/// The layout chosen for a requested bit depth: the narrowest exact format,
/// with the padded 32-bit container preferred for 24-bit material when the
/// hardware supports it.
pub open spec fn spec_chosen_format(depth: u16, supports_s32: bool) -> SampleFormat {
    if depth == 16 {
        SampleFormat::S16LE
    } else if depth == 24 {
        if supports_s32 {
            SampleFormat::S32LE
        } else {
            SampleFormat::S243LE
        }
    } else if depth == 32 {
        SampleFormat::S32LE
    } else {
        SampleFormat::Unknown
    }
}

/// For each of the three exact depths, the layout `configure_exact` picks
/// carries exactly that many meaningful bits per sample per channel, so
/// subsequent writes are bit-perfect; every other depth maps to no layout
/// and is rejected as unsupported.
pub proof fn lemma_chosen_format_exact(depth: u16, supports_s32: bool)
    ensures
        (depth == 16 || depth == 24 || depth == 32) ==> spec_chosen_format(
            depth,
            supports_s32,
        ).represents_exactly(depth),
        !(depth == 16 || depth == 24 || depth == 32) ==> spec_chosen_format(depth, supports_s32)
            == SampleFormat::Unknown,
{
}

/// What the opened hardware offers, read once at open time: whether the
/// 32-bit container layout is available, the supported rate range, and the
/// negotiated ring-buffer size in frames.
#[derive(PartialEq, Eq, Structural, Clone, Copy, Debug)]
pub struct HwCaps {
    pub supports_s32: bool,
    pub rate_min: u32,
    pub rate_max: u32,
    pub buffer_frames: u64,
}

impl HwCaps {
    pub open spec fn wf(&self) -> bool {
        0 < self.rate_min <= self.rate_max
    }
}

/// How a device was addressed: a specific hardware card and subdevice, or a
/// raw identifier handed to the driver layer unchanged.
#[derive(PartialEq, Clone, Debug)]
pub enum DeviceTarget {
    Hw { card: String, device: u32 },
    Raw { name: String },
}

/// Parameters applied to the hardware, all at once, by `configure_exact`.
#[derive(PartialEq, Eq, Structural, Clone, Copy, Debug)]
pub struct DeviceConfig {
    pub format: SampleFormat,
    pub channels: u8,
    pub rate: u32,
}

impl DeviceConfig {
    /// Bytes in one interleaved frame (one sample per channel).
    pub open spec fn spec_frame_bytes(self) -> int {
        self.format.spec_bytes_per_sample() * self.channels
    }
}

#[derive(PartialEq, Eq, Structural, Clone, Copy, Debug)]
pub enum DeviceError {
    /// `configure_exact` accepts only depths 16, 24 and 32.
    UnsupportedBitDepth,
    /// The hardware offers no exact layout for the request.
    FormatNotSupported,
    /// No device answers to any tried identifier.
    NoSuchDevice,
}

impl DeviceError {
    /// A short human-readable description for the shared error field.
    pub fn message(&self) -> (m: String)
        ensures
            m@.len() > 0,
            *self matches DeviceError::UnsupportedBitDepth ==> m@ == "unsupported bit depth"@,
            *self matches DeviceError::FormatNotSupported ==> m@
                == "hardware offers no exact layout for the request"@,
            *self matches DeviceError::NoSuchDevice ==> m@ == "no such audio device"@,
    {
        proof {
            reveal_strlit("unsupported bit depth");
            reveal_strlit("hardware offers no exact layout for the request");
            reveal_strlit("no such audio device");
        }
        match self {
            DeviceError::UnsupportedBitDepth => "unsupported bit depth".to_owned(),
            DeviceError::FormatNotSupported => "hardware offers no exact layout for the request".to_owned(),
            DeviceError::NoSuchDevice => "no such audio device".to_owned(),
        }
    }
}

/// One hardware output, opened and configured anew for every track. The
/// record mirrors exactly the state the hardware must be in: the chosen
/// layout, the applied parameters, and the bytes accepted since the last
/// configuration that have not yet been played out by `drain`.
pub struct BitPerfectDevice {
    pub target: DeviceTarget,
    pub caps: HwCaps,
    pub current_format: SampleFormat,
    pub config: Option<DeviceConfig>,
    pub pending: Vec<u8>,
}

impl BitPerfectDevice {
    pub open spec fn wf(&self) -> bool {
        &&& self.caps.wf()
        &&& match self.config {
            Some(c) => {
                &&& c.format == self.current_format
                &&& c.format != SampleFormat::Unknown
                &&& c.channels >= 1
                &&& self.caps.rate_min <= c.rate <= self.caps.rate_max
            },
            None => self.current_format == SampleFormat::Unknown,
        }
    }

    pub open spec fn is_configured(&self) -> bool {
        self.config is Some
    }

    /// Opens the device a raw identifier names. `caps` is what the opened
    /// hardware reported about itself.
    pub fn open_raw(name: &str, caps: HwCaps) -> (dev: Self)
        requires
            caps.wf(),
        ensures
            dev.wf(),
            dev.target matches DeviceTarget::Raw { name: n } && n@ == name@,
            dev.caps == caps,
            dev.current_format == SampleFormat::Unknown,
            dev.config is None,
            dev.pending@ =~= Seq::<u8>::empty(),
    {
        BitPerfectDevice {
            target: DeviceTarget::Raw { name: name.to_owned() },
            caps,
            current_format: SampleFormat::Unknown,
            config: None,
            pending: Vec::new(),
        }
    }

    /// Opens a specific hardware card and subdevice.
    pub fn open(card: &str, device: u32, caps: HwCaps) -> (dev: Self)
        requires
            caps.wf(),
        ensures
            dev.wf(),
            dev.target matches DeviceTarget::Hw { card: c, device: d } && c@ == card@ && d
                == device,
            dev.caps == caps,
            dev.current_format == SampleFormat::Unknown,
            dev.config is None,
            dev.pending@ =~= Seq::<u8>::empty(),
    {
        BitPerfectDevice {
            target: DeviceTarget::Hw { card: card.to_owned(), device },
            caps,
            current_format: SampleFormat::Unknown,
            config: None,
            pending: Vec::new(),
        }
    }

    /// Configures the hardware to carry the file's native format exactly:
    /// no resampling, no depth conversion. The device is reset first, so a
    /// failure never leaves a half-applied configuration behind. The
    /// negotiated rate is the nearest the hardware supports to the request;
    /// callers must use it, not the requested rate, for time arithmetic.
    pub fn configure_exact(&mut self, sample_rate: u32, bit_depth: u16, channels: u8) -> (r: Result<
        (),
        DeviceError,
    >)
        requires
            old(self).wf(),
        ensures
            final(self).wf(),
            final(self).target == old(self).target,
            final(self).caps == old(self).caps,
            final(self).pending@ =~= Seq::<u8>::empty(),
            r matches Err(DeviceError::UnsupportedBitDepth) <==> !(bit_depth == 16 || bit_depth
                == 24 || bit_depth == 32),
            r is Ok <==> (bit_depth == 16 || bit_depth == 24 || bit_depth == 32) && channels >= 1
                && !(bit_depth == 32 && !old(self).caps.supports_s32),
            r is Ok ==> final(self).config == Some(
                DeviceConfig {
                    format: spec_chosen_format(bit_depth, old(self).caps.supports_s32),
                    channels,
                    rate: clamp_rate(sample_rate, old(self).caps),
                },
            ),
            r is Ok ==> final(self).current_format == spec_chosen_format(
                bit_depth,
                old(self).caps.supports_s32,
            ),
            r is Err ==> final(self).config is None,
    {
        // Discard any in-flight configuration and queued bytes first.
        self.config = None;
        self.current_format = SampleFormat::Unknown;
        self.pending = Vec::new();

        let format = match bit_depth {
            16 => SampleFormat::S16LE,
            24 => if self.caps.supports_s32 {
                SampleFormat::S32LE
            } else {
                SampleFormat::S243LE
            },
            32 => SampleFormat::S32LE,
            _ => {
                return Err(DeviceError::UnsupportedBitDepth);
            },
        };
        if bit_depth == 32 && !self.caps.supports_s32 {
            return Err(DeviceError::FormatNotSupported);
        }
        if channels < 1 {
            return Err(DeviceError::FormatNotSupported);
        }
        let rate = if sample_rate < self.caps.rate_min {
            self.caps.rate_min
        } else if sample_rate > self.caps.rate_max {
            self.caps.rate_max
        } else {
            sample_rate
        };
        // All parameters reach the hardware in one atomic application.
        self.config = Some(DeviceConfig { format, channels, rate });
        self.current_format = format;
        Ok(())
    }

    /// The rate the hardware accepted for the current configuration.
    pub fn negotiated_rate(&self) -> (r: u32)
        requires
            self.is_configured(),
            self.wf(),
        ensures
            r == self.config->Some_0.rate,
            r >= 1,
    {
        match &self.config {
            Some(c) => c.rate,
            None => 1,
        }
    }

    /// Writes interleaved bytes already in the exact hardware layout; whole
    /// frames only, no conversion. Returns the number of frames accepted.
    pub fn write_raw(&mut self, data: &[u8]) -> (r: Result<usize, DeviceError>)
        requires
            old(self).wf(),
            old(self).is_configured(),
            data@.len() as int % old(self).config->Some_0.spec_frame_bytes() == 0,
        ensures
            final(self).wf(),
            *final(self) == (BitPerfectDevice {
                pending: final(self).pending,
                ..*old(self)
            }),
            final(self).pending@ =~= old(self).pending@ + data@,
            r matches Ok(n) && n as int == data@.len() as int
                / old(self).config->Some_0.spec_frame_bytes(),
    {
        let frame_bytes = match &self.config {
            Some(c) => c.format.bytes_per_sample() * (c.channels as usize),
            None => 1,
        };
        proof {
            let c = self.config->Some_0;
            assert(c.spec_frame_bytes() >= 2) by (nonlinear_arith)
                requires
                    c.format.spec_bytes_per_sample() >= 2,
                    c.channels >= 1,
                    c.spec_frame_bytes() == c.format.spec_bytes_per_sample() * c.channels,
            ;
        }
        let frames = data.len() / frame_bytes;
        let mut i: usize = 0;
        while i < data.len()
            invariant
                self.pending@ =~= old(self).pending@ + data@.take(i as int),
                i <= data@.len(),
                *self == (BitPerfectDevice { pending: self.pending, ..*old(self) }),
            decreases data@.len() - i,
        {
            self.pending.push(data[i]);
            proof {
                assert(data@.take(i + 1 as int) =~= data@.take(i as int).push(data@[i as int]));
            }
            i = i + 1;
        }
        proof {
            assert(data@.take(data@.len() as int) =~= data@);
        }
        Ok(frames)
    }

    /// Blocks until everything queued has physically played out. Called once
    /// at natural end-of-track or explicit stop, never when a session is
    /// abandoned for a pending command.
    pub fn drain(&mut self) -> (r: Result<(), DeviceError>)
        requires
            old(self).wf(),
            old(self).is_configured(),
        ensures
            final(self).wf(),
            *final(self) == (BitPerfectDevice { pending: final(self).pending, ..*old(self) }),
            final(self).pending@ =~= Seq::<u8>::empty(),
            r is Ok,
    {
        self.pending = Vec::new();
        Ok(())
    }
}

/// The nearest supported rate to the request: the hardware clamps into its
/// advertised range.
pub open spec fn clamp_rate(requested: u32, caps: HwCaps) -> u32 {
    if requested < caps.rate_min {
        caps.rate_min
    } else if requested > caps.rate_max {
        caps.rate_max
    } else {
        requested
    }
}

/// Buffering thresholds applied after the hardware parameters, before the
/// first write.
#[derive(PartialEq, Eq, Structural, Clone, Copy, Debug)]
pub struct SwParams {
    pub start_threshold: u64,
    pub avail_min: u64,
    pub tstamp_monotonic_raw: bool,
}

/// Playback must not auto-start until the ring buffer is completely
/// pre-filled (start threshold = whole buffer), the device may only wake the
/// writer once half the buffer has room again, and position timestamps come
/// from the monotonic hardware-correlated clock rather than an interpolated
/// software one.
pub fn configure_software_params(dev: &BitPerfectDevice) -> (p: SwParams)
    requires
        dev.wf(),
        dev.is_configured(),
    ensures
        p.start_threshold == dev.caps.buffer_frames,
        p.avail_min == dev.caps.buffer_frames / 2,
        p.tstamp_monotonic_raw,
{
    SwParams {
        start_threshold: dev.caps.buffer_frames,
        avail_min: dev.caps.buffer_frames / 2,
        tstamp_monotonic_raw: true,
    }
}

} // verus!
