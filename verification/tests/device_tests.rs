use elitebox::device::{
    configure_software_params, BitPerfectDevice, DeviceError, DeviceTarget, HwCaps, SampleFormat,
};

fn caps_with_s32() -> HwCaps {
    HwCaps { supports_s32: true, rate_min: 8000, rate_max: 192000, buffer_frames: 16384 }
}

fn caps_without_s32() -> HwCaps {
    HwCaps { supports_s32: false, rate_min: 8000, rate_max: 192000, buffer_frames: 16384 }
}

#[test]
fn open_raw_starts_unconfigured() {
    let dev = BitPerfectDevice::open_raw("default", caps_with_s32());
    assert!(dev.config.is_none());
    assert_eq!(dev.current_format, SampleFormat::Unknown);
    assert!(dev.pending.is_empty());
    match dev.target {
        DeviceTarget::Raw { name } => assert_eq!(name, "default"),
        _ => panic!("expected a raw target"),
    }
}

#[test]
fn open_addresses_card_and_device() {
    let dev = BitPerfectDevice::open("2", 0, caps_with_s32());
    match dev.target {
        DeviceTarget::Hw { card, device } => {
            assert_eq!(card, "2");
            assert_eq!(device, 0);
        }
        _ => panic!("expected a hardware target"),
    }
}

#[test]
fn configure_16_picks_s16le() {
    let mut dev = BitPerfectDevice::open_raw("default", caps_with_s32());
    assert!(dev.configure_exact(44100, 16, 2).is_ok());
    let cfg = dev.config.unwrap();
    assert_eq!(cfg.format, SampleFormat::S16LE);
    assert_eq!(cfg.channels, 2);
    assert_eq!(cfg.rate, 44100);
}

#[test]
fn configure_24_prefers_padded_container() {
    let mut dev = BitPerfectDevice::open_raw("default", caps_with_s32());
    assert!(dev.configure_exact(96000, 24, 2).is_ok());
    assert_eq!(dev.config.unwrap().format, SampleFormat::S32LE);
}

#[test]
fn configure_24_falls_back_to_packed() {
    let mut dev = BitPerfectDevice::open_raw("default", caps_without_s32());
    assert!(dev.configure_exact(96000, 24, 2).is_ok());
    assert_eq!(dev.config.unwrap().format, SampleFormat::S243LE);
}

#[test]
fn configure_32_needs_wide_container() {
    let mut dev = BitPerfectDevice::open_raw("default", caps_with_s32());
    assert!(dev.configure_exact(192000, 32, 2).is_ok());
    assert_eq!(dev.config.unwrap().format, SampleFormat::S32LE);

    let mut narrow = BitPerfectDevice::open_raw("default", caps_without_s32());
    assert_eq!(
        narrow.configure_exact(192000, 32, 2),
        Err(DeviceError::FormatNotSupported)
    );
    assert!(narrow.config.is_none());
}

#[test]
fn configure_rejects_other_depths() {
    for depth in [0u16, 8, 12, 20, 64] {
        let mut dev = BitPerfectDevice::open_raw("default", caps_with_s32());
        assert_eq!(
            dev.configure_exact(44100, depth, 2),
            Err(DeviceError::UnsupportedBitDepth)
        );
        assert!(dev.config.is_none());
        assert_eq!(dev.current_format, SampleFormat::Unknown);
    }
}

#[test]
fn configure_clamps_rate_to_hardware_range() {
    let mut dev = BitPerfectDevice::open_raw("default", caps_with_s32());
    assert!(dev.configure_exact(4000, 16, 2).is_ok());
    assert_eq!(dev.config.unwrap().rate, 8000);
    assert!(dev.configure_exact(400000, 16, 2).is_ok());
    assert_eq!(dev.config.unwrap().rate, 192000);
    assert_eq!(dev.negotiated_rate(), 192000);
}

#[test]
fn failed_configure_resets_earlier_state() {
    let mut dev = BitPerfectDevice::open_raw("default", caps_with_s32());
    assert!(dev.configure_exact(44100, 16, 2).is_ok());
    assert_eq!(dev.configure_exact(44100, 20, 2), Err(DeviceError::UnsupportedBitDepth));
    assert!(dev.config.is_none());
    assert_eq!(dev.current_format, SampleFormat::Unknown);
}

#[test]
fn write_raw_counts_frames_and_queues_bytes() {
    let mut dev = BitPerfectDevice::open_raw("default", caps_with_s32());
    dev.configure_exact(44100, 16, 2).unwrap();
    let data = [1u8, 2, 3, 4, 5, 6, 7, 8];
    let frames = dev.write_raw(&data).unwrap();
    assert_eq!(frames, 2);
    assert_eq!(dev.pending, data.to_vec());
}

#[test]
fn drain_plays_out_everything() {
    let mut dev = BitPerfectDevice::open_raw("default", caps_with_s32());
    dev.configure_exact(44100, 16, 1).unwrap();
    dev.write_raw(&[1u8, 2]).unwrap();
    assert!(dev.drain().is_ok());
    assert!(dev.pending.is_empty());
}

#[test]
fn software_params_follow_buffer_size() {
    let mut dev = BitPerfectDevice::open_raw("default", caps_with_s32());
    dev.configure_exact(44100, 16, 2).unwrap();
    let p = configure_software_params(&dev);
    assert_eq!(p.start_threshold, 16384);
    assert_eq!(p.avail_min, 8192);
    assert!(p.tstamp_monotonic_raw);
}

#[test]
fn device_errors_have_messages() {
    assert!(!DeviceError::UnsupportedBitDepth.message().is_empty());
    assert!(!DeviceError::FormatNotSupported.message().is_empty());
    assert!(!DeviceError::NoSuchDevice.message().is_empty());
}
