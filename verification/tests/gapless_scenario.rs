use elitebox::device::{HwCaps, SampleFormat};
use elitebox::engine::{first_available, open_target, GaplessEngine};
use elitebox::session::{
    BitPerfectPlayer, PcmSamples, SessionEvent, SessionStatus, SideMetadata, TrackParams,
};
use elitebox::state::{PlayerCommand, PlayerState};

fn caps() -> HwCaps {
    HwCaps { supports_s32: true, rate_min: 8000, rate_max: 192000, buffer_frames: 4096 }
}

fn track(rate: u32, bits: u16, frames: u64) -> TrackParams {
    TrackParams {
        codec: 1,
        sample_rate: Some(rate),
        channels: Some(2),
        bits_per_sample: Some(bits),
        n_frames: Some(frames),
    }
}

fn no_meta() -> SideMetadata {
    SideMetadata { title: None, artist: None, album_art: None }
}

/// Playlist [A.flac 44100/16, B.flac 48000/24]; PlayIndex(0) is issued, A
/// plays to its natural end, and the engine advances gaplessly to B: the
/// hardware is reconfigured to 48000/24 before any byte of B is written and
/// the shared record carries the negotiated 48000.
#[test]
fn natural_end_reconfigures_before_the_next_track() {
    let mut engine = GaplessEngine::new("default".to_string(), 0);
    engine.add_to_playlist("A.flac".to_string());
    engine.add_to_playlist("B.flac".to_string());
    let mut st = PlayerState::new();
    st.volume_db = 0;

    // the control surface issues PlayIndex(0)
    st.command = Some(PlayerCommand::PlayIndex(0));
    engine.apply_pending_command(&mut st);
    assert!(st.is_playing);
    assert_eq!(engine.evaluate_playability(&mut st), Some(0));
    assert_eq!(engine.track_at(0), "A.flac");

    // a fresh device for A's session
    let candidates = engine.device_candidates();
    let probes = vec![Some(caps()), None, None, None];
    let hit = first_available(&probes).unwrap();
    let device = open_target(&candidates[hit], probes[hit].unwrap());
    engine.begin_track(&mut st);
    let mut player = BitPerfectPlayer::new(device);
    let rate_a = player
        .configure_for_track(&track(44100, 16, 44100), no_meta(), &mut st)
        .unwrap();
    assert_eq!(rate_a, 44100);
    assert_eq!(st.current_track.as_ref().unwrap().sample_rate, 44100);

    // A streams and ends naturally
    let ev = SessionEvent::Decoded { dur_frames: 44100, samples: PcmSamples::S16(vec![5, -5]) };
    assert_eq!(player.on_stream_event(ev, &mut st), SessionStatus::Continue);
    assert_eq!(
        player.on_stream_event(SessionEvent::EndOfStream, &mut st),
        SessionStatus::Finished
    );

    // no command arrived during A: automatic advance to B
    engine.finish_track(&mut st);
    assert_eq!(engine.current_track, 1);
    assert!(st.is_playing);
    assert_eq!(engine.evaluate_playability(&mut st), Some(1));
    assert_eq!(engine.track_at(1), "B.flac");

    // a fresh device for B: configured to 48000/24 while nothing is queued
    let device_b = open_target(&candidates[hit], probes[hit].unwrap());
    engine.begin_track(&mut st);
    let mut player_b = BitPerfectPlayer::new(device_b);
    assert!(player_b.device.pending.is_empty());
    let rate_b = player_b
        .configure_for_track(&track(48000, 24, 48000), no_meta(), &mut st)
        .unwrap();
    assert_eq!(rate_b, 48000);
    let cfg = player_b.device.config.unwrap();
    assert_eq!(cfg.rate, 48000);
    assert_eq!(cfg.format, SampleFormat::S32LE);
    assert!(player_b.device.pending.is_empty());
    assert_eq!(st.current_track.as_ref().unwrap().sample_rate, 48000);
    assert_eq!(st.current_track.as_ref().unwrap().bit_depth, 24);

    // only now do B's bytes reach the device
    let ev_b = SessionEvent::Decoded { dur_frames: 48, samples: PcmSamples::S32(vec![1, 2]) };
    player_b.on_stream_event(ev_b, &mut st);
    assert_eq!(player_b.device.pending.len(), 8);
}
