use elitebox::device::{DeviceError, DeviceTarget, HwCaps};
use elitebox::engine::{first_available, open_target, report_open_failure, GaplessEngine, GaplessError};
use elitebox::state::{PlayerCommand, PlayerState};

fn engine_with(paths: &[&str]) -> GaplessEngine {
    let mut e = GaplessEngine::new("default".to_string(), 0);
    for p in paths {
        e.add_to_playlist(p.to_string());
    }
    e
}

fn caps() -> HwCaps {
    HwCaps { supports_s32: true, rate_min: 8000, rate_max: 192000, buffer_frames: 4096 }
}

#[test]
fn play_index_is_idempotent_per_issuance() {
    let mut e = engine_with(&["a.flac", "b.flac", "c.flac"]);
    let mut st = PlayerState::new();

    st.command = Some(PlayerCommand::PlayIndex(1));
    e.apply_pending_command(&mut st);
    let once = e.current_track;

    st.command = Some(PlayerCommand::PlayIndex(1));
    e.apply_pending_command(&mut st);
    assert_eq!(e.current_track, once);
    assert_eq!(once, 1);
}

#[test]
fn next_at_last_index_wraps_to_start() {
    let mut e = engine_with(&["a.flac", "b.flac"]);
    let mut st = PlayerState::new();
    st.command = Some(PlayerCommand::PlayIndex(1));
    e.apply_pending_command(&mut st);
    st.command = Some(PlayerCommand::Next);
    e.apply_pending_command(&mut st);
    assert_eq!(e.current_track, 0);
}

#[test]
fn prev_at_first_index_stays() {
    let mut e = engine_with(&["a.flac", "b.flac"]);
    let mut st = PlayerState::new();
    st.command = Some(PlayerCommand::Prev);
    e.apply_pending_command(&mut st);
    assert_eq!(e.current_track, 0);
}

#[test]
fn play_index_out_of_range_is_a_no_op() {
    let mut e = engine_with(&["a.flac", "b.flac"]);
    let mut st = PlayerState::new();
    st.command = Some(PlayerCommand::PlayIndex(1));
    e.apply_pending_command(&mut st);
    st.command = Some(PlayerCommand::PlayIndex(7));
    e.apply_pending_command(&mut st);
    assert_eq!(e.current_track, 1);
}

#[test]
fn command_is_consumed_exactly_once() {
    let mut e = engine_with(&["a.flac"]);
    let mut st = PlayerState::new();
    st.command = Some(PlayerCommand::Next);
    e.apply_pending_command(&mut st);
    assert!(st.command.is_none());
    assert!(st.is_playing);
    assert!(e.is_playing);
}

#[test]
fn command_on_empty_playlist_stops_transport() {
    let mut e = engine_with(&[]);
    let mut st = PlayerState::new();
    st.command = Some(PlayerCommand::Next);
    e.apply_pending_command(&mut st);
    assert!(!st.is_playing);
    assert!(!e.is_playing);
}

#[test]
fn natural_end_advances_when_no_command_arrived() {
    let mut e = engine_with(&["a.flac", "b.flac"]);
    let mut st = PlayerState::new();
    st.is_playing = true;
    e.is_playing = true;
    e.finish_track(&mut st);
    assert_eq!(e.current_track, 1);
    assert!(st.is_playing);
}

#[test]
fn intervening_command_wins_over_automatic_advance() {
    let mut e = engine_with(&["a.flac", "b.flac"]);
    let mut st = PlayerState::new();
    st.is_playing = true;
    st.command = Some(PlayerCommand::PlayIndex(0));
    e.finish_track(&mut st);
    assert_eq!(e.current_track, 0);
    assert_eq!(st.command, Some(PlayerCommand::PlayIndex(0)));
}

#[test]
fn advance_past_the_end_stops_instead_of_wrapping() {
    let mut e = engine_with(&["a.flac"]);
    let mut st = PlayerState::new();
    st.is_playing = true;
    e.is_playing = true;
    e.finish_track(&mut st);
    assert_eq!(e.current_track, 1);
    assert!(!st.is_playing);
    assert!(st.current_track.is_none());
}

#[test]
fn empty_playlist_with_playing_flag_clears_within_one_cycle() {
    // the flag was set externally, with no command issued
    let mut e = engine_with(&[]);
    let mut st = PlayerState::new();
    st.is_playing = true;
    let play = e.evaluate_playability(&mut st);
    assert!(play.is_none());
    assert!(!st.is_playing);
    assert!(!e.is_playing);
    assert!(st.current_track.is_none());
}

#[test]
fn index_past_the_end_also_clears_the_idle_state() {
    let mut e = engine_with(&["a.flac"]);
    let mut st = PlayerState::new();
    e.is_playing = true;
    st.is_playing = true;
    st.command = Some(PlayerCommand::Next);
    e.apply_pending_command(&mut st);
    // still playable: wrap kept the index in range
    assert!(e.evaluate_playability(&mut st).is_some());
    e.finish_track(&mut st);
    // automatic advance ran past the end and stopped the transport
    assert!(e.evaluate_playability(&mut st).is_none());
    assert!(!st.is_playing);
    assert!(st.current_track.is_none());
}

#[test]
fn playable_iteration_names_the_current_track() {
    let mut e = engine_with(&["a.flac", "b.flac"]);
    let mut st = PlayerState::new();
    st.is_playing = true;
    assert_eq!(e.evaluate_playability(&mut st), Some(0));
    assert_eq!(e.track_at(0), "a.flac");
}

#[test]
fn default_card_walks_the_fallback_chain() {
    let e = engine_with(&[]);
    let c = e.device_candidates();
    assert_eq!(c.len(), 4);
    match &c[0] {
        DeviceTarget::Hw { card, device } => {
            assert_eq!(card, "2");
            assert_eq!(*device, 0);
        }
        _ => panic!("expected hardware targets first"),
    }
    match &c[3] {
        DeviceTarget::Raw { name } => assert_eq!(name, "default"),
        _ => panic!("expected the raw fallback last"),
    }
}

#[test]
fn specific_card_is_opened_directly() {
    let e = GaplessEngine::new("3".to_string(), 1);
    let c = e.device_candidates();
    assert_eq!(c.len(), 1);
    match &c[0] {
        DeviceTarget::Hw { card, device } => {
            assert_eq!(card, "3");
            assert_eq!(*device, 1);
        }
        _ => panic!("expected a hardware target"),
    }
}

#[test]
fn first_available_picks_the_first_working_probe() {
    let probes = vec![None, Some(caps()), Some(caps())];
    assert_eq!(first_available(&probes), Some(1));
    let none: Vec<Option<HwCaps>> = vec![None, None];
    assert_eq!(first_available(&none), None);
}

#[test]
fn open_failure_on_every_candidate_reports_and_survives() {
    let mut e = engine_with(&["a.flac"]);
    let mut st = PlayerState::new();
    st.is_playing = true;
    assert_eq!(e.evaluate_playability(&mut st), Some(0));

    // every identifier in the chain failed to open
    let probes: Vec<Option<HwCaps>> = vec![None, None, None, None];
    assert_eq!(first_available(&probes), None);
    let err = report_open_failure(&mut st);
    assert_eq!(err, GaplessError::Device(DeviceError::NoSuchDevice));
    assert_eq!(st.error_message.as_deref(), Some("no such audio device"));
    assert!(st.current_track.is_none());

    // the engine is still usable on the next iteration after the cooldown
    assert_eq!(e.evaluate_playability(&mut st), Some(0));
}

#[test]
fn begin_track_publishes_a_placeholder() {
    let e = engine_with(&["music/deep/a.flac"]);
    let mut st = PlayerState::new();
    st.error_message = Some("stale".to_string());
    e.begin_track(&mut st);
    let t = st.current_track.unwrap();
    assert_eq!(t.filename, "a.flac");
    assert_eq!(t.sample_rate, 0);
    assert_eq!(t.bit_depth, 0);
    assert!(t.title.is_none());
    assert!(st.error_message.is_none());
}

#[test]
fn open_target_carries_the_identifier() {
    let dev = open_target(&DeviceTarget::Hw { card: "1".to_string(), device: 0 }, caps());
    match dev.target {
        DeviceTarget::Hw { card, device } => {
            assert_eq!(card, "1");
            assert_eq!(device, 0);
        }
        _ => panic!("expected a hardware target"),
    }
    assert!(dev.config.is_none());
}
