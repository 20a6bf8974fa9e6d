use rebellion::keycode::KeyCode;
use rebellion::replay::{
    ReplayData, ReplayFrame, ReplayHeader, ReplayPlayback, ReplayRecorder, DEFAULT_MAX_FRAMES,
    REPLAY_VERSION,
};

fn frame(k: KeyCode) -> (Vec<KeyCode>, Vec<KeyCode>) {
    (vec![k], vec![])
}

#[test]
fn header_defaults() {
    let h = ReplayHeader::default();
    assert_eq!(h.version, REPLAY_VERSION);
    assert_eq!(h.mission_seed, 0);
    assert_eq!(h.total_frames, 0);
    let r = ReplayRecorder::default();
    assert!(!r.active);
    assert!(!r.full);
    assert_eq!(r.max_frames, DEFAULT_MAX_FRAMES);
    assert_eq!(DEFAULT_MAX_FRAMES, 36000);
}

#[test]
fn inactive_recorder_ignores_frames_and_stop() {
    let mut r = ReplayRecorder::default();
    let (p, q) = frame(KeyCode::KeyW);
    r.record_frame(p, q);
    assert!(r.data.frames.is_empty());
    assert!(r.stop().is_none());
}

#[test]
fn recording_captures_frames_in_order() {
    let mut r = ReplayRecorder::default();
    r.start(42);
    assert!(r.active);
    r.record_frame(vec![KeyCode::KeyW], vec![]);
    r.record_frame(vec![], vec![KeyCode::KeyW]);
    r.record_frame(vec![KeyCode::Space, KeyCode::KeyA], vec![]);
    let data = r.stop().expect("recording was active");
    assert!(!r.active);
    assert_eq!(data.header.mission_seed, 42);
    assert_eq!(data.header.version, REPLAY_VERSION);
    assert_eq!(data.header.total_frames, 3);
    assert_eq!(data.frames.len(), 3);
    assert_eq!(data.frames[0].keys_pressed, vec![KeyCode::KeyW]);
    assert_eq!(data.frames[1].keys_released, vec![KeyCode::KeyW]);
    assert_eq!(data.frames[2].keys_pressed, vec![KeyCode::Space, KeyCode::KeyA]);
    assert!(r.stop().is_none());
}

#[test]
fn full_recorder_keeps_what_it_captured() {
    let mut r = ReplayRecorder::default();
    r.max_frames = 2;
    r.start(7);
    r.record_frame(vec![KeyCode::KeyA], vec![]);
    r.record_frame(vec![KeyCode::KeyB], vec![]);
    assert!(r.active);
    assert!(!r.full);
    r.record_frame(vec![KeyCode::KeyC], vec![]);
    assert!(r.full);
    assert_eq!(r.data.frames.len(), 2);
    let d = r.stop().expect("a started recording hands back its frames");
    assert_eq!(d.frames.len(), 2);
    assert_eq!(d.header.total_frames, 2);
    assert_eq!(d.header.mission_seed, 7);
    assert_eq!(d.frames[0].keys_pressed, vec![KeyCode::KeyA]);
    assert_eq!(d.frames[1].keys_pressed, vec![KeyCode::KeyB]);
    assert!(!r.active);
    r.start(8);
    assert!(!r.full);
}

#[test]
fn start_discards_previous_recording() {
    let mut r = ReplayRecorder::default();
    r.start(1);
    r.record_frame(vec![KeyCode::KeyA], vec![]);
    r.start(2);
    assert!(r.data.frames.is_empty());
    assert_eq!(r.data.header.mission_seed, 2);
}

#[test]
fn playback_replays_recorded_frames() {
    let mut r = ReplayRecorder::default();
    r.start(7);
    r.record_frame(vec![KeyCode::KeyW], vec![]);
    r.record_frame(vec![KeyCode::KeyS], vec![KeyCode::KeyW]);
    let data = r.stop().unwrap();

    let mut p = ReplayPlayback::default();
    assert!(p.tick().is_none());
    p.start(data);
    assert!(p.active);
    assert_eq!(p.total_frames, 2);
    let f0 = p.tick().unwrap();
    assert_eq!(f0.keys_pressed, vec![KeyCode::KeyW]);
    let f1 = p.tick().unwrap();
    assert_eq!(f1.keys_pressed, vec![KeyCode::KeyS]);
    assert_eq!(f1.keys_released, vec![KeyCode::KeyW]);
    assert!(p.active);
    assert!(p.tick().is_none());
    assert!(!p.active);
    assert!(p.tick().is_none());
}

#[test]
fn playback_stop_forgets_the_replay() {
    let mut p = ReplayPlayback::default();
    p.start(ReplayData {
        header: ReplayHeader::default(),
        frames: vec![ReplayFrame { keys_pressed: vec![KeyCode::KeyQ], keys_released: vec![] }],
    });
    p.stop();
    assert!(!p.active);
    assert!(p.data.is_none());
    assert_eq!(p.current_frame, 0);
    assert!(p.tick().is_none());
}

#[test]
fn replay_data_clone_keeps_frames() {
    let d = ReplayData {
        header: ReplayHeader { version: 1, mission_seed: 9, total_frames: 1 },
        frames: vec![ReplayFrame { keys_pressed: vec![KeyCode::KeyE], keys_released: vec![KeyCode::KeyR] }],
    };
    let c = d.clone();
    assert_eq!(c.header, d.header);
    assert_eq!(c.frames.len(), 1);
    assert_eq!(c.frames[0].keys_pressed, vec![KeyCode::KeyE]);
    assert_eq!(c.frames[0].keys_released, vec![KeyCode::KeyR]);
    let e = ReplayData::default();
    assert!(e.frames.is_empty());
    assert_eq!(e.header.version, REPLAY_VERSION);
}
