use input_recorder::capture::Recorder;
use input_recorder::correlator::EventCorrelator;
use input_recorder::events::{Button, EventKind, InputEvent, Position};
use input_recorder::keys::{ALT, CONTROL_LEFT, KEY_P};
use input_recorder::persist::{advance, first_stage, JobAction, JobStage};

fn event(timestamp: u128, kind: EventKind) -> InputEvent {
    InputEvent { timestamp, name: None, kind }
}

fn form_chord(recorder: &mut Recorder) {
    recorder.observe(EventKind::KeyPress(CONTROL_LEFT));
    recorder.observe(EventKind::KeyPress(ALT));
    recorder.observe(EventKind::KeyPress(KEY_P));
}

fn let_go_of_chord(recorder: &mut Recorder) {
    recorder.observe(EventKind::KeyRelease(KEY_P));
    recorder.observe(EventKind::KeyRelease(ALT));
    recorder.observe(EventKind::KeyRelease(CONTROL_LEFT));
}

#[test]
fn recorder_starts_idle() {
    let recorder = Recorder::new();
    assert!(!recorder.is_active());
    assert_eq!(recorder.pointer(), None);
}

#[test]
fn idle_recorder_persists_nothing() {
    let mut recorder = Recorder::new();
    let press = event(1, EventKind::ButtonPress(Button::Left));
    assert!(matches!(recorder.handle_event(&press), Ok(None)));
    let key = event(2, EventKind::KeyPress(4));
    assert!(matches!(recorder.handle_event(&key), Ok(None)));
    let wheel = event(3, EventKind::Wheel { delta_x: 0, delta_y: 1 });
    assert!(matches!(recorder.handle_event(&wheel), Ok(None)));
}

#[test]
fn idle_recorder_still_tracks_the_pointer() {
    let mut recorder = Recorder::new();
    let moved = event(1, EventKind::MouseMove { x: 10, y: 20 });
    assert!(matches!(recorder.handle_event(&moved), Ok(None)));
    assert_eq!(recorder.pointer(), Some(Position { x: 10, y: 20 }));
}

#[test]
fn button_press_is_paired_with_last_position() {
    let mut recorder = Recorder::new();
    form_chord(&mut recorder);
    let_go_of_chord(&mut recorder);
    assert!(recorder.is_active());
    let moved = event(1000, EventKind::MouseMove { x: 10, y: 20 });
    assert!(matches!(recorder.handle_event(&moved), Ok(None)));
    let press = event(1001, EventKind::ButtonPress(Button::Left));
    let job = recorder.handle_event(&press).unwrap().unwrap();
    assert_eq!(job.timestamp, 1001);
    assert_eq!(
        job.json,
        "{\"type\":\"ButtonPress\",\"timestamp\":1001,\"name\":null,\"button\":\"left\",\"position\":{\"x\":10,\"y\":20}}"
    );
    let value: serde_json::Value = serde_json::from_str(&job.json).unwrap();
    assert_eq!(value["position"]["x"].as_i64(), Some(10));
    assert_eq!(value["position"]["y"].as_i64(), Some(20));
}

#[test]
fn only_the_latest_position_is_kept() {
    let mut recorder = Recorder::new();
    form_chord(&mut recorder);
    recorder.observe(EventKind::MouseMove { x: 1, y: 1 });
    recorder.observe(EventKind::MouseMove { x: 2, y: 3 });
    recorder.observe(EventKind::MouseMove { x: -7, y: 8 });
    let release = event(9, EventKind::ButtonRelease(Button::Right));
    let job = recorder.handle_event(&release).unwrap().unwrap();
    assert_eq!(
        job.json,
        "{\"type\":\"ButtonRelease\",\"timestamp\":9,\"name\":null,\"button\":\"right\",\"position\":{\"x\":-7,\"y\":8}}"
    );
}

#[test]
fn each_discrete_event_gives_one_job_while_active() {
    let mut recorder = Recorder::new();
    form_chord(&mut recorder);
    let kinds = vec![
        EventKind::ButtonPress(Button::Left),
        EventKind::ButtonRelease(Button::Left),
        EventKind::KeyPress(4),
        EventKind::KeyRelease(4),
        EventKind::Wheel { delta_x: 1, delta_y: 0 },
    ];
    let mut timestamp: u128 = 50;
    for kind in kinds {
        let job = recorder.handle_event(&event(timestamp, kind)).unwrap();
        assert_eq!(job.unwrap().timestamp, timestamp);
        timestamp += 1;
    }
    let moved = event(timestamp, EventKind::MouseMove { x: 0, y: 0 });
    assert!(matches!(recorder.handle_event(&moved), Ok(None)));
}

#[test]
fn key_that_completes_the_chord_is_gated_by_the_new_state() {
    let mut recorder = Recorder::new();
    recorder.observe(EventKind::KeyPress(CONTROL_LEFT));
    recorder.observe(EventKind::KeyPress(ALT));
    let going_active = event(1, EventKind::KeyPress(KEY_P));
    let job = recorder.handle_event(&going_active).unwrap().unwrap();
    assert_eq!(
        job.json,
        "{\"type\":\"KeyPress\",\"timestamp\":1,\"name\":null,\"key\":19,\"position\":null}"
    );
    recorder.observe(EventKind::KeyRelease(KEY_P));
    let going_idle = event(2, EventKind::KeyPress(KEY_P));
    assert!(matches!(recorder.handle_event(&going_idle), Ok(None)));
    assert!(!recorder.is_active());
}

#[test]
fn idle_suppresses_persistence_until_active_again() {
    let mut recorder = Recorder::new();
    form_chord(&mut recorder);
    let_go_of_chord(&mut recorder);
    let press = event(1, EventKind::ButtonPress(Button::Left));
    assert!(recorder.handle_event(&press).unwrap().is_some());
    let release = event(2, EventKind::ButtonRelease(Button::Left));
    assert!(recorder.handle_event(&release).unwrap().is_some());

    form_chord(&mut recorder);
    let_go_of_chord(&mut recorder);
    assert!(!recorder.is_active());
    let kinds = vec![
        EventKind::ButtonPress(Button::Left),
        EventKind::ButtonRelease(Button::Left),
        EventKind::Wheel { delta_x: 0, delta_y: 2 },
        EventKind::KeyPress(7),
        EventKind::KeyRelease(7),
        EventKind::MouseMove { x: 4, y: 4 },
    ];
    for kind in kinds {
        assert!(matches!(recorder.handle_event(&event(3, kind)), Ok(None)));
    }

    form_chord(&mut recorder);
    let_go_of_chord(&mut recorder);
    assert!(recorder.is_active());
    let again = event(4, EventKind::ButtonPress(Button::Middle));
    let job = recorder.handle_event(&again).unwrap().unwrap();
    assert_eq!(
        job.json,
        "{\"type\":\"ButtonPress\",\"timestamp\":4,\"name\":null,\"button\":\"middle\",\"position\":{\"x\":4,\"y\":4}}"
    );
}

#[test]
fn failed_job_does_not_stop_the_capture() {
    let mut recorder = Recorder::new();
    form_chord(&mut recorder);
    let first = recorder.handle_event(&event(1, EventKind::ButtonPress(Button::Left))).unwrap();
    assert!(first.is_some());
    // The first job fails at its first step, as on a full disk.
    let failed = advance(first_stage(), false);
    assert_eq!(failed, JobStage::Failed(JobAction::WriteRecord));
    // The recorder goes on, and the next job runs to its end.
    let second = recorder.handle_event(&event(2, EventKind::ButtonRelease(Button::Left))).unwrap();
    assert_eq!(second.unwrap().timestamp, 2);
    let mut stage = first_stage();
    while let JobStage::Next(_) = stage {
        stage = advance(stage, true);
    }
    assert_eq!(stage, JobStage::Done);
}

#[test]
fn named_event_is_persisted_with_its_name() {
    let mut recorder = Recorder::new();
    form_chord(&mut recorder);
    let typed = InputEvent { timestamp: 12, name: Some(String::from("q")), kind: EventKind::KeyPress(20) };
    let job = recorder.handle_event(&typed).unwrap().unwrap();
    assert_eq!(
        job.json,
        "{\"type\":\"KeyPress\",\"timestamp\":12,\"name\":\"q\",\"key\":20,\"position\":null}"
    );
}

#[test]
fn correlator_pairs_event_with_last_position() {
    let mut correlator = EventCorrelator::new();
    assert_eq!(correlator.pointer(), None);
    let moved = event(1, EventKind::MouseMove { x: 10, y: 20 });
    assert_eq!(correlator.correlate(&moved), Ok(None));
    assert_eq!(correlator.pointer(), Some(Position { x: 10, y: 20 }));
    let press = event(2, EventKind::ButtonPress(Button::Left));
    assert_eq!(
        correlator.correlate(&press),
        Ok(Some(String::from(
            "{\"type\":\"ButtonPress\",\"timestamp\":2,\"name\":null,\"button\":\"left\",\"position\":{\"x\":10,\"y\":20}}"
        )))
    );
    assert_eq!(correlator.pointer(), Some(Position { x: 10, y: 20 }));
}

#[test]
fn correlator_tracks_moves_only() {
    let mut correlator = EventCorrelator::new();
    correlator.track(EventKind::KeyPress(4));
    correlator.track(EventKind::Wheel { delta_x: 1, delta_y: 1 });
    assert_eq!(correlator.pointer(), None);
    correlator.track(EventKind::MouseMove { x: 1, y: 2 });
    correlator.track(EventKind::ButtonPress(Button::Right));
    assert_eq!(correlator.pointer(), Some(Position { x: 1, y: 2 }));
}

#[test]
fn named_button_press_gives_one_job_with_latest_position() {
    let mut recorder = Recorder::new();
    form_chord(&mut recorder);
    let_go_of_chord(&mut recorder);
    recorder.observe(EventKind::MouseMove { x: 1, y: 2 });
    recorder.observe(EventKind::MouseMove { x: 30, y: 40 });
    let press = InputEvent {
        timestamp: 77,
        name: Some(String::from("click \"here\"")),
        kind: EventKind::ButtonPress(Button::Left),
    };
    let job = recorder.handle_event(&press).unwrap().unwrap();
    assert_eq!(job.timestamp, 77);
    assert_eq!(
        job.json,
        "{\"type\":\"ButtonPress\",\"timestamp\":77,\"name\":\"click \\\"here\\\"\",\"button\":\"left\",\"position\":{\"x\":30,\"y\":40}}"
    );
}

#[test]
fn named_wheel_event_gives_one_job() {
    let mut recorder = Recorder::new();
    form_chord(&mut recorder);
    let wheel = InputEvent {
        timestamp: 1700000000001,
        name: Some(String::from("\u{e9}\n")),
        kind: EventKind::Wheel { delta_x: -1, delta_y: 2 },
    };
    let job = recorder.handle_event(&wheel).unwrap().unwrap();
    assert_eq!(job.timestamp, 1700000000001);
    assert_eq!(
        job.json,
        "{\"type\":\"Wheel\",\"timestamp\":1700000000001,\"name\":\"\u{e9}\\n\",\"delta_x\":-1,\"delta_y\":2,\"position\":null}"
    );
}
